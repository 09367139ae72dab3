//! What one reconciliation does to the state that the graph keeps from frame to frame, stated
//! over plain sequences and maps.
//!
//! The caller describes the whole graph anew in every frame. Reconciliation takes over the
//! new nodes and edges, places every node where the layout says, moves the nodes that the
//! user has dragged since the last frame, and says so in one event for each.

use vstd::prelude::*;
use conrod::widget::Id;
use std::any::TypeId;
use crate::event::{Event, NodeEvent, NodeId, NodeSocket};
use crate::geometry::{moved, rect_at, socket_anchor, Point, Rect, SocketLayout};
use crate::slots::{issue, reset, Pool};

verus! {

/// The state that the graph keeps from frame to frame.
pub struct Frame {
    /// The events that have not been handed to the caller yet, oldest first.
    pub events: Seq<Event>,
    /// The nodes of the graph as the last reconciliation found them, in the caller's order.
    pub node_ids: Seq<NodeId>,
    /// The edges of the graph as the last reconciliation found them: `(a, b)` is the
    /// directed edge from `a` to `b`.
    pub edges: Seq<(NodeSocket, NodeSocket)>,
    /// Where each node is in this frame.
    pub nodes: Map<NodeId, Point>,
    /// The widget identifiers issued so far for each type of content widget.
    pub pool: Pool,
    /// The widget that stands for each node drawn so far in this frame.
    pub node_widgets: Map<NodeId, Id>,
}

impl Frame {
    /// The state of a graph that has not been reconciled yet.
    pub open spec fn empty() -> Frame {
        Frame {
            events: Seq::empty(),
            node_ids: Seq::empty(),
            edges: Seq::empty(),
            nodes: Map::empty(),
            pool: Map::empty(),
            node_widgets: Map::empty(),
        }
    }

    /// The state after a widget of the given type has been given the identifier `id` to stand
    /// for the node: the pool has issued it, and it is on record as the widget of the node.
    pub open spec fn with_node_widget(self, type_id: TypeId, node_id: NodeId, id: Id) -> Frame {
        Frame {
            pool: issue(self.pool, type_id, id),
            node_widgets: self.node_widgets.insert(node_id, id),
            ..self
        }
    }

    /// The state after a widget of the given type has been given the identifier `id` to stand
    /// for an edge: the pool has issued it.
    pub open spec fn with_edge_widget(self, type_id: TypeId, id: Id) -> Frame {
        Frame { pool: issue(self.pool, type_id, id), ..self }
    }

    /// The nodes that have a position are exactly the nodes of the graph.
    pub open spec fn consistent(self) -> bool {
        forall|id: NodeId| self.nodes.contains_key(id) <==> self.node_ids.contains(id)
    }
}

/// The position that the layout gives to a node: the one stored for it, or the centre of the
/// graph where none is.
pub open spec fn baseline(layout: Map<NodeId, Point>, node_id: NodeId) -> Point {
    if layout.contains_key(node_id) {
        layout[node_id]
    } else {
        Point { x: 0, y: 0 }
    }
}

/// How far the host says the node was dragged since the last frame: not at all where it says
/// nothing.
pub open spec fn delta(drags: Map<NodeId, Point>, node_id: NodeId) -> Point {
    if drags.contains_key(node_id) {
        drags[node_id]
    } else {
        Point { x: 0, y: 0 }
    }
}

/// Whether the node moves in this frame: it had a widget in the last frame, and that widget
/// was dragged away from where it was.
pub open spec fn is_dragged(
    widgets: Map<NodeId, Id>,
    drags: Map<NodeId, Point>,
    node_id: NodeId,
) -> bool {
    widgets.contains_key(node_id) && delta(drags, node_id) != (Point { x: 0, y: 0 })
}

/// Where the node is in this frame: where the layout puts it, moved by the drag if there was
/// one.
pub open spec fn resolved(
    layout: Map<NodeId, Point>,
    widgets: Map<NodeId, Id>,
    drags: Map<NodeId, Point>,
    node_id: NodeId,
) -> Point {
    if is_dragged(widgets, drags, node_id) {
        moved(baseline(layout, node_id), delta(drags, node_id))
    } else {
        baseline(layout, node_id)
    }
}

/// The event that tells the caller of the drag of a node.
pub open spec fn dragged_event(
    layout: Map<NodeId, Point>,
    drags: Map<NodeId, Point>,
    node_id: NodeId,
) -> Event {
    Event::Node(
        NodeEvent::Dragged {
            node_id,
            from: baseline(layout, node_id),
            to: moved(baseline(layout, node_id), delta(drags, node_id)),
        },
    )
}

/// The events that one reconciliation adds to the queue: one for each dragged node, in the
/// order of the nodes.
pub open spec fn drag_events(
    node_ids: Seq<NodeId>,
    layout: Map<NodeId, Point>,
    widgets: Map<NodeId, Id>,
    drags: Map<NodeId, Point>,
) -> Seq<Event>
    decreases node_ids.len(),
{
    if node_ids.len() == 0 {
        Seq::empty()
    } else {
        let earlier = drag_events(node_ids.drop_last(), layout, widgets, drags);
        if is_dragged(widgets, drags, node_ids.last()) {
            earlier.push(dragged_event(layout, drags, node_ids.last()))
        } else {
            earlier
        }
    }
}

/// The positions of all the nodes of a frame.
pub open spec fn placed(
    node_ids: Seq<NodeId>,
    layout: Map<NodeId, Point>,
    widgets: Map<NodeId, Id>,
    drags: Map<NodeId, Point>,
) -> Map<NodeId, Point> {
    Map::new(
        |id: NodeId| node_ids.contains(id),
        |id: NodeId| resolved(layout, widgets, drags, id),
    )
}

/// The state after a reconciliation with the given nodes, edges, layout and drags.
///
/// The retained nodes and edges become the new ones. Every node gets its position. The
/// events of the drags join the queue behind those that are still waiting. The pool starts
/// the frame with every cursor at zero, and no node has a widget yet.
pub open spec fn reconciled(
    frame: Frame,
    node_ids: Seq<NodeId>,
    edges: Seq<(NodeSocket, NodeSocket)>,
    layout: Map<NodeId, Point>,
    drags: Map<NodeId, Point>,
) -> Frame {
    Frame {
        events: frame.events + drag_events(node_ids, layout, frame.node_widgets, drags),
        node_ids,
        edges,
        nodes: placed(node_ids, layout, frame.node_widgets, drags),
        pool: reset(frame.pool),
        node_widgets: Map::empty(),
    }
}

/// The bounding rectangle from which the sockets of a node are placed: the one that the host
/// reports for the node's widget, or, where the node has no widget yet or the host does not
/// know it, the zero-size rectangle at the node's position.
pub open spec fn node_rect(frame: Frame, node_id: NodeId, host_rect: Option<Rect>) -> Rect {
    if frame.node_widgets.contains_key(node_id) && host_rect.is_some() {
        host_rect.unwrap()
    } else {
        rect_at(baseline(frame.nodes, node_id))
    }
}

/// Where an edge meets a node: the anchor of the socket with the given index, placed on the
/// node's bounding rectangle, or at the node's own position where that rectangle has no
/// area, as it has for a node that has not been drawn yet.
pub open spec fn edge_end(
    frame: Frame,
    node_id: NodeId,
    socket_index: nat,
    host_rect: Option<Rect>,
    layout: SocketLayout,
) -> Point {
    socket_anchor(
        socket_index,
        node_rect(frame, node_id, host_rect),
        baseline(frame.nodes, node_id),
        layout,
    )
}

/// The end of an edge at a node that has not been drawn in this frame, or of which the host
/// knows no rectangle, is the node's position: the edge is drawn from the fallback point.
pub proof fn lemma_edge_end_falls_back(
    frame: Frame,
    node_id: NodeId,
    socket_index: nat,
    host_rect: Option<Rect>,
    layout: SocketLayout,
)
    requires
        !frame.node_widgets.contains_key(node_id) || host_rect.is_none(),
    ensures
        edge_end(frame, node_id, socket_index, host_rect, layout) == baseline(
            frame.nodes,
            node_id,
        ),
{
}

/// Whether the event tells of a drag of the given node.
pub open spec fn is_drag_of(event: Event, node_id: NodeId) -> bool {
    match event {
        Event::Node(NodeEvent::Dragged { node_id: dragged, .. }) => dragged == node_id,
        _ => false,
    }
}

/// How many of the events tell of a drag of the given node.
pub open spec fn count_drags_of(events: Seq<Event>, node_id: NodeId) -> nat
    decreases events.len(),
{
    if events.len() == 0 {
        0
    } else {
        count_drags_of(events.drop_last(), node_id) + if is_drag_of(events.last(), node_id) {
            1nat
        } else {
            0nat
        }
    }
}

/// How often the node occurs among the nodes.
pub open spec fn occurrences(node_ids: Seq<NodeId>, node_id: NodeId) -> nat
    decreases node_ids.len(),
{
    if node_ids.len() == 0 {
        0
    } else {
        occurrences(node_ids.drop_last(), node_id) + if node_ids.last() == node_id {
            1nat
        } else {
            0nat
        }
    }
}

/// The first `i + 1` elements hold what the first `i` hold, and the element at `i`.
pub proof fn lemma_take_contains(s: Seq<NodeId>, i: int, id: NodeId)
    requires
        0 <= i < s.len(),
    ensures
        s.take(i + 1).contains(id) <==> s.take(i).contains(id) || s[i] == id,
{
    let shorter = s.take(i);
    let longer = s.take(i + 1);
    if longer.contains(id) {
        let j = choose|j: int| 0 <= j < longer.len() && longer[j] == id;
        if j < i {
            assert(shorter[j] == id);
        }
    }
    if shorter.contains(id) {
        let j = choose|j: int| 0 <= j < shorter.len() && shorter[j] == id;
        assert(longer[j] == id);
    }
    if s[i] == id {
        assert(longer[i] == id);
    }
}

/// A reconciliation leaves a state in which the nodes that have a position are exactly the
/// nodes of the graph, each at its resolved position.
pub proof fn lemma_reconciled_consistent(
    frame: Frame,
    node_ids: Seq<NodeId>,
    edges: Seq<(NodeSocket, NodeSocket)>,
    layout: Map<NodeId, Point>,
    drags: Map<NodeId, Point>,
)
    ensures
        reconciled(frame, node_ids, edges, layout, drags).consistent(),
        forall|i: int|
            0 <= i < node_ids.len() ==> {
                &&& reconciled(frame, node_ids, edges, layout, drags).nodes.contains_key(
                    #[trigger] node_ids[i],
                )
                &&& reconciled(frame, node_ids, edges, layout, drags).nodes[node_ids[i]]
                    == resolved(layout, frame.node_widgets, drags, node_ids[i])
            },
{
}

/// A reconciliation tells of the drag of a node once for every time the node occurs among
/// the nodes, and not at all if the node was not dragged.
pub proof fn lemma_drag_events_count(
    node_ids: Seq<NodeId>,
    layout: Map<NodeId, Point>,
    widgets: Map<NodeId, Id>,
    drags: Map<NodeId, Point>,
    node_id: NodeId,
)
    ensures
        count_drags_of(drag_events(node_ids, layout, widgets, drags), node_id) == if is_dragged(
            widgets,
            drags,
            node_id,
        ) {
            occurrences(node_ids, node_id)
        } else {
            0
        },
    decreases node_ids.len(),
{
    if node_ids.len() > 0 {
        lemma_drag_events_count(node_ids.drop_last(), layout, widgets, drags, node_id);
        let earlier = drag_events(node_ids.drop_last(), layout, widgets, drags);
        if is_dragged(widgets, drags, node_ids.last()) {
            let event = dragged_event(layout, drags, node_ids.last());
            assert(earlier.push(event).drop_last() =~= earlier);
        }
    }
}

/// Every event that a reconciliation adds tells of the drag of one of its nodes, from where
/// the layout puts the node to where the drag moves it.
pub proof fn lemma_drag_events_are_drags(
    node_ids: Seq<NodeId>,
    layout: Map<NodeId, Point>,
    widgets: Map<NodeId, Id>,
    drags: Map<NodeId, Point>,
    k: int,
)
    requires
        0 <= k < drag_events(node_ids, layout, widgets, drags).len(),
    ensures
        exists|i: int|
            0 <= i < node_ids.len() && is_dragged(widgets, drags, #[trigger] node_ids[i])
                && drag_events(node_ids, layout, widgets, drags)[k] == dragged_event(
                layout,
                drags,
                node_ids[i],
            ),
    decreases node_ids.len(),
{
    let earlier = drag_events(node_ids.drop_last(), layout, widgets, drags);
    if k < earlier.len() {
        lemma_drag_events_are_drags(node_ids.drop_last(), layout, widgets, drags, k);
        let i = choose|i: int|
            0 <= i < node_ids.drop_last().len() && is_dragged(
                widgets,
                drags,
                #[trigger] node_ids.drop_last()[i],
            ) && earlier[k] == dragged_event(layout, drags, node_ids.drop_last()[i]);
        assert(node_ids[i] == node_ids.drop_last()[i]);
    } else {
        assert(node_ids[node_ids.len() - 1] == node_ids.last());
    }
}

/// A node that occurs once among the nodes occurs once.
pub proof fn lemma_occurs_once(node_ids: Seq<NodeId>, node_id: NodeId)
    requires
        node_ids.no_duplicates(),
        node_ids.contains(node_id),
    ensures
        occurrences(node_ids, node_id) == 1,
    decreases node_ids.len(),
{
    let last = node_ids.len() - 1;
    let front = node_ids.drop_last();
    assert(front.no_duplicates());
    if node_ids.last() == node_id {
        if front.contains(node_id) {
            let j = choose|j: int| 0 <= j < front.len() && front[j] == node_id;
            assert(node_ids[j] == node_ids[last]);
        }
        lemma_occurs_never(front, node_id);
    } else {
        let j = choose|j: int| 0 <= j < node_ids.len() && node_ids[j] == node_id;
        assert(front[j] == node_id);
        lemma_occurs_once(front, node_id);
    }
}

/// A node that is not among the nodes occurs there no times.
pub proof fn lemma_occurs_never(node_ids: Seq<NodeId>, node_id: NodeId)
    requires
        !node_ids.contains(node_id),
    ensures
        occurrences(node_ids, node_id) == 0,
    decreases node_ids.len(),
{
    if node_ids.len() > 0 {
        let last = node_ids.len() - 1;
        assert(node_ids[last] != node_id);
        let front = node_ids.drop_last();
        if front.contains(node_id) {
            let j = choose|j: int| 0 <= j < front.len() && front[j] == node_id;
            assert(node_ids[j] == node_id);
        }
        lemma_occurs_never(front, node_id);
    }
}

/// The round trip of a drag. Take a graph in which every node occurs once, and in it a node
/// that had a widget in the last frame and that the layout puts at `from`. If the host
/// reports that the widget was dragged by a displacement other than zero, and the sums stay
/// in the range of a scalar, then the reconciliation adds exactly one event about a drag of
/// that node, which leads from `from` to `from` plus the displacement, and the node is at
/// that sum in this frame.
pub proof fn lemma_drag_round_trip(
    frame: Frame,
    node_ids: Seq<NodeId>,
    edges: Seq<(NodeSocket, NodeSocket)>,
    layout: Map<NodeId, Point>,
    drags: Map<NodeId, Point>,
    node_id: NodeId,
)
    requires
        node_ids.no_duplicates(),
        node_ids.contains(node_id),
        frame.node_widgets.contains_key(node_id),
        delta(drags, node_id) != (Point { x: 0, y: 0 }),
        i64::MIN <= baseline(layout, node_id).x + delta(drags, node_id).x <= i64::MAX,
        i64::MIN <= baseline(layout, node_id).y + delta(drags, node_id).y <= i64::MAX,
    ensures
        ({
            let from = baseline(layout, node_id);
            let to = Point {
                x: (from.x + delta(drags, node_id).x) as i64,
                y: (from.y + delta(drags, node_id).y) as i64,
            };
            let added = drag_events(node_ids, layout, frame.node_widgets, drags);
            let after = reconciled(frame, node_ids, edges, layout, drags);
            &&& count_drags_of(added, node_id) == 1
            &&& added.contains(Event::Node(NodeEvent::Dragged { node_id, from, to }))
            &&& forall|k: int|
                0 <= k < added.len() && is_drag_of(#[trigger] added[k], node_id) ==> added[k]
                    == Event::Node(NodeEvent::Dragged { node_id, from, to })
            &&& after.events == frame.events + added
            &&& after.nodes.contains_key(node_id)
            &&& after.nodes[node_id] == to
        }),
{
    let widgets = frame.node_widgets;
    let added = drag_events(node_ids, layout, widgets, drags);
    let from = baseline(layout, node_id);
    let to = Point {
        x: (from.x + delta(drags, node_id).x) as i64,
        y: (from.y + delta(drags, node_id).y) as i64,
    };
    let event = Event::Node(NodeEvent::Dragged { node_id, from, to });
    crate::geometry::lemma_moved_is_sum(from, delta(drags, node_id));
    assert(dragged_event(layout, drags, node_id) == event);
    lemma_drag_events_count(node_ids, layout, widgets, drags, node_id);
    lemma_occurs_once(node_ids, node_id);
    assert forall|k: int|
        0 <= k < added.len() && is_drag_of(#[trigger] added[k], node_id) implies added[k]
        == event by {
        lemma_drag_events_are_drags(node_ids, layout, widgets, drags, k);
    }
    lemma_counted_is_there(added, node_id);
}

/// Where the count of drags of a node is not zero, one of the events tells of such a drag.
pub proof fn lemma_counted_is_there(events: Seq<Event>, node_id: NodeId)
    requires
        count_drags_of(events, node_id) > 0,
    ensures
        exists|k: int| 0 <= k < events.len() && is_drag_of(#[trigger] events[k], node_id),
    decreases events.len(),
{
    if is_drag_of(events.last(), node_id) {
        assert(is_drag_of(events[events.len() - 1], node_id));
    } else {
        lemma_counted_is_there(events.drop_last(), node_id);
        let k = choose|k: int|
            0 <= k < events.drop_last().len() && is_drag_of(
                #[trigger] events.drop_last()[k],
                node_id,
            );
        assert(events[k] == events.drop_last()[k]);
    }
}

/// A node that was not dragged stays where the layout puts it, and no event tells of it.
pub proof fn lemma_no_drag_no_event(
    frame: Frame,
    node_ids: Seq<NodeId>,
    edges: Seq<(NodeSocket, NodeSocket)>,
    layout: Map<NodeId, Point>,
    drags: Map<NodeId, Point>,
    node_id: NodeId,
)
    requires
        node_ids.contains(node_id),
        !is_dragged(frame.node_widgets, drags, node_id),
    ensures
        count_drags_of(drag_events(node_ids, layout, frame.node_widgets, drags), node_id) == 0,
        reconciled(frame, node_ids, edges, layout, drags).nodes[node_id] == baseline(
            layout,
            node_id,
        ),
{
    lemma_drag_events_count(node_ids, layout, frame.node_widgets, drags, node_id);
}

} // verus!
