//! The state that the graph keeps from frame to frame, and the reconciliation that brings it
//! up to date at the start of every frame.

use vstd::prelude::*;
use conrod::widget::Id;
use conrod::UiCell;
use std::any::TypeId;
use std::collections::{HashMap, VecDeque};
use crate::diff::update_retained;
use crate::event::{Event, NodeEvent, NodeId, NodeSocket};
use crate::geometry::{Point, Rect};
use crate::host::host_graph_size;
use crate::layout::Layout;
use crate::pool::WidgetIdMap;
use crate::reconcile::{
    baseline, delta, drag_events, lemma_take_contains, node_rect, reconciled, resolved, Frame,
};
use crate::slots::slots_of;

verus! {

broadcast use vstd::std_specs::hash::group_hash_axioms;

/// What the host reports of the pointer: for each node whose widget was dragged with the left
/// button since the last frame, the displacements of all those drags summed up.
pub struct Drags {
    map: HashMap<NodeId, Point>,
}

impl View for Drags {
    type V = Map<NodeId, Point>;

    closed spec fn view(&self) -> Map<NodeId, Point> {
        self.map@
    }
}

impl Drags {
    /// A report of no drag at all.
    pub fn new() -> (drags: Drags)
        ensures
            drags@ == Map::<NodeId, Point>::empty(),
    {
        Drags { map: HashMap::new() }
    }

    /// Records how far the widget of the given node was dragged, in place of what was recorded
    /// for the node before.
    pub fn insert(&mut self, node_id: NodeId, by: Point)
        ensures
            final(self)@ == old(self)@.insert(node_id, by),
    {
        self.map.insert(node_id, by);
    }

    /// How far the widget of the given node was dragged: not at all where nothing was recorded.
    pub fn delta_of(&self, node_id: NodeId) -> (by: Point)
        ensures
            by == delta(self@, node_id),
    {
        match self.map.get(&node_id) {
            Some(by) => *by,
            None => Point::origin(),
        }
    }
}

// Node data stored within the shared state.
#[derive(Copy, Clone)]
struct NodeInner {
    point: Point,
}

/// State shared between the graph and the session that it hands to its caller.
pub struct Shared {
    // A queue of events collected during the update so that they may be emitted during
    // `SessionEvents`.
    events: VecDeque<Event>,
    // A mapping from node IDs to their data.
    nodes: HashMap<NodeId, NodeInner>,
    // A list of indices, one for each node in the graph.
    node_ids: Vec<NodeId>,
    // A list of all edges where (a, b) represents the directed edge a -> b.
    edges: Vec<(NodeSocket, NodeSocket)>,
    // A map from type identifiers to available `widget::Id`s for those types.
    widget_id_map: WidgetIdMap,
}

impl View for Shared {
    type V = Frame;

    closed spec fn view(&self) -> Frame {
        Frame {
            events: self.events@,
            node_ids: self.node_ids@,
            edges: self.edges@,
            nodes: Map::new(
                |id: NodeId| self.nodes@.contains_key(id),
                |id: NodeId| self.nodes@[id].point,
            ),
            pool: self.widget_id_map.pool(),
            node_widgets: self.widget_id_map.node_widgets(),
        }
    }
}

impl Shared {
    /// The pool is well-formed, and the nodes that have a position are exactly the nodes of
    /// the graph.
    pub closed spec fn wf(self) -> bool {
        &&& self.widget_id_map.wf()
        &&& self@.consistent()
    }

    /// In a well-formed state every node of the graph has a position, and every cursor of the
    /// pool is within its list.
    pub proof fn lemma_wf(self)
        requires
            self.wf(),
        ensures
            self@.consistent(),
            crate::slots::pool_wf(self@.pool),
    {
        self.widget_id_map.lemma_wf_pool();
    }

    /// The state of a graph that has not been updated yet: no node, no edge, no event, no
    /// identifier.
    pub fn new() -> (shared: Shared)
        ensures
            shared.wf(),
            shared@ == Frame::empty(),
    {
        let shared = Shared {
            events: VecDeque::new(),
            nodes: HashMap::new(),
            node_ids: Vec::new(),
            edges: Vec::new(),
            widget_id_map: WidgetIdMap::new(),
        };
        assert(shared@.nodes =~= Map::<NodeId, Point>::empty());
        shared
    }

    /// Brings the state up to date with the graph that the caller describes in this frame.
    ///
    /// The cursors of the identifier pool go back to zero. The retained nodes and edges are
    /// compared with the new ones from the start: what they have in common is kept, the rest is
    /// replaced. Then every node is placed: where the layout says, or at the centre of the graph
    /// if the layout does not know the node. A node that had a widget in the last frame and
    /// whose widget was dragged is moved by the drag, and an event in the queue tells the
    /// caller from where to where. At the end the mappings from nodes to widgets are cleared,
    /// to be made anew when the nodes are drawn.
    pub fn reconcile(
        &mut self,
        nodes: &Vec<NodeId>,
        edges: &Vec<(NodeSocket, NodeSocket)>,
        layout: &Layout,
        drags: &Drags,
    )
        requires
            old(self).wf(),
        ensures
            final(self).wf(),
            final(self)@ == reconciled(old(self)@, nodes@, edges@, layout@, drags@),
    {
        // Reset the WidgetIdMap indices.
        self.widget_id_map.reset_indices();

        // Compare the existing node indices and edges with the new ones.
        update_retained(&mut self.node_ids, nodes);
        update_retained(&mut self.edges, edges);

        // Use `node_ids` to fill `nodes`.
        self.nodes.clear();
        let ghost widgets = old(self)@.node_widgets;
        let ghost pool = self.widget_id_map.pool();
        let n: usize = self.node_ids.len();
        let mut i: usize = 0;
        while i < n
            invariant
                i <= n,
                n == nodes@.len(),
                self.node_ids@ == nodes@,
                self.edges@ == edges@,
                self.widget_id_map.wf(),
                self.widget_id_map.pool() == pool,
                self.widget_id_map.node_widgets() == widgets,
                forall|id: NodeId|
                    self.nodes@.contains_key(id) <==> nodes@.take(i as int).contains(id),
                forall|id: NodeId| #[trigger]
                    self.nodes@.contains_key(id) ==> self.nodes@[id].point == resolved(
                        layout@,
                        widgets,
                        drags@,
                        id,
                    ),
                self.events@ == old(self).events@ + drag_events(
                    nodes@.take(i as int),
                    layout@,
                    widgets,
                    drags@,
                ),
            decreases n - i,
        {
            // Retrieve the node ID.
            let node_id = self.node_ids[i];

            // Get the node position, falling back to the centre if none was given.
            let point = layout.point_or_origin(node_id);

            // Check to see if this widget has been dragged since the last update.
            let point = match self.widget_id_map.node_widget_id(node_id) {
                None => point,
                Some(_) => {
                    let dragged = drags.delta_of(node_id);
                    // If dragging would not move the widget, we're done.
                    if dragged.is_zero() {
                        point
                    } else {
                        let to = point.moved_by(dragged);
                        let node_event = NodeEvent::Dragged { node_id, from: point, to };
                        self.events.push_back(Event::Node(node_event));
                        to
                    }
                },
            };
            proof {
                let upto = nodes@.take(i + 1);
                assert(upto.drop_last() =~= nodes@.take(i as int));
                assert(upto.last() == node_id);
                assert forall|id: NodeId|
                    (self.nodes@.contains_key(id) || id == node_id) <==> upto.contains(id) by {
                    lemma_take_contains(nodes@, i as int, id);
                }
            }
            self.nodes.insert(node_id, NodeInner { point });
            i = i + 1;
        }

        // Clear the old node->widget mappings ready for node instantiation.
        self.widget_id_map.clear_node_mappings();
        proof {
            assert(nodes@.take(n as int) =~= nodes@);
            let target = reconciled(old(self)@, nodes@, edges@, layout@, drags@);
            assert(self@.nodes =~= target.nodes);
            assert(self@.events =~= target.events);
            crate::reconcile::lemma_reconciled_consistent(
                old(self)@,
                nodes@,
                edges@,
                layout@,
                drags@,
            );
        }
    }

    /// Takes the oldest event out of the queue, if there is one.
    pub fn pop_event(&mut self) -> (event: Option<Event>)
        ensures
            old(self).wf() ==> final(self).wf(),
            match event {
                Some(e) => {
                    &&& old(self)@.events.len() > 0
                    &&& e == old(self)@.events[0]
                    &&& final(self)@ == (Frame { events: old(self)@.events.skip(1), ..old(self)@ })
                },
                None => {
                    &&& old(self)@.events.len() == 0
                    &&& final(self)@ == old(self)@
                },
            },
    {
        let event = self.events.pop_front();
        proof {
            if event.is_some() {
                assert(self.events@ =~= old(self).events@.skip(1));
            }
        }
        event
    }

    /// The number of events that wait in the queue.
    pub fn pending_events(&self) -> (len: usize)
        ensures
            len == self@.events.len(),
    {
        self.events.len()
    }

    /// The nodes of the graph as the last reconciliation found them.
    pub fn node_ids(&self) -> (node_ids: &Vec<NodeId>)
        ensures
            node_ids@ == self@.node_ids,
    {
        &self.node_ids
    }

    /// The edges of the graph as the last reconciliation found them.
    pub fn edges(&self) -> (edges: &Vec<(NodeSocket, NodeSocket)>)
        ensures
            edges@ == self@.edges,
    {
        &self.edges
    }

    /// Where the given node is in this frame, if it is a node of the graph.
    pub fn node_point(&self, node_id: NodeId) -> (point: Option<Point>)
        ensures
            point == if self@.nodes.contains_key(node_id) {
                Some(self@.nodes[node_id])
            } else {
                None
            },
    {
        match self.nodes.get(&node_id) {
            Some(inner) => Some(inner.point),
            None => None,
        }
    }

    /// The widget that stands for the given node, if the node has been drawn in this frame.
    pub fn node_widget_id(&self, node_id: NodeId) -> (widget_id: Option<Id>)
        ensures
            widget_id == if self@.node_widgets.contains_key(node_id) {
                Some(self@.node_widgets[node_id])
            } else {
                None
            },
    {
        self.widget_id_map.node_widget_id(node_id)
    }

    /// The node at the given position among the nodes of the graph, and where it is.
    pub fn node_at(&self, index: usize) -> (node: Option<(NodeId, Point)>)
        ensures
            node == if index < self@.node_ids.len() && self@.nodes.contains_key(
                self@.node_ids[index as int],
            ) {
                Some((self@.node_ids[index as int], self@.nodes[self@.node_ids[index as int]]))
            } else {
                None
            },
            self.wf() && index < self@.node_ids.len() ==> node.is_some(),
    {
        if index < self.node_ids.len() {
            let id = self.node_ids[index];
            proof {
                if self.wf() {
                    assert(self@.node_ids.contains(id));
                    assert(self@.nodes.contains_key(id));
                }
            }
            match self.nodes.get(&id) {
                Some(inner) => Some((id, inner.point)),
                None => None,
            }
        } else {
            None
        }
    }

    /// The edge at the given position among the edges of the graph.
    pub fn edge_at(&self, index: usize) -> (edge: Option<(NodeSocket, NodeSocket)>)
        ensures
            edge == if index < self@.edges.len() {
                Some(self@.edges[index as int])
            } else {
                None
            },
    {
        if index < self.edges.len() {
            Some(self.edges[index])
        } else {
            None
        }
    }

    /// Where the given node is in this frame, or the centre of the graph for a node that the
    /// graph does not have.
    pub fn node_position(&self, node_id: NodeId) -> (xy: Point)
        ensures
            xy == baseline(self@.nodes, node_id),
    {
        match self.nodes.get(&node_id) {
            Some(inner) => inner.point,
            None => Point::origin(),
        }
    }

    /// Get the bounding widget rectangle for the node associated with the given ID.
    ///
    /// `host_rect` is what the host knows of the rectangle of the node's widget. It counts
    /// only where the node has been drawn in this frame. Otherwise, and where the host knows
    /// nothing, the rectangle is the zero-size one at the node's position, or at the centre of
    /// the graph for a node that the graph does not have.
    pub fn node_rect(&self, node_id: NodeId, host_rect: Option<Rect>) -> (rect: Rect)
        ensures
            rect == node_rect(self@, node_id, host_rect),
    {
        let drawn = self.widget_id_map.node_widget_id(node_id);
        match (drawn, host_rect) {
            (Some(_), Some(rect)) => rect,
            _ => Rect::at_point(self.node_position(node_id)),
        }
    }

    /// Whether the next request for a widget of the given type is served by an identifier
    /// issued in an earlier frame, so that the host need not be asked.
    pub fn has_spare(&self, type_id: TypeId) -> (spare: bool)
        requires
            self.wf(),
        ensures
            spare == slots_of(self@.pool, type_id).recycles(),
    {
        self.widget_id_map.has_spare(type_id)
    }

    /// Return the next `widget::Id` for a widget of the given type, and remember it as the
    /// widget of the given node.
    pub fn next_id_for_node(
        &mut self,
        type_id: TypeId,
        node_id: NodeId,
        ui: &mut UiCell,
    ) -> (id: Id)
        requires
            old(self).wf(),
            slots_of(old(self)@.pool, type_id).recycles() || host_graph_size(old(ui))
                < u32::MAX,
        ensures
            final(self).wf(),
            slots_of(old(self)@.pool, type_id).accepts(id),
            slots_of(old(self)@.pool, type_id).from_host(id, host_graph_size(old(ui))),
            final(self)@ == old(self)@.with_node_widget(type_id, node_id, id),
            host_graph_size(final(ui)) == host_graph_size(old(ui)) + slots_of(
                old(self)@.pool,
                type_id,
            ).asked_of_host(),
    {
        let id = self.widget_id_map.next_id_for_node(type_id, node_id, ui);
        assert(self@.nodes == old(self)@.nodes && self@.node_ids == old(self)@.node_ids);
        id
    }

    /// Return the next `widget::Id` for a widget of the given type, to stand for an edge.
    pub fn next_id_for_edge(&mut self, type_id: TypeId, ui: &mut UiCell) -> (id: Id)
        requires
            old(self).wf(),
            slots_of(old(self)@.pool, type_id).recycles() || host_graph_size(old(ui))
                < u32::MAX,
        ensures
            final(self).wf(),
            slots_of(old(self)@.pool, type_id).accepts(id),
            slots_of(old(self)@.pool, type_id).from_host(id, host_graph_size(old(ui))),
            final(self)@ == old(self)@.with_edge_widget(type_id, id),
            host_graph_size(final(ui)) == host_graph_size(old(ui)) + slots_of(
                old(self)@.pool,
                type_id,
            ).asked_of_host(),
    {
        let id = self.widget_id_map.next_id_for_edge(type_id, ui);
        assert(self@.nodes == old(self)@.nodes && self@.node_ids == old(self)@.node_ids);
        id
    }
}

} // verus!
