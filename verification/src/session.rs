//! The session: the three stages through which the caller draws the graph in every frame.
//!
//! 1. `SessionEvents`: hand out all graph events that have occurred since the last frame.
//! 2. `SessionNodes`: draw a widget for every node of the graph.
//! 3. `SessionEdges`: draw a widget for every edge of the graph.
//!
//! Each stage is reached from the one before it by a call that consumes that stage, so the
//! stages can only be gone through in this order, and none of them twice. A stage is made by
//! the update of the graph and in no other way, and what is taken from a stage, a cursor, a
//! node or an edge, cannot outlive it. A stage keeps no hold on the shared state: the caller
//! lends the state to each call that reads or changes it.

use vstd::prelude::*;
use conrod::widget::Id;
use conrod::UiCell;
use std::any::TypeId;
use std::marker::PhantomData;
use crate::event::{Event, NodeId, NodeSocket};
use crate::geometry::{socket_point, Point, Rect, SocketLayouts};
use crate::host::{graph_size, host_graph_size};
use crate::reconcile::{edge_end, Frame};
use crate::shared::Shared;
use crate::slots::slots_of;

verus! {

/// A context for moving through the stages of drawing the graph in a type-safe manner.
pub struct Session {
    // The unique identifier used to instantiate the graph widget.
    graph_id: Id,
    // How to layout the node sockets if the user does not specify them manually.
    socket_layouts: SocketLayouts,
}

impl Session {
    // The session of one frame of the graph widget with the given identifier.
    pub(crate) fn new(graph_id: Id, socket_layouts: SocketLayouts) -> (session: Session)
        ensures
            session.graph_id() == graph_id,
            session.socket_layouts() == socket_layouts,
    {
        Session { graph_id, socket_layouts }
    }

    /// The identifier of the graph widget.
    pub closed spec fn graph_id(self) -> Id {
        self.graph_id
    }

    /// How the sockets of a node are laid out unless the caller places them.
    pub closed spec fn socket_layouts(self) -> SocketLayouts {
        self.socket_layouts
    }
}

/// The first stage of the graph's session.
pub struct SessionEvents {
    session: Session,
}

/// The second stage of the graph's session.
pub struct SessionNodes {
    session: Session,
}

/// The third stage of the graph's session.
pub struct SessionEdges {
    session: Session,
}

/// Yields all pending events, each of them once.
pub struct Events<'a> {
    // Binds the cursor to the stage that it was taken from.
    lifetime: PhantomData<&'a ()>,
}

/// Yields a `Node` for every node in the graph.
///
/// Each `Node` can be used for instantiating a widget for each node in the graph.
pub struct Nodes<'a> {
    // Index into the `node_ids`, indicating which node we're up to.
    index: usize,
    // The `widget::Id` of the parent graph widget.
    graph_id: Id,
    // Binds the value to the stage that it was taken from.
    lifetime: PhantomData<&'a ()>,
}

/// A context for a node yielded during the node instantiation stage.
///
/// This type can be used to:
///
/// 1. Get the position of the node via `point()`.
/// 2. Get the ID for this node via `node_id()`.
/// 3. Convert into a `NodeWidget` ready for instantiation via `widget(type_id)`.
#[derive(Copy, Clone)]
pub struct Node<'a> {
    node_id: NodeId,
    point: Point,
    // The `widget::Id` of the `Node`'s parent graph widget.
    graph_id: Id,
    // Binds the value to the stage that it was taken from.
    lifetime: PhantomData<&'a ()>,
}

/// Returned when a `Node` is assigned a widget.
///
/// This intermediary type allows for accessing the `widget::Id` before the widget itself is
/// instantiated.
pub struct NodeWidget<'a> {
    node: Node<'a>,
    // The type of the widget that is to stand for the node.
    type_id: TypeId,
    // `None` if not yet requested from the `WidgetIdMap`. `Some` if it has.
    widget_id: Option<Id>,
    // Binds the value to the stage that it was taken from.
    lifetime: PhantomData<&'a ()>,
}

/// Yields an `Edge` for every edge in the graph.
///
/// Each `Edge` can be used for instantiating a widget for each edge in the graph.
pub struct Edges<'a> {
    // The index into the edges of the shared state of the next `Edge` that is to be yielded.
    index: usize,
    // The `widget::Id` of the parent graph widget.
    graph_id: Id,
    // How to layout the node sockets if the user does not specify them manually.
    socket_layouts: SocketLayouts,
    // Binds the value to the stage that it was taken from.
    lifetime: PhantomData<&'a ()>,
}

/// A context for an edge yielded during the edge instantiation stage.
#[derive(Copy, Clone)]
pub struct Edge<'a> {
    // The `widget::Id` of the `Edge`'s parent graph widget.
    graph_id: Id,
    // How to layout the node sockets if the user does not specify them manually.
    socket_layouts: SocketLayouts,
    // The start of the edge.
    start: NodeSocket,
    // The end of the edge.
    end: NodeSocket,
    // Binds the value to the stage that it was taken from.
    lifetime: PhantomData<&'a ()>,
}

/// Returned when an `Edge` is assigned a widget.
///
/// This intermediary type allows for accessing the `widget::Id` before the widget itself is
/// instantiated.
pub struct EdgeWidget<'a> {
    edge: Edge<'a>,
    // The type of the widget that is to stand for the edge.
    type_id: TypeId,
    // `None` if not yet requested from the `WidgetIdMap`. `Some` if it has.
    widget_id: Option<Id>,
    // Binds the value to the stage that it was taken from.
    lifetime: PhantomData<&'a ()>,
}

impl SessionEvents {
    // The first stage of the given session.
    pub(crate) fn new(session: Session) -> (stage: SessionEvents)
        ensures
            stage.session() == session,
    {
        SessionEvents { session }
    }

    /// The session that this stage belongs to.
    pub closed spec fn session(self) -> Session {
        self.session
    }

    /// All events that have occurred since the last frame.
    pub fn events(&self) -> (events: Events<'_>) {
        Events { lifetime: PhantomData }
    }

    /// Transition from the **SessionEvents** into **SessionNodes** for instantiating nodes.
    pub fn next(self) -> (stage: SessionNodes)
        ensures
            stage.session() == self.session(),
    {
        let SessionEvents { session } = self;
        SessionNodes { session }
    }
}

impl<'a> Events<'a> {
    /// Takes the oldest pending event out of the queue: every event is handed out once, in
    /// the order in which the events occurred, and once the queue is empty nothing comes any
    /// more.
    pub fn next(&mut self, shared: &mut Shared) -> (event: Option<Event>)
        ensures
            old(shared).wf() ==> final(shared).wf(),
            match event {
                Some(e) => {
                    &&& old(shared)@.events.len() > 0
                    &&& e == old(shared)@.events[0]
                    &&& final(shared)@ == (Frame {
                        events: old(shared)@.events.skip(1),
                        ..old(shared)@
                    })
                },
                None => {
                    &&& old(shared)@.events.len() == 0
                    &&& final(shared)@ == old(shared)@
                },
            },
    {
        shared.pop_event()
    }
}

impl SessionNodes {
    /// The session that this stage belongs to.
    pub closed spec fn session(self) -> Session {
        self.session
    }

    /// Produce a cursor yielding a `Node` for each node present in the graph.
    pub fn nodes(&mut self) -> (nodes: Nodes<'_>)
        ensures
            final(self).session() == old(self).session(),
            nodes.position() == 0,
            nodes.graph_id() == old(self).session().graph_id(),
    {
        let graph_id = self.session.graph_id;
        Nodes { index: 0, graph_id, lifetime: PhantomData }
    }

    /// Transition from the **SessionNodes** into **SessionEdges** for instantiating edges.
    pub fn next(self) -> (stage: SessionEdges)
        ensures
            stage.session() == self.session(),
    {
        let SessionNodes { session } = self;
        SessionEdges { session }
    }
}

impl<'a> Nodes<'a> {
    /// How many of the nodes have been gone past.
    pub closed spec fn position(self) -> nat {
        self.index as nat
    }

    /// The identifier of the graph widget.
    pub closed spec fn graph_id(self) -> Id {
        self.graph_id
    }

    /// The next node of the graph with its position in this frame, until there is none left.
    ///
    /// In a well-formed state every node of the graph is yielded, in the order of the nodes.
    pub fn next(&mut self, shared: &Shared) -> (node: Option<Node<'a>>)
        ensures
            final(self).graph_id() == old(self).graph_id(),
            final(self).position() == if old(self).position() < shared@.node_ids.len() {
                old(self).position() + 1
            } else {
                old(self).position()
            },
            node.is_some() <==> old(self).position() < shared@.node_ids.len()
                && shared@.nodes.contains_key(shared@.node_ids[old(self).position() as int]),
            node matches Some(n) ==> {
                &&& n.node_id() == shared@.node_ids[old(self).position() as int]
                &&& n.point() == shared@.nodes[n.node_id()]
                &&& n.graph_id() == old(self).graph_id()
            },
            shared.wf() && old(self).position() < shared@.node_ids.len() ==> node.is_some(),
    {
        let index = self.index;
        if index < shared.node_ids().len() {
            self.index = index + 1;
        }
        match shared.node_at(index) {
            Some((node_id, point)) => Some(
                Node { node_id, point, graph_id: self.graph_id, lifetime: PhantomData },
            ),
            None => None,
        }
    }
}

impl SessionEdges {
    /// The session that this stage belongs to.
    pub closed spec fn session(self) -> Session {
        self.session
    }

    /// Produce a cursor yielding an `Edge` for each edge present in the graph.
    pub fn edges(&mut self) -> (edges: Edges<'_>)
        ensures
            final(self).session() == old(self).session(),
            edges.position() == 0,
            edges.graph_id() == old(self).session().graph_id(),
            edges.socket_layouts() == old(self).session().socket_layouts(),
    {
        let graph_id = self.session.graph_id;
        let socket_layouts = self.session.socket_layouts;
        Edges { index: 0, graph_id, socket_layouts, lifetime: PhantomData }
    }
}

impl<'a> Edges<'a> {
    /// How many of the edges have been gone past.
    pub closed spec fn position(self) -> nat {
        self.index as nat
    }

    /// The identifier of the graph widget.
    pub closed spec fn graph_id(self) -> Id {
        self.graph_id
    }

    /// How the sockets of a node are laid out unless the caller places them.
    pub closed spec fn socket_layouts(self) -> SocketLayouts {
        self.socket_layouts
    }

    /// The next edge of the graph, until there is none left.
    pub fn next(&mut self, shared: &Shared) -> (edge: Option<Edge<'a>>)
        ensures
            final(self).graph_id() == old(self).graph_id(),
            final(self).socket_layouts() == old(self).socket_layouts(),
            final(self).position() == if old(self).position() < shared@.edges.len() {
                old(self).position() + 1
            } else {
                old(self).position()
            },
            edge.is_some() <==> old(self).position() < shared@.edges.len(),
            edge matches Some(e) ==> {
                &&& e.start() == shared@.edges[old(self).position() as int].0
                &&& e.end() == shared@.edges[old(self).position() as int].1
                &&& e.graph_id() == old(self).graph_id()
                &&& e.socket_layouts() == old(self).socket_layouts()
            },
    {
        let index = self.index;
        if index < shared.edges().len() {
            self.index = index + 1;
        }
        match shared.edge_at(index) {
            Some((start, end)) => Some(
                Edge {
                    graph_id: self.graph_id,
                    socket_layouts: self.socket_layouts,
                    start,
                    end,
                    lifetime: PhantomData,
                },
            ),
            None => None,
        }
    }
}

impl<'a> Node<'a> {
    pub closed spec fn spec_node_id(&self) -> NodeId {
        self.node_id
    }

    /// The unique identifier associated with this node.
    #[verifier::when_used_as_spec(spec_node_id)]
    pub fn node_id(&self) -> (node_id: NodeId)
        ensures
            node_id == self.node_id(),
    {
        self.node_id
    }

    pub closed spec fn spec_point(&self) -> Point {
        self.point
    }

    /// The location of the node.
    #[verifier::when_used_as_spec(spec_point)]
    pub fn point(&self) -> (point: Point)
        ensures
            point == self.point(),
    {
        self.point
    }

    pub closed spec fn spec_graph_id(&self) -> Id {
        self.graph_id
    }

    /// The identifier of the graph widget, to which the node's widget belongs and relative to
    /// which it is placed.
    #[verifier::when_used_as_spec(spec_graph_id)]
    pub fn graph_id(&self) -> (graph_id: Id)
        ensures
            graph_id == self.graph_id(),
    {
        self.graph_id
    }

    /// Specify the type of widget to use for the node.
    pub fn widget(self, type_id: TypeId) -> (widget: NodeWidget<'a>)
        ensures
            widget.node() == self,
            widget.type_id() == type_id,
            widget.assigned().is_none(),
    {
        NodeWidget { node: self, type_id, widget_id: None, lifetime: PhantomData }
    }
}

impl<'a> NodeWidget<'a> {
    pub closed spec fn spec_node(&self) -> Node<'a> {
        self.node
    }

    /// The node that the widget is for.
    #[verifier::when_used_as_spec(spec_node)]
    pub fn node(&self) -> (node: Node<'a>)
        ensures
            node == self.node(),
    {
        self.node
    }

    pub closed spec fn spec_type_id(&self) -> TypeId {
        self.type_id
    }

    /// The type of the widget.
    #[verifier::when_used_as_spec(spec_type_id)]
    pub fn type_id(&self) -> (type_id: TypeId)
        ensures
            type_id == self.type_id(),
    {
        self.type_id
    }

    /// The identifier that the widget has been given, once it has asked for one.
    pub closed spec fn assigned(self) -> Option<Id> {
        self.widget_id
    }

    /// What asking for the widget's identifier comes to, where it is handed out.
    ///
    /// `id` is the identifier, `frame` and `size` are the shared state and the size of the
    /// host's widget graph before, `after`, `frame_after` and `size_after` are the widget, the
    /// state and the size afterwards. The first request takes the next identifier for the
    /// widget's type from the pool, which is a new one of the host's where the pool has none
    /// to spare, and puts it on record as the widget of the node. Every
    /// later request gets the same identifier and changes nothing.
    pub open spec fn hands_out(
        self,
        id: Id,
        frame: Frame,
        size: nat,
        after: NodeWidget<'a>,
        frame_after: Frame,
        size_after: nat,
    ) -> bool {
        &&& after.node() == self.node()
        &&& after.type_id() == self.type_id()
        &&& after.assigned() == Some(id)
        &&& match self.assigned() {
            Some(known) => {
                &&& id == known
                &&& frame_after == frame
                &&& size_after == size
            },
            None => {
                &&& slots_of(frame.pool, self.type_id()).accepts(id)
                &&& slots_of(frame.pool, self.type_id()).from_host(id, size)
                &&& frame_after == frame.with_node_widget(
                    self.type_id(),
                    self.node().node_id(),
                    id,
                )
                &&& size_after == size + slots_of(frame.pool, self.type_id()).asked_of_host()
            },
        }
    }

    /// Whether the widget can be given an identifier: it has one already, or the pool has one
    /// to spare for its type, or the host has room for one more.
    pub open spec fn can_be_assigned(self, frame: Frame, size: nat) -> bool {
        ||| self.assigned().is_some()
        ||| slots_of(frame.pool, self.type_id()).recycles()
        ||| size < u32::MAX
    }

    /// Retrieve the `widget::Id` that will be used to instantiate this node's widget.
    ///
    /// The first call takes the next identifier for the widget's type from the pool and
    /// records it as the widget of the node. Every later call returns the same identifier and
    /// changes nothing.
    pub fn widget_id(&mut self, shared: &mut Shared, ui: &mut UiCell) -> (id: Id)
        requires
            old(shared).wf(),
            old(self).can_be_assigned(old(shared)@, host_graph_size(old(ui))),
        ensures
            final(shared).wf(),
            old(self).hands_out(
                id,
                old(shared)@,
                host_graph_size(old(ui)),
                *final(self),
                final(shared)@,
                host_graph_size(final(ui)),
            ),
    {
        match self.widget_id {
            Some(id) => id,
            None => {
                // Request a `widget::Id` from the `WidgetIdMap`.
                let id = shared.next_id_for_node(self.type_id, self.node.node_id, ui);
                self.widget_id = Some(id);
                id
            },
        }
    }

    /// Retrieve the `widget::Id` that will be used to instantiate this node's widget, unless
    /// a new identifier is needed and the host has no room for one. In that case nothing
    /// changes.
    pub fn try_widget_id(&mut self, shared: &mut Shared, ui: &mut UiCell) -> (id: Option<Id>)
        requires
            old(shared).wf(),
        ensures
            final(shared).wf(),
            id.is_some() == old(self).can_be_assigned(old(shared)@, host_graph_size(old(ui))),
            match id {
                Some(id) => old(self).hands_out(
                    id,
                    old(shared)@,
                    host_graph_size(old(ui)),
                    *final(self),
                    final(shared)@,
                    host_graph_size(final(ui)),
                ),
                None => {
                    &&& *final(self) == *old(self)
                    &&& final(shared)@ == old(shared)@
                    &&& host_graph_size(final(ui)) == host_graph_size(old(ui))
                },
            },
    {
        if self.widget_id.is_some() || shared.has_spare(self.type_id) || graph_size(ui)
            < u32::MAX as usize {
            Some(self.widget_id(shared, ui))
        } else {
            None
        }
    }
}

impl<'a> Edge<'a> {
    pub closed spec fn spec_start(&self) -> NodeSocket {
        self.start
    }

    /// The start (or "input") for the edge.
    ///
    /// This is described via the node's `Id` and the position of its output socket.
    #[verifier::when_used_as_spec(spec_start)]
    pub fn start(&self) -> (start: NodeSocket)
        ensures
            start == self.start(),
    {
        self.start
    }

    pub closed spec fn spec_end(&self) -> NodeSocket {
        self.end
    }

    /// The end (or "output") for the edge.
    ///
    /// This is described via the node's `Id` and the position of its input socket.
    #[verifier::when_used_as_spec(spec_end)]
    pub fn end(&self) -> (end: NodeSocket)
        ensures
            end == self.end(),
    {
        self.end
    }

    /// The start and end sockets.
    pub fn sockets(&self) -> (sockets: (NodeSocket, NodeSocket))
        ensures
            sockets == (self.start(), self.end()),
    {
        (self.start, self.end)
    }

    pub closed spec fn spec_graph_id(&self) -> Id {
        self.graph_id
    }

    /// The identifier of the graph widget, to which the edge's widget belongs.
    #[verifier::when_used_as_spec(spec_graph_id)]
    pub fn graph_id(&self) -> (graph_id: Id)
        ensures
            graph_id == self.graph_id(),
    {
        self.graph_id
    }

    pub closed spec fn spec_socket_layouts(&self) -> SocketLayouts {
        self.socket_layouts
    }

    /// How the sockets of a node are laid out unless the caller places them.
    #[verifier::when_used_as_spec(spec_socket_layouts)]
    pub fn socket_layouts(&self) -> (socket_layouts: SocketLayouts)
        ensures
            socket_layouts == self.socket_layouts(),
    {
        self.socket_layouts
    }

    /// The two ends of the straight line that stands for the edge.
    ///
    /// The line leaves the start node at the output socket that the edge names and reaches
    /// the end node at the input socket that it names. `start_rect` and `end_rect` are the
    /// bounding rectangles that the host reports for the widgets of the two nodes. For a node
    /// that has not been drawn in this frame, or that the host does not know, or whose
    /// rectangle has no area, the line ends at the node's position.
    pub fn straight_line(
        &self,
        shared: &Shared,
        start_rect: Option<Rect>,
        end_rect: Option<Rect>,
    ) -> (line: (Point, Point))
        ensures
            line.0 == edge_end(
                shared@,
                self.start().id,
                self.start().socket_index as nat,
                start_rect,
                self.socket_layouts().output,
            ),
            line.1 == edge_end(
                shared@,
                self.end().id,
                self.end().socket_index as nat,
                end_rect,
                self.socket_layouts().input,
            ),
    {
        let output = self.socket_layouts.output;
        let input = self.socket_layouts.input;
        let start_rect = shared.node_rect(self.start.id, start_rect);
        let end_rect = shared.node_rect(self.end.id, end_rect);
        let start_at = shared.node_position(self.start.id);
        let end_at = shared.node_position(self.end.id);
        let start_xy = socket_point(self.start.socket_index, start_rect, start_at, &output);
        let end_xy = socket_point(self.end.socket_index, end_rect, end_at, &input);
        (start_xy, end_xy)
    }

    /// Specify the type of widget to use for the edge.
    pub fn widget(self, type_id: TypeId) -> (widget: EdgeWidget<'a>)
        ensures
            widget.edge() == self,
            widget.type_id() == type_id,
            widget.assigned().is_none(),
    {
        EdgeWidget { edge: self, type_id, widget_id: None, lifetime: PhantomData }
    }
}

impl<'a> EdgeWidget<'a> {
    pub closed spec fn spec_edge(&self) -> Edge<'a> {
        self.edge
    }

    /// The edge that the widget is for.
    #[verifier::when_used_as_spec(spec_edge)]
    pub fn edge(&self) -> (edge: Edge<'a>)
        ensures
            edge == self.edge(),
    {
        self.edge
    }

    pub closed spec fn spec_type_id(&self) -> TypeId {
        self.type_id
    }

    /// The type of the widget.
    #[verifier::when_used_as_spec(spec_type_id)]
    pub fn type_id(&self) -> (type_id: TypeId)
        ensures
            type_id == self.type_id(),
    {
        self.type_id
    }

    /// The identifier that the widget has been given, once it has asked for one.
    pub closed spec fn assigned(self) -> Option<Id> {
        self.widget_id
    }

    /// What asking for the widget's identifier comes to, where it is handed out.
    ///
    /// `id` is the identifier, `frame` and `size` are the shared state and the size of the
    /// host's widget graph before, `after`, `frame_after` and `size_after` are the widget, the
    /// state and the size afterwards. The first request takes the next identifier for the
    /// widget's type from the pool. Every later request gets the same identifier and changes
    /// nothing.
    pub open spec fn hands_out(
        self,
        id: Id,
        frame: Frame,
        size: nat,
        after: EdgeWidget<'a>,
        frame_after: Frame,
        size_after: nat,
    ) -> bool {
        &&& after.edge() == self.edge()
        &&& after.type_id() == self.type_id()
        &&& after.assigned() == Some(id)
        &&& match self.assigned() {
            Some(known) => {
                &&& id == known
                &&& frame_after == frame
                &&& size_after == size
            },
            None => {
                &&& slots_of(frame.pool, self.type_id()).accepts(id)
                &&& slots_of(frame.pool, self.type_id()).from_host(id, size)
                &&& frame_after == frame.with_edge_widget(self.type_id(), id)
                &&& size_after == size + slots_of(frame.pool, self.type_id()).asked_of_host()
            },
        }
    }

    /// Whether the widget can be given an identifier: it has one already, or the pool has one
    /// to spare for its type, or the host has room for one more.
    pub open spec fn can_be_assigned(self, frame: Frame, size: nat) -> bool {
        ||| self.assigned().is_some()
        ||| slots_of(frame.pool, self.type_id()).recycles()
        ||| size < u32::MAX
    }

    /// Retrieve the `widget::Id` that will be used to instantiate this edge's widget.
    ///
    /// The first call takes the next identifier for the widget's type from the pool. Every
    /// later call returns the same identifier and changes nothing.
    pub fn widget_id(&mut self, shared: &mut Shared, ui: &mut UiCell) -> (id: Id)
        requires
            old(shared).wf(),
            old(self).can_be_assigned(old(shared)@, host_graph_size(old(ui))),
        ensures
            final(shared).wf(),
            old(self).hands_out(
                id,
                old(shared)@,
                host_graph_size(old(ui)),
                *final(self),
                final(shared)@,
                host_graph_size(final(ui)),
            ),
    {
        match self.widget_id {
            Some(id) => id,
            None => {
                // Request a `widget::Id` from the `WidgetIdMap`.
                let id = shared.next_id_for_edge(self.type_id, ui);
                self.widget_id = Some(id);
                id
            },
        }
    }

    /// Retrieve the `widget::Id` that will be used to instantiate this edge's widget, unless
    /// a new identifier is needed and the host has no room for one. In that case nothing
    /// changes.
    pub fn try_widget_id(&mut self, shared: &mut Shared, ui: &mut UiCell) -> (id: Option<Id>)
        requires
            old(shared).wf(),
        ensures
            final(shared).wf(),
            id.is_some() == old(self).can_be_assigned(old(shared)@, host_graph_size(old(ui))),
            match id {
                Some(id) => old(self).hands_out(
                    id,
                    old(shared)@,
                    host_graph_size(old(ui)),
                    *final(self),
                    final(shared)@,
                    host_graph_size(final(ui)),
                ),
                None => {
                    &&& *final(self) == *old(self)
                    &&& final(shared)@ == old(shared)@
                    &&& host_graph_size(final(ui)) == host_graph_size(old(ui))
                },
            },
    {
        if self.widget_id.is_some() || shared.has_spare(self.type_id) || graph_size(ui)
            < u32::MAX as usize {
            Some(self.widget_id(shared, ui))
        } else {
            None
        }
    }
}

} // verus!
