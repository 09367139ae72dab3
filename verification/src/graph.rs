//! The description of the graph that the caller hands over in every frame.

use vstd::prelude::*;
use conrod::widget::Id;
use crate::event::{NodeId, NodeSocket};
use crate::geometry::SocketLayouts;
use crate::layout::Layout;
use crate::reconcile::reconciled;
use crate::session::{Session, SessionEvents};
use crate::shared::{Drags, Shared};

verus! {

/// Describes the graph that is to be shown in one frame.
///
/// The graph never owns the caller's nodes and edges: they are supplied fresh in every frame
/// and compared with what was retained from the frame before.
pub struct Graph<'a> {
    /// All nodes within the graph that the widget is to represent.
    pub nodes: Vec<NodeId>,
    /// All edges within the graph.
    pub edges: Vec<(NodeSocket, NodeSocket)>,
    /// The position of each node within the graph.
    pub layout: &'a Layout,
}

impl<'a> Graph<'a> {
    /// Begin building a new **Graph** widget.
    pub fn new(
        nodes: Vec<NodeId>,
        edges: Vec<(NodeSocket, NodeSocket)>,
        layout: &'a Layout,
    ) -> (graph: Graph<'a>)
        ensures
            graph.nodes == nodes,
            graph.edges == edges,
            graph.layout == layout,
    {
        Graph { nodes, edges, layout }
    }

    /// Reconciles the retained state with this description of the graph, and opens the
    /// session through which the caller draws the frame.
    ///
    /// `id` is the identifier of the graph widget itself, `socket_layouts` says where the
    /// sockets of a node go, and `drags` is what the host reports of the drags since the last
    /// frame.
    pub fn update(
        self,
        id: Id,
        shared: &mut Shared,
        socket_layouts: SocketLayouts,
        drags: &Drags,
    ) -> (events: SessionEvents)
        requires
            old(shared).wf(),
        ensures
            final(shared).wf(),
            final(shared)@ == reconciled(
                old(shared)@,
                self.nodes@,
                self.edges@,
                self.layout@,
                drags@,
            ),
            events.session().graph_id() == id,
            events.session().socket_layouts() == socket_layouts,
    {
        shared.reconcile(&self.nodes, &self.edges, self.layout, drags);
        SessionEvents::new(Session::new(id, socket_layouts))
    }
}

} // verus!
