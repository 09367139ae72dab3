//! What the graph tells its caller: the sockets that edges connect, and the events that
//! interaction with the graph gives rise to.

use vstd::prelude::*;
use crate::geometry::Point;

verus! {

/// The identifier of a graph node.
///
/// The caller chooses it; the graph only ever copies it and compares it for equality.
pub type NodeId = u64;

/// Represents a socket connection on a node (can be input or output).
#[derive(Copy, Clone, Debug, PartialEq, Eq, Hash, Structural)]
pub struct NodeSocket {
    /// The unique identifier for the node.
    pub id: NodeId,
    /// The index of the socket within the node.
    ///
    /// E.g. if the socket is the 3rd socket, index would be `2`.
    pub socket_index: usize,
}

/// An interaction has caused some event to occur.
#[derive(Copy, Clone, Debug, PartialEq, Eq, Structural)]
pub enum Event {
    /// Events associated with nodes.
    Node(NodeEvent),
    /// Events associated with edges.
    Edge(EdgeEvent),
}

/// Events related to adding and removing nodes.
#[derive(Copy, Clone, Debug, PartialEq, Eq, Structural)]
pub enum NodeEvent {
    /// The user attempted to remove the node with the given identifier.
    Remove(NodeId),
    /// The widget used to represent this `Node` has been dragged.
    Dragged { node_id: NodeId, from: Point, to: Point },
}

/// Events related to adding and removing edges.
#[derive(Copy, Clone, Debug, PartialEq, Eq, Structural)]
pub enum EdgeEvent {
    /// The user has pressed the given node socket with the left mouse button to begin creating
    /// an edge.
    AddStart(NodeSocket),
    /// The user has attempted to create an edge between the two given node sockets.
    Add { start: NodeSocket, end: NodeSocket },
    /// The user has cancelled creating an edge from the given socket.
    Cancelled(NodeSocket),
    /// The user has attempted to remove the edge connecting the two given sockets.
    Remove { start: NodeSocket, end: NodeSocket },
}

} // verus!
