//! The engine of a graph widget: nodes with sockets, edges between the sockets, and a caller
//! who describes the whole graph anew in every frame.
//!
//! The engine keeps what it needs from frame to frame. At the start of a frame it compares the
//! caller's nodes and edges with those it has retained, places every node, turns the drags
//! that the host reports into events, and opens a session. Through the session the caller
//! takes the events, then draws the nodes, then the edges. Every widget that is drawn gets an
//! identifier of the host from a pool which hands the same identifiers out again in the next
//! frame, so that the host never has to keep more of them than one frame shows at a time.
//!
//! Positions are counted in whole layout units.

pub mod diff;
pub mod event;
pub mod geometry;
pub mod graph;
pub mod host;
pub mod layout;
pub mod pool;
pub mod reconcile;
pub mod session;
pub mod shared;
pub mod slots;

pub use crate::event::{EdgeEvent, Event, NodeEvent, NodeId, NodeSocket};
pub use crate::geometry::{
    Direction, Point, Range, Rect, Scalar, SocketLayout, SocketLayouts, SocketSide,
};
pub use crate::graph::Graph;
pub use crate::layout::Layout;
pub use crate::session::{
    Edge, EdgeWidget, Edges, Events, Node, NodeWidget, Nodes, Session, SessionEdges,
    SessionEvents, SessionNodes,
};
pub use crate::shared::{Drags, Shared};
