//! The positions that the caller gives to the nodes of the graph.

use vstd::prelude::*;
use std::collections::HashMap;
use crate::event::NodeId;
use crate::geometry::Point;
use crate::reconcile::baseline;

verus! {

broadcast use vstd::std_specs::hash::group_hash_axioms;

/// Stores the layout of all nodes within the graph.
///
/// All positions are relative to the centre of the graph.
///
/// The graph reads the layout and never writes to it: when a node is dragged the graph says
/// so in an event, and it is up to the caller to move the node.
#[derive(Debug, PartialEq)]
pub struct Layout {
    map: HashMap<NodeId, Point>,
}

impl View for Layout {
    type V = Map<NodeId, Point>;

    closed spec fn view(&self) -> Map<NodeId, Point> {
        self.map@
    }
}

impl Layout {
    /// A layout that places no node.
    pub fn new() -> (layout: Layout)
        ensures
            layout@ == Map::<NodeId, Point>::empty(),
    {
        Layout { map: HashMap::new() }
    }

    /// The position of the node at the given node identifier.
    pub fn get(&self, node_id: NodeId) -> (point: Option<Point>)
        ensures
            point == if self@.contains_key(node_id) {
                Some(self@[node_id])
            } else {
                None
            },
    {
        match self.map.get(&node_id) {
            Some(point) => Some(*point),
            None => None,
        }
    }

    /// Places the node at the given position and returns where it was placed before.
    pub fn insert(&mut self, node_id: NodeId, point: Point) -> (before: Option<Point>)
        ensures
            final(self)@ == old(self)@.insert(node_id, point),
            before == if old(self)@.contains_key(node_id) {
                Some(old(self)@[node_id])
            } else {
                None
            },
    {
        self.map.insert(node_id, point)
    }

    /// The position that the graph starts from when it places the node: the one stored for
    /// it, falling back to the centre of the graph if none was given.
    pub fn point_or_origin(&self, node_id: NodeId) -> (point: Point)
        ensures
            point == baseline(self@, node_id),
    {
        match self.map.get(&node_id) {
            Some(point) => *point,
            None => Point::origin(),
        }
    }
}

impl Clone for Layout {
    fn clone(&self) -> (layout: Layout)
        ensures
            layout@ == self@,
    {
        Layout { map: self.map.clone() }
    }
}

impl std::ops::Deref for Layout {
    type Target = HashMap<NodeId, Point>;

    fn deref(&self) -> (map: &HashMap<NodeId, Point>)
        ensures
            map@ == self@,
    {
        &self.map
    }
}

impl std::ops::DerefMut for Layout {
    fn deref_mut(&mut self) -> (map: &mut HashMap<NodeId, Point>)
        ensures
            map@ == old(self)@,
            final(self)@ == final(map)@,
    {
        &mut self.map
    }
}

impl From<HashMap<NodeId, Point>> for Layout {
    fn from(map: HashMap<NodeId, Point>) -> (layout: Layout)
        ensures
            layout@ == map@,
    {
        Layout { map }
    }
}

impl vstd::std_specs::convert::FromSpecImpl<HashMap<NodeId, Point>> for Layout {
    open spec fn obeys_from_spec() -> bool {
        true
    }

    closed spec fn from_spec(map: HashMap<NodeId, Point>) -> Layout {
        Layout { map }
    }
}

impl From<Layout> for HashMap<NodeId, Point> {
    fn from(layout: Layout) -> (map: HashMap<NodeId, Point>)
        ensures
            map@ == layout@,
    {
        let Layout { map } = layout;
        map
    }
}

impl vstd::std_specs::convert::FromSpecImpl<Layout> for HashMap<NodeId, Point> {
    open spec fn obeys_from_spec() -> bool {
        true
    }

    closed spec fn from_spec(layout: Layout) -> HashMap<NodeId, Point> {
        layout.map
    }
}

} // verus!
