//! What the graph takes from the host toolkit and from the standard library without proof.
//!
//! The host keeps every widget in one graph and names each by its index there. The pool asks
//! it for new identifiers, and tells the types of content widgets apart by their type
//! identifiers. None of this is verified: each item below says what is taken on trust.

use vstd::prelude::*;
use conrod::widget::Id;
use conrod::UiCell;
use std::any::TypeId;

verus! {

/// `petgraph::graph::NodeIndex`, which the host uses under the name `conrod::widget::Id` to
/// identify a widget. The graph carries such identifiers around and never looks inside.
#[verifier::external_type_specification]
#[verifier::external_body]
#[verifier::reject_recursive_types(Ix)]
pub struct ExNodeIndex<Ix>(petgraph::graph::NodeIndex<Ix>);

/// `conrod::UiCell`, the handle on the host that a widget has while it is being updated.
/// Nothing of it is visible here.
#[verifier::external_type_specification]
#[verifier::external_body]
pub struct ExUiCell<'a>(conrod::UiCell<'a>);

/// `std::any::TypeId`, which stands for the type of a content widget.
#[verifier::external_type_specification]
#[verifier::external_body]
pub struct ExTypeId(std::any::TypeId);

/// The number of nodes, placeholders included, in the widget graph of the host.
pub uninterp spec fn host_graph_size(ui: &UiCell) -> nat;

/// Calls `conrod::UiCell::widget_graph`, and on the graph `node_count`.
///
/// Taken on trust: the result is the number of nodes in the host's widget graph.
#[verifier::external_body]
pub(crate) fn graph_size(ui: &UiCell) -> (size: usize)
    ensures
        size == host_graph_size(ui),
{
    ui.widget_graph().node_count()
}

/// The index of a widget in the host's widget graph: what `petgraph::graph::NodeIndex::index`
/// returns for its identifier.
pub uninterp spec fn widget_index(id: Id) -> nat;

/// Calls `conrod::UiCell::widget_id_generator`, and on the generator `next`, which adds a
/// placeholder to the host's widget graph and returns its index.
///
/// Taken on trust: the call adds exactly one node to the graph, and the identifier it
/// returns is the index of that node, which is the number of nodes that the graph held
/// before. The host indexes the nodes by `u32` and panics when the graph is full, so the call
/// is only made while the graph holds fewer than `u32::MAX` nodes.
#[verifier::external_body]
pub(crate) fn generate(ui: &mut UiCell) -> (id: Id)
    requires
        host_graph_size(old(ui)) < u32::MAX,
    ensures
        host_graph_size(final(ui)) == host_graph_size(old(ui)) + 1,
        widget_index(id) == host_graph_size(old(ui)),
{
    ui.widget_id_generator().next()
}

/// Compares two `std::any::TypeId`s with `==`.
///
/// Taken on trust: the comparison tells whether the two are the same type identifier.
#[verifier::external_body]
pub(crate) fn same_type(a: TypeId, b: TypeId) -> (same: bool)
    ensures
        same == (a == b),
{
    a == b
}

} // verus!
