//! The identifier pool: hands out the host's widget identifiers, and hands the same ones out
//! again in the next frame.
//!
//! Every frame asks for its identifiers anew, in the order in which it draws its widgets.
//! The pool answers the Nth request for a type of widget with the Nth identifier it has ever
//! issued for that type, and asks the host for a new one only when it has none left. The
//! number of identifiers that the host has to keep therefore stops growing once a frame has
//! shown as many widgets of each type as any later frame will.

use vstd::prelude::*;
use conrod::widget::Id;
use conrod::UiCell;
use std::any::TypeId;
use std::collections::HashMap;
use crate::event::NodeId;
use crate::host::{generate, same_type, host_graph_size};
use crate::slots::{issue, reset, slots_of, Pool, Slots};

verus! {

broadcast use vstd::std_specs::hash::group_hash_axioms;

/// A list of `widget::Id`s for a specific type.
pub struct TypeWidgetIds {
    // The index of the next `widget::Id` to use for this type.
    next_index: usize,
    // The list of widget IDs.
    widget_ids: Vec<Id>,
}

impl View for TypeWidgetIds {
    type V = Slots;

    closed spec fn view(&self) -> Slots {
        Slots { ids: self.widget_ids@, next: self.next_index as nat }
    }
}

impl TypeWidgetIds {
    /// The cursor is within the list.
    pub open spec fn wf(self) -> bool {
        self@.wf()
    }

    /// An empty list.
    pub fn new() -> (list: TypeWidgetIds)
        ensures
            list@ == Slots::empty(),
            list.wf(),
    {
        TypeWidgetIds { next_index: 0, widget_ids: Vec::new() }
    }

    /// Moves the cursor back to the start of the list, so that the next frame is handed the
    /// same identifiers again.
    pub fn reset_index(&mut self)
        ensures
            final(self)@ == old(self)@.reset(),
            final(self).wf(),
    {
        self.next_index = 0;
    }

    /// Whether the next request is served by an identifier issued earlier, so that the host
    /// need not be asked.
    pub fn has_spare(&self) -> (spare: bool)
        ensures
            spare == self@.recycles(),
    {
        self.next_index < self.widget_ids.len()
    }

    /// Return the next `widget::Id` for a widget of the given type.
    ///
    /// If there are no more `Id`s available for the type, a new one is asked of the host.
    pub fn next_id(&mut self, ui: &mut UiCell) -> (id: Id)
        requires
            old(self).wf(),
            old(self)@.recycles() || host_graph_size(old(ui)) < u32::MAX,
        ensures
            old(self)@.accepts(id),
            old(self)@.from_host(id, host_graph_size(old(ui))),
            final(self)@ == old(self)@.issue(id),
            final(self).wf(),
            host_graph_size(final(ui)) == host_graph_size(old(ui)) + old(self)@.asked_of_host(),
    {
        if self.next_index < self.widget_ids.len() {
            let id = self.widget_ids[self.next_index];
            self.next_index = self.next_index + 1;
            id
        } else {
            let id = generate(ui);
            self.widget_ids.push(id);
            self.next_index = self.widget_ids.len();
            id
        }
    }
}

// The list of one type of widget.
struct TypeEntry {
    type_id: TypeId,
    ids: TypeWidgetIds,
}

/// Whether some entry is for the type `t`.
spec fn holds(entries: Seq<TypeEntry>, t: TypeId) -> bool {
    exists|i: int| 0 <= i < entries.len() && (#[trigger] entries[i]).type_id == t
}

/// The position of the entry for the type `t`.
spec fn index_of(entries: Seq<TypeEntry>, t: TypeId) -> int {
    choose|i: int| 0 <= i < entries.len() && (#[trigger] entries[i]).type_id == t
}

/// No two entries are for the same type.
spec fn distinct(entries: Seq<TypeEntry>) -> bool {
    forall|i: int, j: int|
        0 <= i < j < entries.len() ==> (#[trigger] entries[i]).type_id != (
        #[trigger] entries[j]).type_id
}

/// The pool that the entries stand for.
spec fn pool_of(entries: Seq<TypeEntry>) -> Pool {
    Map::new(
        |t: TypeId| holds(entries, t),
        |t: TypeId| entries[index_of(entries, t)].ids@,
    )
}

/// Among distinct entries, each is the one that is found for its type.
proof fn lemma_index_of(entries: Seq<TypeEntry>, i: int)
    requires
        distinct(entries),
        0 <= i < entries.len(),
    ensures
        holds(entries, entries[i].type_id),
        index_of(entries, entries[i].type_id) == i,
{
    let t = entries[i].type_id;
    assert(holds(entries, t));
    let j = index_of(entries, t);
    if j < i {
        assert(entries[j].type_id != entries[i].type_id);
    } else if i < j {
        assert(entries[i].type_id != entries[j].type_id);
    }
}

/// Replacing the list of one entry replaces the slots of its type and nothing else.
proof fn lemma_pool_of_update(entries: Seq<TypeEntry>, i: int, entry: TypeEntry)
    requires
        distinct(entries),
        0 <= i < entries.len(),
        entry.type_id == entries[i].type_id,
    ensures
        distinct(entries.update(i, entry)),
        pool_of(entries.update(i, entry)) == pool_of(entries).insert(entry.type_id, entry.ids@),
{
    let updated = entries.update(i, entry);
    assert(distinct(updated)) by {
        assert forall|a: int, b: int| 0 <= a < b < updated.len() implies (
        #[trigger] updated[a]).type_id != (#[trigger] updated[b]).type_id by {
            assert(entries[a].type_id != entries[b].type_id);
        }
    }
    assert forall|t: TypeId| holds(updated, t) == (holds(entries, t) || t == entry.type_id) by {
        if holds(updated, t) {
            let j = index_of(updated, t);
            assert(entries[j].type_id == t);
        }
        if holds(entries, t) {
            let j = index_of(entries, t);
            assert(updated[j].type_id == t);
        }
        if t == entry.type_id {
            assert(updated[i].type_id == t);
        }
    }
    assert forall|t: TypeId| holds(updated, t) implies #[trigger] pool_of(updated)[t] == pool_of(
        entries,
    ).insert(entry.type_id, entry.ids@)[t] by {
        let j = index_of(updated, t);
        lemma_index_of(updated, j);
        lemma_index_of(entries, j);
        assert(entries[j].type_id == t);
    }
    assert(pool_of(updated) =~= pool_of(entries).insert(entry.type_id, entry.ids@));
}

/// Appending an entry for a type that has none adds the slots of that type and nothing else.
proof fn lemma_pool_of_push(entries: Seq<TypeEntry>, entry: TypeEntry)
    requires
        distinct(entries),
        !holds(entries, entry.type_id),
    ensures
        distinct(entries.push(entry)),
        pool_of(entries.push(entry)) == pool_of(entries).insert(entry.type_id, entry.ids@),
{
    let pushed = entries.push(entry);
    assert(distinct(pushed)) by {
        assert forall|a: int, b: int| 0 <= a < b < pushed.len() implies (
        #[trigger] pushed[a]).type_id != (#[trigger] pushed[b]).type_id by {
            if b == entries.len() {
                assert(entries[a].type_id != entry.type_id);
            } else {
                assert(entries[a].type_id != entries[b].type_id);
            }
        }
    }
    assert forall|t: TypeId| holds(pushed, t) == (holds(entries, t) || t == entry.type_id) by {
        if holds(pushed, t) {
            let j = index_of(pushed, t);
            if j < entries.len() {
                assert(entries[j].type_id == t);
            }
        }
        if holds(entries, t) {
            let j = index_of(entries, t);
            assert(pushed[j].type_id == t);
        }
        if t == entry.type_id {
            assert(pushed[entries.len() as int].type_id == t);
        }
    }
    assert forall|t: TypeId| holds(pushed, t) implies #[trigger] pool_of(pushed)[t] == pool_of(
        entries,
    ).insert(entry.type_id, entry.ids@)[t] by {
        let j = index_of(pushed, t);
        lemma_index_of(pushed, j);
        if j < entries.len() {
            lemma_index_of(entries, j);
            assert(entries[j].type_id == t);
        }
    }
    assert(pool_of(pushed) =~= pool_of(entries).insert(entry.type_id, entry.ids@));
}

/// A mapping from types to their list of IDs.
pub struct WidgetIdMap {
    // The lists of `widget::Id`s, one for each type that has been asked for. No type has two.
    type_widget_ids: Vec<TypeEntry>,
    // A map from node IDs to their `widget::Id`.
    //
    // This is cleared at the end of each update and filled during the node instantiation
    // stage.
    node_widget_ids: HashMap<NodeId, Id>,
}

impl WidgetIdMap {
    /// The identifiers held for each type of widget, and how many of them are in use.
    pub closed spec fn pool(self) -> Pool {
        pool_of(self.type_widget_ids@)
    }

    /// The widget that stands for each node that has been drawn since the mappings were last
    /// cleared.
    pub closed spec fn node_widgets(self) -> Map<NodeId, Id> {
        self.node_widget_ids@
    }

    /// Every type has one list at most, and every cursor is within its list.
    pub closed spec fn wf(self) -> bool {
        &&& distinct(self.type_widget_ids@)
        &&& forall|i: int|
            0 <= i < self.type_widget_ids@.len() ==> (#[trigger] self.type_widget_ids@[i]).ids.wf()
    }

    /// In a well-formed map the model of the pool is well-formed too.
    pub proof fn lemma_wf_pool(self)
        requires
            self.wf(),
        ensures
            crate::slots::pool_wf(self.pool()),
    {
        assert forall|t: TypeId| #[trigger]
            self.pool().contains_key(t) implies self.pool()[t].wf() by {
            let j = index_of(self.type_widget_ids@, t);
            assert(self.type_widget_ids@[j].ids.wf());
        }
    }

    /// A map that has issued no identifier and knows no node.
    pub fn new() -> (map: WidgetIdMap)
        ensures
            map.wf(),
            map.pool() == Map::<TypeId, Slots>::empty(),
            map.node_widgets() == Map::<NodeId, Id>::empty(),
    {
        let map = WidgetIdMap { type_widget_ids: Vec::new(), node_widget_ids: HashMap::new() };
        assert(map.pool() =~= Map::<TypeId, Slots>::empty());
        map
    }

    /// Resets the index for every `TypeWidgetIds` list to `0`.
    ///
    /// This should be called at the beginning of the graph's update to ensure each widget
    /// receives the identifier it had in the frame before. If this is not called, the graph
    /// will request more and more `widget::Id`s every update and quickly bloat the host's
    /// inner widget graph.
    pub fn reset_indices(&mut self)
        requires
            old(self).wf(),
        ensures
            final(self).wf(),
            final(self).pool() == reset(old(self).pool()),
            final(self).node_widgets() == old(self).node_widgets(),
    {
        let n: usize = self.type_widget_ids.len();
        let mut i: usize = 0;
        while i < n
            invariant
                i <= n,
                n == self.type_widget_ids@.len(),
                n == old(self).type_widget_ids@.len(),
                self.node_widget_ids == old(self).node_widget_ids,
                forall|j: int|
                    0 <= j < n ==> (#[trigger] self.type_widget_ids@[j]).type_id == old(
                        self,
                    ).type_widget_ids@[j].type_id,
                forall|j: int|
                    0 <= j < i ==> (#[trigger] self.type_widget_ids@[j]).ids@ == old(
                        self,
                    ).type_widget_ids@[j].ids@.reset(),
                forall|j: int|
                    i <= j < n ==> (#[trigger] self.type_widget_ids@[j]).ids == old(
                        self,
                    ).type_widget_ids@[j].ids,
            decreases n - i,
        {
            self.type_widget_ids[i].ids.reset_index();
            i = i + 1;
        }
        proof {
            let before = old(self).type_widget_ids@;
            let after = self.type_widget_ids@;
            assert(distinct(after)) by {
                assert forall|a: int, b: int| 0 <= a < b < after.len() implies (
                #[trigger] after[a]).type_id != (#[trigger] after[b]).type_id by {
                    assert(before[a].type_id != before[b].type_id);
                }
            }
            assert forall|t: TypeId| holds(after, t) == holds(before, t) by {
                if holds(after, t) {
                    let j = index_of(after, t);
                    assert(before[j].type_id == t);
                }
                if holds(before, t) {
                    let j = index_of(before, t);
                    assert(after[j].type_id == t);
                }
            }
            assert forall|t: TypeId| holds(after, t) implies #[trigger] pool_of(after)[t]
                == reset(pool_of(before))[t] by {
                let j = index_of(after, t);
                lemma_index_of(after, j);
                lemma_index_of(before, j);
            }
            assert(pool_of(after) =~= reset(pool_of(before)));
        }
    }

    /// Clears the `node_id` -> `widget_id` mappings so that they may be recreated during the
    /// next node instantiation stage.
    pub fn clear_node_mappings(&mut self)
        ensures
            final(self).node_widgets() == Map::<NodeId, Id>::empty(),
            final(self).pool() == old(self).pool(),
            old(self).wf() ==> final(self).wf(),
    {
        self.node_widget_ids.clear();
    }

    /// The widget that stands for the given node, if the node has been drawn since the
    /// mappings were last cleared.
    pub fn node_widget_id(&self, node_id: NodeId) -> (widget_id: Option<Id>)
        ensures
            widget_id == if self.node_widgets().contains_key(node_id) {
                Some(self.node_widgets()[node_id])
            } else {
                None
            },
    {
        match self.node_widget_ids.get(&node_id) {
            Some(id) => Some(*id),
            None => None,
        }
    }

    /// Whether the next request for a widget of the given type is served by an identifier
    /// issued earlier, so that the host need not be asked.
    pub fn has_spare(&self, type_id: TypeId) -> (spare: bool)
        requires
            self.wf(),
        ensures
            spare == slots_of(self.pool(), type_id).recycles(),
    {
        match self.find(type_id) {
            Some(i) => {
                proof {
                    lemma_index_of(self.type_widget_ids@, i as int);
                }
                self.type_widget_ids[i].ids.has_spare()
            },
            None => false,
        }
    }

    // The position of the list for the given type, if there is one.
    fn find(&self, type_id: TypeId) -> (found: Option<usize>)
        ensures
            match found {
                Some(i) => {
                    &&& i < self.type_widget_ids@.len()
                    &&& self.type_widget_ids@[i as int].type_id == type_id
                },
                None => !holds(self.type_widget_ids@, type_id),
            },
    {
        let mut i: usize = 0;
        while i < self.type_widget_ids.len()
            invariant
                i <= self.type_widget_ids@.len(),
                forall|j: int|
                    0 <= j < i ==> (#[trigger] self.type_widget_ids@[j]).type_id != type_id,
            decreases self.type_widget_ids@.len() - i,
        {
            if same_type(self.type_widget_ids[i].type_id, type_id) {
                return Some(i);
            }
            i = i + 1;
        }
        None
    }

    // Return the next `widget::Id` for a widget of the given type.
    fn next_id_for(&mut self, type_id: TypeId, ui: &mut UiCell) -> (id: Id)
        requires
            old(self).wf(),
            slots_of(old(self).pool(), type_id).recycles() || host_graph_size(old(ui))
                < u32::MAX,
        ensures
            final(self).wf(),
            slots_of(old(self).pool(), type_id).accepts(id),
            slots_of(old(self).pool(), type_id).from_host(id, host_graph_size(old(ui))),
            final(self).pool() == issue(old(self).pool(), type_id, id),
            final(self).node_widget_ids == old(self).node_widget_ids,
            host_graph_size(final(ui)) == host_graph_size(old(ui)) + slots_of(
                old(self).pool(),
                type_id,
            ).asked_of_host(),
    {
        let index: usize = match self.find(type_id) {
            Some(i) => {
                proof {
                    lemma_index_of(self.type_widget_ids@, i as int);
                }
                i
            },
            None => {
                let entry = TypeEntry { type_id, ids: TypeWidgetIds::new() };
                proof {
                    lemma_pool_of_push(self.type_widget_ids@, entry);
                    assert(pool_of(self.type_widget_ids@.push(entry))[type_id] == Slots::empty());
                }
                self.type_widget_ids.push(entry);
                proof {
                    lemma_index_of(self.type_widget_ids@, self.type_widget_ids@.len() - 1);
                }
                self.type_widget_ids.len() - 1
            },
        };
        let ghost entries = self.type_widget_ids@;
        assert(slots_of(pool_of(entries), type_id) == slots_of(old(self).pool(), type_id));
        let id = self.type_widget_ids[index].ids.next_id(ui);
        proof {
            let entry = self.type_widget_ids@[index as int];
            assert(self.type_widget_ids@ =~= entries.update(index as int, entry));
            lemma_pool_of_update(entries, index as int, entry);
            assert(self.pool() =~= issue(old(self).pool(), type_id, id));
            assert forall|i: int| 0 <= i < self.type_widget_ids@.len() implies (
            #[trigger] self.type_widget_ids@[i]).ids.wf() by {
                if i != index {
                    assert(self.type_widget_ids@[i] == entries[i]);
                }
            }
        }
        id
    }

    /// Return the next `widget::Id` for a widget of the given type, and remember it as the
    /// widget of the given node.
    ///
    /// If there are no more `Id`s available for the type, a new one is asked of the host.
    pub fn next_id_for_node(
        &mut self,
        type_id: TypeId,
        node_id: NodeId,
        ui: &mut UiCell,
    ) -> (id: Id)
        requires
            old(self).wf(),
            slots_of(old(self).pool(), type_id).recycles() || host_graph_size(old(ui))
                < u32::MAX,
        ensures
            final(self).wf(),
            slots_of(old(self).pool(), type_id).accepts(id),
            slots_of(old(self).pool(), type_id).from_host(id, host_graph_size(old(ui))),
            final(self).pool() == issue(old(self).pool(), type_id, id),
            final(self).node_widgets() == old(self).node_widgets().insert(node_id, id),
            host_graph_size(final(ui)) == host_graph_size(old(ui)) + slots_of(
                old(self).pool(),
                type_id,
            ).asked_of_host(),
    {
        let widget_id = self.next_id_for(type_id, ui);
        self.node_widget_ids.insert(node_id, widget_id);
        widget_id
    }

    /// Return the next `widget::Id` for a widget of the given type.
    ///
    /// If there are no more `Id`s available for the type, a new one is asked of the host.
    pub fn next_id_for_edge(&mut self, type_id: TypeId, ui: &mut UiCell) -> (id: Id)
        requires
            old(self).wf(),
            slots_of(old(self).pool(), type_id).recycles() || host_graph_size(old(ui))
                < u32::MAX,
        ensures
            final(self).wf(),
            slots_of(old(self).pool(), type_id).accepts(id),
            slots_of(old(self).pool(), type_id).from_host(id, host_graph_size(old(ui))),
            final(self).pool() == issue(old(self).pool(), type_id, id),
            final(self).node_widgets() == old(self).node_widgets(),
            host_graph_size(final(ui)) == host_graph_size(old(ui)) + slots_of(
                old(self).pool(),
                type_id,
            ).asked_of_host(),
    {
        self.next_id_for(type_id, ui)
    }
}

} // verus!
