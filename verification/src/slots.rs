//! The mathematical model of the identifier pool, and what holds of it from frame to frame.
//!
//! For every type of content widget the pool keeps the identifiers it has ever issued for that
//! type, in the order of issue, and a cursor that says how many of them have been handed out
//! in the current frame. A request is served from behind the cursor where an identifier is
//! left there, and by a new identifier otherwise.

use vstd::prelude::*;
use conrod::widget::Id;
use std::any::TypeId;
use crate::host::widget_index;

verus! {

/// The identifiers issued for one type of widget, and how many of them are in use in the
/// current frame.
pub struct Slots {
    /// Every identifier ever issued for the type, oldest first.
    pub ids: Seq<Id>,
    /// The number of identifiers handed out since the cursor was last reset.
    pub next: nat,
}

/// The slots of every type that has been asked for so far.
pub type Pool = Map<TypeId, Slots>;

impl Slots {
    /// The slots of a type that has never been asked for.
    pub open spec fn empty() -> Slots {
        Slots { ids: Seq::empty(), next: 0 }
    }

    /// The cursor does not point beyond the first unused position.
    pub open spec fn wf(self) -> bool {
        self.next <= self.ids.len()
    }

    /// Whether the next request is served by an identifier issued earlier.
    pub open spec fn recycles(self) -> bool {
        self.next < self.ids.len()
    }

    /// Whether `id` can be the answer to the next request: where an identifier is left behind
    /// the cursor, it is that one; otherwise any identifier the host generates will do.
    pub open spec fn accepts(self, id: Id) -> bool {
        self.recycles() ==> id == self.ids[self.next as int]
    }

    /// Whether `id` can be the answer to the next request made while the host's widget graph
    /// holds `size` nodes: where no identifier is left behind the cursor, it is the one that
    /// the host generates, the index of the node that the graph gets.
    pub open spec fn from_host(self, id: Id, size: nat) -> bool {
        !self.recycles() ==> widget_index(id) == size
    }

    /// No identifier occurs twice in the list.
    pub open spec fn distinct(self) -> bool {
        forall|i: int, j: int| 0 <= i < j < self.ids.len() ==> self.ids[i] != self.ids[j]
    }

    /// Every identifier of the list is a node of a widget graph that holds `size` nodes.
    pub open spec fn below(self, size: nat) -> bool {
        forall|i: int| 0 <= i < self.ids.len() ==> widget_index(#[trigger] self.ids[i]) < size
    }

    /// How many new identifiers the next request asks of the host: none where an identifier
    /// is left behind the cursor, one otherwise.
    pub open spec fn asked_of_host(self) -> nat {
        if self.recycles() {
            0
        } else {
            1
        }
    }

    /// The slots after the next request has been answered with `id`.
    pub open spec fn issue(self, id: Id) -> Slots {
        if self.recycles() {
            Slots { ids: self.ids, next: self.next + 1 }
        } else {
            Slots { ids: self.ids.push(id), next: self.next + 1 }
        }
    }

    /// The slots at the start of a frame: every identifier is kept and none is in use.
    pub open spec fn reset(self) -> Slots {
        Slots { ids: self.ids, next: 0 }
    }
}

/// The slots that `pool` holds for widgets of type `t`.
pub open spec fn slots_of(pool: Pool, t: TypeId) -> Slots {
    if pool.contains_key(t) {
        pool[t]
    } else {
        Slots::empty()
    }
}

/// The pool after a request for a widget of type `t` has been answered with `id`.
pub open spec fn issue(pool: Pool, t: TypeId, id: Id) -> Pool {
    pool.insert(t, slots_of(pool, t).issue(id))
}

/// The pool at the start of a frame.
pub open spec fn reset(pool: Pool) -> Pool {
    Map::new(|t: TypeId| pool.contains_key(t), |t: TypeId| pool[t].reset())
}

/// Every cursor of the pool is within its list.
pub open spec fn pool_wf(pool: Pool) -> bool {
    forall|t: TypeId| #[trigger] pool.contains_key(t) ==> pool[t].wf()
}

/// How many of the requests `types` ask for a widget of type `t`.
pub open spec fn count(types: Seq<TypeId>, t: TypeId) -> nat
    decreases types.len(),
{
    if types.len() == 0 {
        0
    } else {
        count(types.drop_last(), t) + if types.last() == t {
            1nat
        } else {
            0nat
        }
    }
}

/// The pool after the requests `types` have been answered, in order, with `ids`.
pub open spec fn after_frame(pool: Pool, types: Seq<TypeId>, ids: Seq<Id>) -> Pool
    decreases types.len(),
{
    if types.len() == 0 || types.len() != ids.len() {
        pool
    } else {
        issue(after_frame(pool, types.drop_last(), ids.drop_last()), types.last(), ids.last())
    }
}

/// Whether `ids` can be the answers, in order, to the requests `types` made of `pool`.
pub open spec fn frame_accepts(pool: Pool, types: Seq<TypeId>, ids: Seq<Id>) -> bool
    decreases types.len(),
{
    &&& types.len() == ids.len()
    &&& types.len() > 0 ==> {
        &&& frame_accepts(pool, types.drop_last(), ids.drop_last())
        &&& slots_of(
            after_frame(pool, types.drop_last(), ids.drop_last()),
            types.last(),
        ).accepts(ids.last())
    }
}

/// The larger of two numbers.
pub open spec fn larger(a: nat, b: nat) -> nat {
    if a < b {
        b
    } else {
        a
    }
}

/// A request leaves the slots of every other type alone, and never drops or reorders the
/// identifiers of its own.
pub proof fn lemma_issue_keeps(pool: Pool, asked: TypeId, id: Id, t: TypeId)
    ensures
        t != asked ==> slots_of(issue(pool, asked, id), t) == slots_of(pool, t),
        slots_of(pool, t).ids.is_prefix_of(slots_of(issue(pool, asked, id), t).ids),
{
}

/// What a frame that starts with the cursor of `t` at zero does to the slots of `t`: the
/// cursor ends at the number of requests for `t`, the list has grown to that number where it
/// was shorter and not at all where it was not, and what it held before is still at its
/// front.
pub proof fn lemma_frame_slots(pool: Pool, types: Seq<TypeId>, ids: Seq<Id>, t: TypeId)
    requires
        types.len() == ids.len(),
        slots_of(pool, t).next == 0,
    ensures
        slots_of(after_frame(pool, types, ids), t).next == count(types, t),
        slots_of(after_frame(pool, types, ids), t).ids.len() == larger(
            slots_of(pool, t).ids.len(),
            count(types, t),
        ),
        slots_of(pool, t).ids.is_prefix_of(slots_of(after_frame(pool, types, ids), t).ids),
    decreases types.len(),
{
    if types.len() > 0 {
        let before = after_frame(pool, types.drop_last(), ids.drop_last());
        lemma_frame_slots(pool, types.drop_last(), ids.drop_last(), t);
        lemma_issue_keeps(before, types.last(), ids.last(), t);
    }
}

/// The identifiers that a type holds after the first `k` requests of a frame are still at the
/// front of its list when the frame is over.
pub proof fn lemma_frame_extends(pool: Pool, types: Seq<TypeId>, ids: Seq<Id>, k: int, t: TypeId)
    requires
        types.len() == ids.len(),
        0 <= k <= types.len(),
    ensures
        slots_of(after_frame(pool, types.take(k), ids.take(k)), t).ids.is_prefix_of(
            slots_of(after_frame(pool, types, ids), t).ids,
        ),
    decreases types.len() - k,
{
    if k == types.len() {
        assert(types.take(k) =~= types);
        assert(ids.take(k) =~= ids);
    } else {
        let before = after_frame(pool, types.drop_last(), ids.drop_last());
        assert(types.drop_last().take(k) =~= types.take(k));
        assert(ids.drop_last().take(k) =~= ids.take(k));
        lemma_frame_extends(pool, types.drop_last(), ids.drop_last(), k, t);
        lemma_issue_keeps(before, types.last(), ids.last(), t);
    }
}

/// Answers that are accepted for a whole frame are accepted for its first `k` requests.
pub proof fn lemma_frame_accepts_prefix(pool: Pool, types: Seq<TypeId>, ids: Seq<Id>, k: int)
    requires
        frame_accepts(pool, types, ids),
        0 <= k <= types.len(),
    ensures
        frame_accepts(pool, types.take(k), ids.take(k)),
    decreases types.len() - k,
{
    if k == types.len() {
        assert(types.take(k) =~= types);
        assert(ids.take(k) =~= ids);
    } else {
        assert(types.drop_last().take(k) =~= types.take(k));
        assert(ids.drop_last().take(k) =~= ids.take(k));
        lemma_frame_accepts_prefix(pool, types.drop_last(), ids.drop_last(), k);
    }
}

/// Within a frame that starts with every cursor at zero, the answer to a request is found in
/// the list of its type at the end of the frame, at the position given by the number of
/// earlier requests for the same type.
pub proof fn lemma_frame_answer(pool: Pool, types: Seq<TypeId>, ids: Seq<Id>, k: int)
    requires
        frame_accepts(pool, types, ids),
        0 <= k < types.len(),
        slots_of(pool, types[k]).next == 0,
    ensures
        count(types.take(k), types[k]) < slots_of(
            after_frame(pool, types, ids),
            types[k],
        ).ids.len(),
        ids[k] == slots_of(after_frame(pool, types, ids), types[k]).ids[count(
            types.take(k),
            types[k],
        ) as int],
{
    let t = types[k];
    let upto = types.take(k + 1);
    let upto_ids = ids.take(k + 1);
    assert(upto.drop_last() =~= types.take(k));
    assert(upto_ids.drop_last() =~= ids.take(k));
    assert(upto.last() == t);
    assert(upto_ids.last() == ids[k]);
    lemma_frame_accepts_prefix(pool, types, ids, k + 1);
    let before = after_frame(pool, types.take(k), ids.take(k));
    lemma_frame_slots(pool, types.take(k), ids.take(k), t);
    let answered = after_frame(pool, upto, upto_ids);
    assert(answered == issue(before, t, ids[k]));
    let at = count(types.take(k), t) as int;
    assert(slots_of(answered, t).ids[at] == ids[k]);
    lemma_frame_extends(pool, types, ids, k + 1, t);
}

/// If the same types of widget are asked for in the same order in two frames that follow
/// one another, every request of the second frame gets the identifier that the request at
/// the same position got in the first, and the second frame generates no identifier.
pub proof fn lemma_identifiers_stable(
    pool: Pool,
    types: Seq<TypeId>,
    first: Seq<Id>,
    second: Seq<Id>,
)
    requires
        frame_accepts(reset(pool), types, first),
        frame_accepts(reset(after_frame(reset(pool), types, first)), types, second),
    ensures
        second == first,
        forall|t: TypeId|
            (#[trigger] slots_of(
                after_frame(reset(after_frame(reset(pool), types, first)), types, second),
                t,
            )).ids == slots_of(after_frame(reset(pool), types, first), t).ids,
{
    let start = reset(pool);
    let middle = after_frame(start, types, first);
    let restart = reset(middle);
    let end = after_frame(restart, types, second);
    assert forall|t: TypeId| (#[trigger] slots_of(end, t)).ids == slots_of(middle, t).ids by {
        lemma_frame_slots(start, types, first, t);
        lemma_frame_slots(restart, types, second, t);
        assert(slots_of(end, t).ids =~= slots_of(middle, t).ids);
    }
    assert forall|k: int| 0 <= k < types.len() implies second[k] == first[k] by {
        lemma_frame_answer(start, types, first, k);
        lemma_frame_answer(restart, types, second, k);
        assert(slots_of(end, types[k]).ids == slots_of(middle, types[k]).ids);
    }
    assert(second =~= first);
}

/// After a frame the pool holds, for every type, as many identifiers as it held before or as
/// the frame asked for, whichever is more.
pub proof fn lemma_pool_growth(pool: Pool, types: Seq<TypeId>, ids: Seq<Id>, t: TypeId)
    requires
        types.len() == ids.len(),
    ensures
        slots_of(after_frame(reset(pool), types, ids), t).ids.len() == larger(
            slots_of(pool, t).ids.len(),
            count(types, t),
        ),
{
    lemma_frame_slots(reset(pool), types, ids, t);
}

/// While no frame asks for more than `bound` widgets of a type, the pool never holds more
/// than `bound` identifiers for it, and holds exactly `bound` from the first frame on that
/// asks for that many.
pub proof fn lemma_pool_bounded(
    pool: Pool,
    types: Seq<TypeId>,
    ids: Seq<Id>,
    t: TypeId,
    bound: nat,
)
    requires
        types.len() == ids.len(),
        slots_of(pool, t).ids.len() <= bound,
        count(types, t) <= bound,
    ensures
        slots_of(after_frame(reset(pool), types, ids), t).ids.len() <= bound,
        count(types, t) == bound ==> slots_of(after_frame(reset(pool), types, ids), t).ids.len()
            == bound,
        slots_of(pool, t).ids.len() == bound ==> slots_of(
            after_frame(reset(pool), types, ids),
            t,
        ).ids == slots_of(pool, t).ids,
{
    lemma_frame_slots(reset(pool), types, ids, t);
    if slots_of(pool, t).ids.len() == bound {
        assert(slots_of(after_frame(reset(pool), types, ids), t).ids =~= slots_of(pool, t).ids);
    }
}

/// A list that holds nodes of the host's widget graph only, and none of them twice, stays
/// such a list when it answers a request: an identifier that the host generates is a node
/// that the graph did not hold before, so it differs from all that were issued earlier.
pub proof fn lemma_issue_keeps_distinct(slots: Slots, id: Id, size: nat)
    requires
        slots.wf(),
        slots.distinct(),
        slots.below(size),
        slots.accepts(id),
        slots.from_host(id, size),
    ensures
        slots.issue(id).distinct(),
        slots.issue(id).below(size + slots.asked_of_host()),
        !slots.recycles() ==> forall|i: int| 0 <= i < slots.ids.len() ==> slots.ids[i] != id,
{
    if !slots.recycles() {
        assert forall|i: int| 0 <= i < slots.ids.len() implies slots.ids[i] != id by {
            assert(widget_index(slots.ids[i]) < size);
        }
    }
}

} // verus!
