//! The positional diff that brings a retained sequence up to date with a freshly supplied one.
//!
//! Both sequences are walked from the start in lock-step. Whatever they have in common at the
//! front is kept; from the first position at which they part ways the retained sequence takes
//! over the rest of the new one. One insertion or removal in the middle therefore replaces
//! everything behind it.

use vstd::prelude::*;
use crate::event::{NodeId, NodeSocket};

verus! {

/// A value that a retained sequence can hold: it can be told apart from another.
pub trait Element: Sized {
    /// Whether the two values are the same value.
    fn same(&self, other: &Self) -> (same: bool)
        ensures
            same == (*self == *other),
    ;
}

impl Element for NodeId {
    fn same(&self, other: &Self) -> (same: bool) {
        *self == *other
    }
}

impl Element for (NodeSocket, NodeSocket) {
    fn same(&self, other: &Self) -> (same: bool) {
        self.0 == other.0 && self.1 == other.1
    }
}

/// The way in which a new sequence differs from a retained one.
#[derive(Debug)]
pub enum IterDiff<T> {
    /// The index of the first non-matching element along with the new sequence's remaining
    /// elements starting with the first mis-matched element.
    FirstMismatch(usize, Vec<T>),
    /// The new sequence goes on where the retained one ends: its remaining elements.
    Longer(Vec<T>),
    /// The new sequence ends before the retained one does: its total number of elements.
    Shorter(usize),
}

/// Whether `i` is the first position at which `a` and `b` part ways: they agree on everything
/// before it, and at `i` either one of them has ended or their elements differ.
pub open spec fn is_first_difference<T>(a: Seq<T>, b: Seq<T>, i: int) -> bool {
    &&& 0 <= i <= a.len()
    &&& i <= b.len()
    &&& forall|j: int| 0 <= j < i ==> a[j] == b[j]
    &&& (i == a.len() || i == b.len() || a[i] != b[i])
}

/// What the diff of a retained sequence `a` against a new sequence `b` is.
pub open spec fn is_diff<T>(a: Seq<T>, b: Seq<T>, diff: Option<IterDiff<T>>) -> bool {
    match diff {
        None => a == b,
        Some(IterDiff::FirstMismatch(i, rest)) => {
            &&& i < a.len()
            &&& i < b.len()
            &&& is_first_difference(a, b, i as int)
            &&& rest@ == b.skip(i as int)
        },
        Some(IterDiff::Longer(rest)) => {
            &&& a.len() < b.len()
            &&& is_first_difference(a, b, a.len() as int)
            &&& rest@ == b.skip(a.len() as int)
        },
        Some(IterDiff::Shorter(total)) => {
            &&& total == b.len()
            &&& b.len() < a.len()
            &&& is_first_difference(a, b, b.len() as int)
        },
    }
}

/// The first `len` elements of `a`, or all of `a` where it has no more than that.
pub open spec fn truncated<T>(a: Seq<T>, len: int) -> Seq<T> {
    if 0 <= len <= a.len() {
        a.take(len)
    } else {
        a
    }
}

/// The retained sequence once a diff has been applied to it.
pub open spec fn patched<T>(a: Seq<T>, diff: Option<IterDiff<T>>) -> Seq<T> {
    match diff {
        None => a,
        Some(IterDiff::FirstMismatch(i, rest)) => truncated(a, i as int) + rest@,
        Some(IterDiff::Longer(rest)) => a + rest@,
        Some(IterDiff::Shorter(total)) => truncated(a, total as int),
    }
}

/// Two sequences part ways at one position only.
pub proof fn lemma_first_difference_unique<T>(a: Seq<T>, b: Seq<T>, i: int, j: int)
    requires
        is_first_difference(a, b, i),
        is_first_difference(a, b, j),
    ensures
        i == j,
{
    if i < j {
        assert(a[i] == b[i]);
    } else if j < i {
        assert(a[j] == b[j]);
    }
}

/// What is kept of the retained sequence up to the first difference, followed by the new
/// sequence from there on, is the new sequence.
pub proof fn lemma_prefix_then_rest<T>(a: Seq<T>, b: Seq<T>, i: int)
    requires
        is_first_difference(a, b, i),
    ensures
        a.take(i) + b.skip(i) == b,
        i == a.len() ==> a + b.skip(i) == b,
        i == b.len() ==> a.take(i) == b,
{
    assert(a.take(i) + b.skip(i) =~= b);
    if i == a.len() {
        assert(a.take(i) =~= a);
    }
    if i == b.len() {
        assert(b.skip(i) =~= Seq::<T>::empty());
        assert(a.take(i) + b.skip(i) =~= a.take(i));
    }
}

/// Applying the diff of `a` against `b` to `a` gives `b`, whatever the way in which they
/// differ.
pub proof fn lemma_patched_is_new<T>(a: Seq<T>, b: Seq<T>, diff: Option<IterDiff<T>>)
    requires
        is_diff(a, b, diff),
    ensures
        patched(a, diff) == b,
{
    match diff {
        None => {},
        Some(IterDiff::FirstMismatch(i, rest)) => {
            lemma_prefix_then_rest(a, b, i as int);
        },
        Some(IterDiff::Longer(rest)) => {
            lemma_prefix_then_rest(a, b, a.len() as int);
        },
        Some(IterDiff::Shorter(total)) => {
            lemma_prefix_then_rest(a, b, b.len() as int);
        },
    }
}

/// The elements of `v` from position `from` on.
fn tail<T: Element + Copy>(v: &Vec<T>, from: usize) -> (rest: Vec<T>)
    requires
        from <= v.len(),
    ensures
        rest@ == v@.skip(from as int),
{
    let mut rest: Vec<T> = Vec::new();
    let mut k: usize = from;
    while k < v.len()
        invariant
            from <= k <= v.len(),
            rest@ == v@.subrange(from as int, k as int),
        decreases v.len() - k,
    {
        rest.push(v[k]);
        k = k + 1;
    }
    assert(v@.subrange(from as int, v.len() as int) =~= v@.skip(from as int));
    rest
}

/// Compares every element of `a` and `b` in lock-step.
///
/// If `b` has fewer elements than `a` and agrees with its beginning, the number of `b`'s
/// elements is returned as `IterDiff::Shorter`.
///
/// If the two elements of a step differ, the index of those elements along with the remaining
/// elements of `b` are returned as `IterDiff::FirstMismatch`.
///
/// If `a` ends before `b` does, the remaining elements of `b` are returned as
/// `IterDiff::Longer`.
///
/// If the two hold the same elements, `None` is returned.
pub fn iter_diff<T: Element + Copy>(a: &Vec<T>, b: &Vec<T>) -> (diff: Option<IterDiff<T>>)
    ensures
        is_diff(a@, b@, diff),
{
    let mut i: usize = 0;
    while i < a.len()
        invariant
            i <= a.len(),
            i <= b.len(),
            forall|j: int| 0 <= j < i ==> a@[j] == b@[j],
        decreases a.len() - i,
    {
        if i >= b.len() {
            return Some(IterDiff::Shorter(i));
        }
        if !a[i].same(&b[i]) {
            return Some(IterDiff::FirstMismatch(i, tail(b, i)));
        }
        i = i + 1;
    }
    if i < b.len() {
        Some(IterDiff::Longer(tail(b, i)))
    } else {
        assert(a@ =~= b@);
        None
    }
}

/// Appends all of `rest` to `v`.
fn extend<T: Element + Copy>(v: &mut Vec<T>, rest: &Vec<T>)
    ensures
        final(v)@ == old(v)@ + rest@,
{
    let mut k: usize = 0;
    while k < rest.len()
        invariant
            k <= rest.len(),
            v@ == old(v)@ + rest@.take(k as int),
        decreases rest.len() - k,
    {
        v.push(rest[k]);
        k = k + 1;
        assert(rest@.take(k as int) =~= rest@.take(k - 1).push(rest@[k - 1]));
        assert(v@ =~= old(v)@ + rest@.take(k as int));
    }
    assert(rest@.take(rest.len() as int) =~= rest@);
}

/// Applies a diff to the retained sequence it was taken from: what the two sequences have in
/// common is kept, the rest is dropped, and what the new sequence has beyond it is appended.
pub fn apply_diff<T: Element + Copy>(retained: &mut Vec<T>, diff: Option<IterDiff<T>>)
    ensures
        final(retained)@ == patched(old(retained)@, diff),
{
    match diff {
        Some(IterDiff::FirstMismatch(i, mismatch)) => {
            retained.truncate(i);
            extend(retained, &mismatch);
        },
        Some(IterDiff::Longer(remaining)) => {
            extend(retained, &remaining);
        },
        Some(IterDiff::Shorter(total)) => {
            retained.truncate(total);
        },
        None => {},
    }
}

/// Brings the retained sequence up to date with the new one and returns how many of the
/// retained elements were kept: the position of the first difference between the two.
///
/// Afterwards the retained sequence holds exactly the elements of the new one.
pub fn update_retained<T: Element + Copy>(retained: &mut Vec<T>, new: &Vec<T>) -> (kept: usize)
    ensures
        is_first_difference(old(retained)@, new@, kept as int),
        final(retained)@ == old(retained)@.take(kept as int) + new@.skip(kept as int),
        final(retained)@ == new@,
{
    let diff = iter_diff(retained, new);
    let kept: usize = match &diff {
        Some(IterDiff::FirstMismatch(i, _)) => *i,
        Some(IterDiff::Longer(_)) => retained.len(),
        Some(IterDiff::Shorter(total)) => *total,
        None => retained.len(),
    };
    proof {
        lemma_patched_is_new(retained@, new@, diff);
        lemma_prefix_then_rest(retained@, new@, kept as int);
    }
    apply_diff(retained, diff);
    kept
}

} // verus!
