//! The outcome twin: a success flag beside one value of the same shape for
//! both arms, and the pairwise combinators over it.
//!
//! Combination always nests to the left, in the order in which the operations
//! were declared: combining `a`, `b`, `c` gives the value `((a, b), c)`.

use vstd::prelude::*;

verus! {

/// A result whose success and failure arms carry the same type.
pub type TwinResult<T> = Result<T, T>;

/// A [`TwinResult`] of text.
pub type StringTwinResult = TwinResult<String>;

/// The value of a twin result, whichever arm holds it.
pub open spec fn twin_value<T>(r: TwinResult<T>) -> T {
    match r {
        Ok(value) => value,
        Err(value) => value,
    }
}

/// Collapses both arms of a twin result into the value they carry.
pub fn twin_result_value<T>(r: TwinResult<T>) -> (value: T)
    ensures
        value == twin_value(r),
{
    match r {
        Ok(value) => value,
        Err(value) => value,
    }
}

/// Like [`TwinResult`], with the discriminant exposed as the flag `is_ok` and
/// the wrapped value as `value`.
#[derive(Debug)]
pub struct FlagTwin<T> {
    pub is_ok: bool,
    pub value: T,
}

/// A flag and a value side by side, as they stand inside an aggregate.
pub type FlagTwinTuple<T> = (bool, T);

/// A twin whose value carries its own flag: the start of a chain of pairings.
pub type FlagTwinPairable<T> = FlagTwin<FlagTwinTuple<T>>;

/// A chain of pairings: everything paired so far, then the latest leaf with
/// its own flag.
pub type FlagTwinPaired<T, P> = FlagTwin<(T, FlagTwinTuple<P>)>;

/// A twin of text.
pub type FlagStringTwin = FlagTwin<String>;

impl<T> FlagTwin<T> {
    /// The twin of a twin result.
    pub open spec fn of(r: TwinResult<T>) -> Self {
        FlagTwin { is_ok: r is Ok, value: twin_value(r) }
    }

    /// This twin combined with another: the conjunction of the flags, the
    /// pair of the values.
    pub open spec fn joined<P>(self, next: FlagTwin<P>) -> FlagTwin<(T, P)> {
        FlagTwin { is_ok: self.is_ok && next.is_ok, value: (self.value, next.value) }
    }

    /// This twin with its flag copied beside its value.
    pub open spec fn flagged(self) -> FlagTwinPairable<T> {
        FlagTwin { is_ok: self.is_ok, value: (self.is_ok, self.value) }
    }

    /// Records which arm a twin result is, and keeps the value of that arm.
    pub fn new(r: TwinResult<T>) -> (twin: Self)
        ensures
            twin == Self::of(r),
    {
        let is_ok = r.is_ok();
        FlagTwin { is_ok, value: twin_result_value(r) }
    }

    /// Combines this twin with a result that has not been made a twin yet.
    /// The value is the pair of both values whether or not either side
    /// succeeded.
    pub fn link<P>(self, next: TwinResult<P>) -> (linked: FlagTwin<(T, P)>)
        ensures
            linked == self.joined(FlagTwin::of(next)),
    {
        let is_ok = self.is_ok && next.is_ok();
        let next_value = twin_result_value(next);
        FlagTwin { is_ok, value: (self.value, next_value) }
    }

    /// Combines two twins: successful only if both are, and holding both
    /// values.
    pub fn and<P>(self, next: FlagTwin<P>) -> (both: FlagTwin<(T, P)>)
        ensures
            both == self.joined(next),
    {
        FlagTwin { is_ok: self.is_ok && next.is_ok, value: (self.value, next.value) }
    }

    /// Takes the twin apart into its flag and its value.
    pub fn split(self) -> (parts: FlagTwinTuple<T>)
        ensures
            parts == (self.is_ok, self.value),
    {
        (self.is_ok, self.value)
    }

    /// Starts a chain of pairings: the flag stays on top and is also kept
    /// beside the value, where later pairings leave it untouched.
    pub fn pairable(self) -> (start: FlagTwinPairable<T>)
        ensures
            start == self.flagged(),
    {
        FlagTwin { is_ok: self.is_ok, value: (self.is_ok, self.value) }
    }
}

impl<T> FlagTwinPairable<T> {
    /// Pairs the first leaf of a chain with the second. The top flag becomes
    /// the conjunction; each leaf keeps its own flag beside its value.
    pub fn pair_first<P>(self, next: FlagTwin<P>) -> (paired: FlagTwinPaired<FlagTwinTuple<T>, P>)
        ensures
            paired.is_ok == (self.is_ok && next.is_ok),
            paired.value == (self.value, (next.is_ok, next.value)),
            paired == self.joined(next.flagged()),
    {
        FlagTwin { is_ok: self.is_ok && next.is_ok, value: (self.value, (next.is_ok, next.value)) }
    }
}

impl<T, P> FlagTwinPaired<T, P> {
    /// Pairs a chain with one more leaf. The top flag becomes the
    /// conjunction; what was paired before is kept as it was, and the new
    /// leaf keeps its own flag beside its value.
    pub fn pair<R>(self, next: FlagTwin<R>) -> (paired: FlagTwinPaired<(T, FlagTwinTuple<P>), R>)
        ensures
            paired.is_ok == (self.is_ok && next.is_ok),
            paired.value == (self.value, (next.is_ok, next.value)),
            paired == self.joined(next.flagged()),
    {
        FlagTwin { is_ok: self.is_ok && next.is_ok, value: (self.value, (next.is_ok, next.value)) }
    }
}

/// The leaves of an aggregate's value, each with its own flag, from left to
/// right. A flagged value is one leaf; a pair holds the leaves of its left
/// part, then those of its right part, however deep either is nested.
pub trait FlagLeaves {
    /// What each leaf carries beside its flag.
    type Leaf;

    spec fn leaves(&self) -> Seq<FlagTwinTuple<Self::Leaf>>;
}

impl<T> FlagLeaves for FlagTwinTuple<T> {
    type Leaf = T;

    open spec fn leaves(&self) -> Seq<FlagTwinTuple<T>> {
        seq![*self]
    }
}

impl<A: FlagLeaves, B: FlagLeaves<Leaf = A::Leaf>> FlagLeaves for (A, B) {
    type Leaf = A::Leaf;

    open spec fn leaves(&self) -> Seq<FlagTwinTuple<A::Leaf>> {
        self.0.leaves() + self.1.leaves()
    }
}

/// Whether every leaf in a sequence of leaves succeeded.
pub open spec fn all_flags<T>(leaves: Seq<FlagTwinTuple<T>>) -> bool {
    forall|i: int| 0 <= i < leaves.len() ==> (#[trigger] leaves[i]).0
}

/// Whether an aggregate's top flag says what its leaves say: that all of them
/// succeeded.
pub open spec fn flag_sums_leaves<A: FlagLeaves>(aggregate: FlagTwin<A>) -> bool {
    aggregate.is_ok == all_flags(aggregate.value.leaves())
}

/// A twin made pairable is an aggregate of one leaf, which is the twin's own
/// flag and value, and its top flag is that leaf's flag.
pub proof fn lemma_pairable_is_one_leaf<T>(twin: FlagTwin<T>)
    ensures
        twin.flagged().value.leaves() == seq![(twin.is_ok, twin.value)],
        flag_sums_leaves(twin.flagged()),
{
    let leaves = twin.flagged().value.leaves();
    assert(leaves[0] == (twin.is_ok, twin.value));
}

/// Combining two aggregates, of whatever nesting, keeps every leaf of both
/// with its flag and value, the left one's first; and if each top flag was
/// the conjunction of its leaves' flags, so is the combined one.
pub proof fn lemma_join_keeps_leaves<A: FlagLeaves, B: FlagLeaves<Leaf = A::Leaf>>(
    left: FlagTwin<A>,
    right: FlagTwin<B>,
)
    ensures
        left.joined(right).value.leaves() == left.value.leaves() + right.value.leaves(),
        flag_sums_leaves(left) && flag_sums_leaves(right) ==> flag_sums_leaves(
            left.joined(right),
        ),
{
    let l = left.value.leaves();
    let r = right.value.leaves();
    let both = l + r;
    if all_flags(l) && all_flags(r) {
        assert forall|i: int| 0 <= i < both.len() implies (#[trigger] both[i]).0 by {
            if i < l.len() {
                assert(both[i] == l[i]);
            } else {
                assert(both[i] == r[i - l.len()]);
            }
        }
    }
    if all_flags(both) {
        assert forall|i: int| 0 <= i < l.len() implies (#[trigger] l[i]).0 by {
            assert(both[i] == l[i]);
        }
        assert forall|i: int| 0 <= i < r.len() implies (#[trigger] r[i]).0 by {
            assert(both[i + l.len()] == r[i]);
        }
    }
}

/// Combination is associative in effect: nested to the left or to the right,
/// three aggregates give the same top flag and the same leaves in the same
/// order.
pub proof fn lemma_join_associative<
    A: FlagLeaves,
    B: FlagLeaves<Leaf = A::Leaf>,
    C: FlagLeaves<Leaf = A::Leaf>,
>(a: FlagTwin<A>, b: FlagTwin<B>, c: FlagTwin<C>)
    ensures
        a.joined(b).joined(c).is_ok == a.joined(b.joined(c)).is_ok,
        a.joined(b).joined(c).value.leaves() == a.joined(b.joined(c)).value.leaves(),
{
    assert((a.value.leaves() + b.value.leaves()) + c.value.leaves() =~= a.value.leaves() + (
    b.value.leaves() + c.value.leaves()));
}

/// Pairing one more leaf onto a chain appends exactly that leaf, with the
/// flag and value it came with, after the leaves that were there, and keeps
/// the top flag the conjunction of all leaves' flags.
pub proof fn lemma_pair_appends_leaf<A: FlagLeaves>(chain: FlagTwin<A>, next: FlagTwin<A::Leaf>)
    ensures
        chain.joined(next.flagged()).value.leaves() == chain.value.leaves().push(
            (next.is_ok, next.value),
        ),
        flag_sums_leaves(chain) ==> flag_sums_leaves(chain.joined(next.flagged())),
{
    lemma_pairable_is_one_leaf(next);
    lemma_join_keeps_leaves(chain, next.flagged());
    assert(chain.value.leaves() + seq![(next.is_ok, next.value)] =~= chain.value.leaves().push(
        (next.is_ok, next.value),
    ));
}

} // verus!
