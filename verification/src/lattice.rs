//! The two-point security lattice `{Low, High}` with `Low < High`, its join,
//! and the type-level tags that carry a level through the type system.
//!
//! Levels exist twice here, on purpose. [`Level`] is the specification-level
//! lattice element that contracts and lemmas speak about. [`LowSec`] and
//! [`HighSec`] are zero-sized marker types that tag executable values and
//! containers at the type level; [`SecLevel`] connects each tag to the
//! [`Level`] it denotes, and [`ComputeMaxLevel`] computes the join of two
//! tags as a type, with a proof obligation that the type-level result always
//! agrees with the specification-level [`join`].

use vstd::prelude::*;

verus! {

/// A classification level: one of the two points of the security lattice,
/// ordered `Low < High`.
#[derive(Clone, Copy, Debug, PartialEq, Eq, Structural)]
pub enum Level {
    Low,
    High,
}

/// The lattice order: `a` is no more restrictive than `b`.
pub open spec fn level_le(a: Level, b: Level) -> bool {
    a == Level::Low || b == Level::High
}

/// The lattice join: the least level at least as restrictive as both
/// operands. `Low` is the identity element and `High` absorbs.
pub open spec fn join(a: Level, b: Level) -> Level {
    if a == Level::High || b == Level::High {
        Level::High
    } else {
        Level::Low
    }
}

/// The join over a whole sequence of levels: `High` exactly when some element
/// of the sequence is `High`. Stated by membership, so the result is
/// independent of the order of the sequence.
pub open spec fn join_all(levels: Seq<Level>) -> Level {
    if exists|i: int| 0 <= i < levels.len() && levels[i] == Level::High {
        Level::High
    } else {
        Level::Low
    }
}

/// The level a container ends at when it starts at `init` and accepts the
/// elements whose levels are `inserts`, in order, each insert joining the
/// element's level into the container's: the step-by-step fold that the
/// insert operations implement.
pub open spec fn run_level(init: Level, inserts: Seq<Level>) -> Level
    decreases inserts.len(),
{
    if inserts.len() == 0 {
        init
    } else {
        run_level(join(init, inserts[0]), inserts.drop_first())
    }
}

/// `join` is commutative.
pub proof fn lemma_join_commutative(a: Level, b: Level)
    ensures
        join(a, b) == join(b, a),
{
}

/// `join` is associative.
pub proof fn lemma_join_associative(a: Level, b: Level, c: Level)
    ensures
        join(join(a, b), c) == join(a, join(b, c)),
{
}

/// `join` is idempotent.
pub proof fn lemma_join_idempotent(a: Level)
    ensures
        join(a, a) == a,
{
}

/// `Low` is the identity element of `join`, and `High` absorbs; so `join`
/// never computes a result below either operand.
pub proof fn lemma_join_bounds(a: Level)
    ensures
        join(Level::Low, a) == a,
        join(a, Level::Low) == a,
        join(Level::High, a) == Level::High,
        join(a, Level::High) == Level::High,
{
}

/// `join` never computes a result lower than either input: it is an upper
/// bound of both operands, and the least one.
pub proof fn lemma_join_least_upper_bound(a: Level, b: Level, c: Level)
    ensures
        level_le(a, join(a, b)),
        level_le(b, join(a, b)),
        level_le(a, c) && level_le(b, c) ==> level_le(join(a, b), c),
{
}

/// Joining a sequence element by element distributes over `join_all`: the
/// fold from `init` equals `init` joined with the join over the whole
/// sequence.
pub proof fn lemma_run_level_is_join(init: Level, inserts: Seq<Level>)
    ensures
        run_level(init, inserts) == join(init, join_all(inserts)),
    decreases inserts.len(),
{
    if inserts.len() == 0 {
        assert(join_all(inserts) == Level::Low);
    } else {
        let rest = inserts.drop_first();
        lemma_run_level_is_join(join(init, inserts[0]), rest);
        lemma_join_all_unfold(inserts);
    }
}

/// Unfolding `join_all` one element at a time agrees with `join`.
proof fn lemma_join_all_unfold(levels: Seq<Level>)
    requires
        levels.len() > 0,
    ensures
        join_all(levels) == join(levels[0], join_all(levels.drop_first())),
{
    let rest = levels.drop_first();
    if levels[0] == Level::High {
        assert(join_all(levels) == Level::High);
    } else if exists|i: int| 0 <= i < rest.len() && rest[i] == Level::High {
        let i = choose|i: int| 0 <= i < rest.len() && rest[i] == Level::High;
        assert(levels[i + 1] == Level::High);
    } else {
        assert forall|i: int| 0 <= i < levels.len() implies levels[i] != Level::High by {
            if i > 0 {
                assert(rest[i - 1] == levels[i]);
            }
        }
    }
}

/// The container level after any sequence of inserts into a container created
/// at `Low` is exactly the join over the levels of all inserted elements.
/// Since [`join_all`] is stated by membership, the result is independent of
/// the order in which the elements were inserted.
pub proof fn lemma_level_after_inserts(inserts: Seq<Level>)
    ensures
        run_level(Level::Low, inserts) == join_all(inserts),
{
    lemma_run_level_is_join(Level::Low, inserts);
}

/// The level is order-independent: inserting the same multiset of elements,
/// in any order, leaves a container created at `Low` at the same level.
pub proof fn lemma_level_order_independent(s1: Seq<Level>, s2: Seq<Level>)
    requires
        s1.to_multiset() == s2.to_multiset(),
    ensures
        join_all(s1) == join_all(s2),
        run_level(Level::Low, s1) == run_level(Level::Low, s2),
{
    broadcast use vstd::seq_lib::group_to_multiset_ensures;

    assert(s1.contains(Level::High) <==> s1.to_multiset().count(Level::High) > 0);
    assert(s2.contains(Level::High) <==> s2.to_multiset().count(Level::High) > 0);
    lemma_level_after_inserts(s1);
    lemma_level_after_inserts(s2);
}

/// `High` is absorbing for whole insert sequences: once a container's level
/// has reached `High`, no further inserts can ever bring it back down.
pub proof fn lemma_high_is_absorbing(inserts: Seq<Level>)
    ensures
        run_level(Level::High, inserts) == Level::High,
{
    lemma_run_level_is_join(Level::High, inserts);
}

/// The resulting level is monotone: it is at least the initial level and at
/// least the level of every element inserted along the way.
pub proof fn lemma_run_level_monotone(init: Level, inserts: Seq<Level>)
    ensures
        level_le(init, run_level(init, inserts)),
        forall|i: int| 0 <= i < inserts.len() ==> level_le(inserts[i], run_level(init, inserts)),
{
    lemma_run_level_is_join(init, inserts);
    assert forall|i: int|
        0 <= i < inserts.len() implies level_le(inserts[i], run_level(init, inserts)) by {
        if inserts[i] == Level::High {
            assert(join_all(inserts) == Level::High);
        }
    }
}

/// Type-level tag denoting the `Low` classification level. Zero-sized: the
/// tag lives only in the type system and has no runtime representation.
pub struct LowSec;

/// Type-level tag denoting the `High` classification level.
pub struct HighSec;

/// Connects a type-level tag to the [`Level`] it denotes.
pub trait SecLevel: Sized {
    /// The lattice element this tag stands for.
    spec fn level() -> Level;
}

impl SecLevel for LowSec {
    open spec fn level() -> Level {
        Level::Low
    }
}

impl SecLevel for HighSec {
    open spec fn level() -> Level {
        Level::High
    }
}

/// The type-level join operator: treating traits as functions on types,
/// `Self` and `InputLevel` are the two operand tags and `OutputLevel` is the
/// resulting tag, resolved entirely at compile time. Every implementation
/// carries a proof obligation that its output denotes exactly the lattice
/// [`join`] of its operands, so contracts stated over types can never drift
/// from the specification-level lattice.
pub trait ComputeMaxLevel<InputLevel: SecLevel>: SecLevel {
    /// The tag denoting the join of `Self` and `InputLevel`.
    type OutputLevel: SecLevel;

    /// The output tag denotes the join of the operand tags.
    proof fn max_is_join()
        ensures
            <Self::OutputLevel as SecLevel>::level() == join(Self::level(), InputLevel::level()),
    ;
}

impl ComputeMaxLevel<LowSec> for LowSec {
    type OutputLevel = LowSec;

    proof fn max_is_join() {
    }
}

impl ComputeMaxLevel<HighSec> for LowSec {
    type OutputLevel = HighSec;

    proof fn max_is_join() {
    }
}

impl ComputeMaxLevel<LowSec> for HighSec {
    type OutputLevel = HighSec;

    proof fn max_is_join() {
    }
}

impl ComputeMaxLevel<HighSec> for HighSec {
    type OutputLevel = HighSec;

    proof fn max_is_join() {
    }
}

/// A convenient way to "call" the type operator: the tag of a container that
/// held level `R` and accepted an element tagged `L`.
pub type MaxLevel<L, R> = <L as ComputeMaxLevel<R>>::OutputLevel;

} // verus!
