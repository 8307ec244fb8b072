//! Classified values, the classified container, and the witness-gated read.
//!
//! An [`Item`] is a single value tagged at the type level with its
//! classification; a [`SecureVec`] is an ordered, append-only collection of
//! such values, itself tagged with a level that is always at least the join
//! of the levels of everything it has accepted. Reading a `Low` container
//! needs nothing; reading a `High` container needs a [`HighSecWitness`],
//! obtainable only through [`HighSecWitness::login`]. A read that would
//! disclose `High` data without a witness is a type error, not a runtime
//! fault; the only runtime-checked failure is an out-of-range index.
//!
//! Every level transition is a pure move: the old handle is consumed and its
//! owned storage is rewrapped under the new tag, so no handle at a stale,
//! lower level can survive an escalation.

use core::marker::PhantomData;
use vstd::prelude::*;

use crate::lattice::ComputeMaxLevel;
use crate::lattice::HighSec;
use crate::lattice::Level;
use crate::lattice::LowSec;
use crate::lattice::MaxLevel;
use crate::lattice::SecLevel;
use crate::lattice::join;

verus! {

/// A single value tagged, at the type level, with classification `L`. The
/// tag is fixed at construction; the owned value is reachable read-only, and
/// only through operations that respect the tag.
pub struct Item<T, L: SecLevel> {
    t: T,
    _marker: PhantomData<L>,
}

impl<T, L: SecLevel> View for Item<T, L> {
    type V = T;

    closed spec fn view(&self) -> T {
        self.t
    }
}

impl<T, L: SecLevel> Item<T, L> {
    /// The classification this value is tagged with.
    pub open spec fn level(&self) -> Level {
        L::level()
    }
}

impl<T> Item<T, LowSec> {
    /// Tags `t` at `Low`.
    pub fn low_sec(t: T) -> (r: Self)
        ensures
            r@ == t,
    {
        Item { t, _marker: PhantomData }
    }

    /// Tags `t` at `High`.
    pub fn high_sec(t: T) -> (r: Item<T, HighSec>)
        ensures
            r@ == t,
    {
        Item { t, _marker: PhantomData }
    }

    /// One-way relabeling to `High`: the same owned value moves under the
    /// higher tag, untouched. No operation exists in the reverse direction —
    /// a `High` value can never be relabeled back down.
    pub fn upgrade(self) -> (r: Item<T, HighSec>)
        ensures
            r@ == self@,
    {
        let Item { t, _marker } = self;
        Item { t, _marker: PhantomData }
    }

    /// Reads a `Low`-classified value. `High`-classified values have no
    /// direct read: they are read only through a container's gated read.
    pub fn read(&self) -> (r: &T)
        ensures
            *r == self@,
    {
        &self.t
    }
}

/// An ordered, append-only collection of classified values, itself tagged at
/// the type level with classification `L`. Inserting an element whose tag is
/// above the container's consumes the container and returns its storage under
/// the joined tag, so the container's level only ever rises and the old,
/// lower-level handle cannot be used again.
pub struct SecureVec<T, L: SecLevel> {
    items: Vec<T>,
    _marker: PhantomData<L>,
}

impl<T, L: SecLevel> View for SecureVec<T, L> {
    type V = Seq<T>;

    closed spec fn view(&self) -> Seq<T> {
        self.items@
    }
}

impl<T, L: SecLevel> SecureVec<T, L> {
    /// The classification this container is tagged with.
    pub open spec fn level(&self) -> Level {
        L::level()
    }
}

impl<T, VecLevel: SecLevel> SecureVec<T, VecLevel> {
    /// The generalized insert: accepts an element at any level and returns
    /// the container retagged with the join of the container's and the
    /// element's levels, computed entirely at compile time by
    /// [`ComputeMaxLevel`]. The element is appended; the same backing storage
    /// moves under the new tag, and the old handle is consumed.
    pub fn push<ItemLevel: ComputeMaxLevel<VecLevel>>(self, item: Item<T, ItemLevel>) -> (r:
        SecureVec<T, MaxLevel<ItemLevel, VecLevel>>)
        ensures
            r@ == self@.push(item@),
            r.level() == join(self.level(), item.level()),
    {
        proof {
            ItemLevel::max_is_join();
            crate::lattice::lemma_join_commutative(ItemLevel::level(), VecLevel::level());
        }
        let Item { t, _marker } = item;
        let SecureVec { items: mut items, _marker: _ } = self;
        items.push(t);
        SecureVec { items, _marker: PhantomData }
    }
}

impl<T> SecureVec<T, LowSec> {
    /// Creates an empty container at `Low`.
    pub fn new() -> (r: Self)
        ensures
            r@ == Seq::<T>::empty(),
            r.level() == Level::Low,
    {
        SecureVec { items: Vec::new(), _marker: PhantomData }
    }

    /// Reads the element at `i` at the current level, which is `Low`, so no
    /// witness is needed. An index past the end is an out-of-range failure,
    /// never a silent default.
    pub fn get(&self, i: usize) -> (r: Option<&T>)
        ensures
            match r {
                Some(v) => i < self@.len() && *v == self@[i as int],
                None => i >= self@.len(),
            },
    {
        if i < self.items.len() {
            Some(&self.items[i])
        } else {
            None
        }
    }

    /// The escalating insert on the simple path: a `High` element enters a
    /// `Low` container, which is consumed and returned retagged `High`. It is
    /// one instance of the generalized [`SecureVec::push`], so the two paths
    /// agree on every overlapping case.
    pub fn push_secure(self, item: Item<T, HighSec>) -> (r: SecureVec<T, HighSec>)
        ensures
            r@ == self@.push(item@),
            r.level() == Level::High,
    {
        self.push(item)
    }
}

/// An unforgeable capability token standing for one successful authorization
/// step: holding one is the only way to read from a `High`-classified
/// container. It stores no data and cannot be constructed outside this
/// module; [`HighSecWitness::login`] is the single place where real
/// authentication logic would be injected.
pub struct HighSecWitness {
    _priv: (),
}

impl HighSecWitness {
    /// Obtains a witness for one authorization event.
    ///
    /// The modeled design accepts no credentials and always succeeds; that is
    /// an explicit stand-in, not a security property. A hardened deployment
    /// must validate real credentials here and fail with an authorization
    /// error when they are invalid, and should consider expiry or revocation,
    /// neither of which this design models.
    pub fn login() -> (r: HighSecWitness) {
        HighSecWitness { _priv: () }
    }
}

impl<T> SecureVec<T, HighSec> {
    /// The witness-gated read: the only read available once the container is
    /// `High`, including for elements that were individually inserted at
    /// `Low`. The witness is checked purely by its type — nothing of it is
    /// inspected at runtime. The same bounds check applies as in the
    /// ungated read.
    pub fn get_secure(&self, i: usize, _witness: HighSecWitness) -> (r: Option<&T>)
        ensures
            match r {
                Some(v) => i < self@.len() && *v == self@[i as int],
                None => i >= self@.len(),
            },
    {
        if i < self.items.len() {
            Some(&self.items[i])
        } else {
            None
        }
    }

    /// Appends a value into a container that is already `High`, tagging it at
    /// the container's level; inserting into `High` storage is itself a
    /// disclosure-adjacent operation, so it, too, demands a witness.
    pub fn push_secure(&mut self, value: T, _witness: HighSecWitness)
        ensures
            final(self)@ == old(self)@.push(value),
    {
        self.items.push(value);
    }
}

} // verus!
