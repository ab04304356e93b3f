//! Optimistic-concurrency version tokens.
//!
//! Every stored entity carries a `Version<T>` stamp, tagged with the entity
//! kind `T`. A token starts at its initial value when the entity is created
//! and is advanced exactly once per successful mutation that a store
//! persists; mutating an aggregate in memory never changes its version. A
//! store rejects a write whose presented version no longer equals the stored
//! one, which surfaces a lost-update race as `ConcurrencyConflict`.

use vstd::prelude::*;

verus! {

/// The stamp value after one successful persisted mutation. The counter wraps
/// at the top of its range so that advancing is total; equality comparison,
/// the only operation conflict detection needs, is unaffected.
pub open spec fn advanced_value(v: u64) -> u64 {
    if v == u64::MAX {
        0
    } else {
        (v + 1) as u64
    }
}

/// An opaque per-entity-type version stamp. Clients pass it through verbatim
/// and compare it for equality; only a store advances it.
#[derive(Debug)]
#[verifier::reject_recursive_types(T)]
pub struct Version<T> {
    value: u64,
    tag: core::marker::PhantomData<T>,
}

impl<T> View for Version<T> {
    type V = u64;

    closed spec fn view(&self) -> u64 {
        self.value
    }
}

impl<T> Version<T> {
    /// The initial stamp of a brand-new entity.
    pub closed spec fn spec_initial() -> Version<T> {
        Version { value: 0, tag: core::marker::PhantomData }
    }

    /// The stamp after one successful persisted mutation.
    pub closed spec fn spec_advanced(self) -> Version<T> {
        Version { value: advanced_value(self.value), ..self }
    }

    /// The view of the initial stamp is zero.
    pub proof fn lemma_initial()
        ensures
            Version::<T>::spec_initial()@ == 0u64,
    {
    }

    /// Advancing changes exactly the viewed counter.
    pub proof fn lemma_advanced(self)
        ensures
            self.spec_advanced()@ == advanced_value(self@),
    {
    }

    /// The raw counter, for passing a stamp through a serialized
    /// representation verbatim.
    pub fn value(&self) -> (v: u64)
        ensures
            v == self@,
    {
        self.value
    }

    /// Rehydrate a stamp that traveled through a serialized representation.
    /// Clients must pass stamps through verbatim, never make one up.
    pub fn from_value(value: u64) -> (r: Version<T>)
        ensures
            r@ == value,
    {
        Version { value, tag: core::marker::PhantomData }
    }

    /// The stamp after one persisted mutation of this entity.
    pub(crate) fn advanced(&self) -> (r: Version<T>)
        ensures
            r == self.spec_advanced(),
            r@ == advanced_value(self@),
    {
        let value = if self.value == u64::MAX {
            0
        } else {
            self.value + 1
        };
        Version { value, ..*self }
    }
}

impl<T> Clone for Version<T> {
    fn clone(&self) -> (r: Self)
        ensures
            r == *self,
    {
        Version { ..*self }
    }
}

impl<T> Copy for Version<T> {

}

impl<T> Default for Version<T> {
    /// The initial version stamp for a brand-new entity.
    fn default() -> (r: Version<T>)
        ensures
            r == Version::<T>::spec_initial(),
            r@ == 0u64,
    {
        Version { value: 0, tag: core::marker::PhantomData }
    }
}

impl<T> PartialEq for Version<T> {
    fn eq(&self, other: &Version<T>) -> bool {
        self.value == other.value
    }
}

impl<T> Eq for Version<T> {

}

impl<T> vstd::std_specs::cmp::PartialEqSpecImpl for Version<T> {
    open spec fn obeys_eq_spec() -> bool {
        true
    }

    open spec fn eq_spec(&self, other: &Version<T>) -> bool {
        self@ == other@
    }
}

} // verus!
