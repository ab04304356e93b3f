//! The uniform contract every aggregate type satisfies.

use vstd::prelude::*;

verus! {

/// A capability contract, not a shared base: every aggregate declares its
/// identifier type, its version type, its plain-data representation and its
/// domain-error type, so store and command code can be written once against
/// "any entity". Aggregates share no state or behavior through it.
pub trait Entity {
    /// The identifier type that names this entity.
    type Id;

    /// The optimistic-concurrency version type stamped on this entity.
    type Version;

    /// The plain structured record this entity persists as.
    type Data;

    /// The domain-error type this entity's operations report.
    type Error;
}

} // verus!
