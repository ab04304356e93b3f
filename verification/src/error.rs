//! The domain error taxonomy shared by aggregates, stores and commands.

use vstd::prelude::*;

verus! {

/// A typed domain failure. Callers can decide from the variant whether to fix
/// the input and resubmit (`InvalidInput`, `InvariantViolation`), report a
/// missing resource (`NotFound`), or retry against fresh state
/// (`ConcurrencyConflict`). `ProviderFailure` is an infrastructure-level
/// failure of an injected collaborator, not a domain failure.
#[derive(Clone, Copy, Debug, PartialEq, Eq, Structural)]
pub enum Error {
    /// A referenced order, product or line item does not exist.
    NotFound,
    /// A domain invariant would be broken: a duplicate product in an order, or
    /// a quantity below one.
    InvariantViolation,
    /// The stored version no longer matches the version the writer last read.
    ConcurrencyConflict,
    /// Malformed identifier text or a malformed command payload.
    InvalidInput,
    /// An identity or transaction provider could not produce a result.
    ProviderFailure,
}

} // verus!
