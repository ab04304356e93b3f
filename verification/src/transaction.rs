//! Transaction scoping for store writes.
//!
//! An `ActiveTransaction` is the opaque handle that scopes one or more store
//! writes to a single atomic unit: every read and write inside one command
//! invocation shares one handle, and the handle is released when it goes out
//! of scope on every exit path, success or failure. The handle carries no
//! data of its own; atomicity is the store's obligation, stated on its write
//! operations.

use vstd::prelude::*;

verus! {

/// The opaque handle for one atomic unit of store writes.
pub struct ActiveTransaction {
    private: (),
}

impl ActiveTransaction {
    /// Borrow the handle to pass to a store write.
    pub fn get(&self) -> &ActiveTransaction {
        self
    }
}

/// The source of the active transaction for one command invocation.
pub trait ActiveTransactionProvider {
    /// Open or obtain the transaction that scopes this invocation's writes.
    fn active(&self) -> ActiveTransaction;
}

/// A provider for callers that need no cross-write atomicity, such as tests:
/// each write stands alone.
#[derive(Clone, Copy)]
pub struct NoTransaction;

impl ActiveTransactionProvider for NoTransaction {
    fn active(&self) -> ActiveTransaction {
        ActiveTransaction { private: () }
    }
}

} // verus!
