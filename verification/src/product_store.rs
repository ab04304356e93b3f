//! The product store contract and its in-memory implementation.
//!
//! A store is the sole authority for a durable copy of an entity. Writes are
//! guarded by an optimistic version check: a write is rejected with
//! `ConcurrencyConflict` when the stored version no longer equals the version
//! the writer last read, so a writer that read stale state cannot clobber a
//! later write. A write the store accepts persists the record with its
//! version advanced exactly once.

use vstd::prelude::*;

verus! {

use std::collections::HashMap;
use crate::error::Error;
use crate::products::{Product, ProductData, ProductId};
use crate::transaction::ActiveTransaction;
use crate::version::Version;

broadcast use vstd::std_specs::hash::group_hash_axioms;

/// Whether a presented record's version admits a write: a record absent from
/// the catalog is created from the initial stamp, a present one must carry
/// exactly the stored stamp.
pub open spec fn product_write_allowed(catalog: Map<u128, ProductData>, data: ProductData) -> bool {
    if catalog.contains_key(data.id@) {
        catalog[data.id@].version@ == data.version@
    } else {
        data.version@ == 0
    }
}

/// The record as an accepted write persists it: as presented, with the
/// version stamp advanced once.
pub open spec fn stamped_product(data: ProductData) -> ProductData {
    ProductData { version: data.version.spec_advanced(), ..data }
}

/// The abstract store contract for the product catalog, keyed by product
/// identifier value. Reads see whole records; writes are atomic per record
/// and version-checked.
pub trait ProductStore {
    /// The stored catalog.
    spec fn products(&self) -> Map<u128, ProductData>;

    /// The implementation's internal well-formedness.
    spec fn inv(&self) -> bool;

    /// Read one product; absence is not an error.
    fn get_product(&self, id: ProductId) -> (r: Option<Product>)
        requires
            self.inv(),
        ensures
            match r {
                Some(p) => self.products().contains_key(id@) && p.data == self.products()[id@]
                    && p.data.id@ == id@,
                None => !self.products().contains_key(id@),
            },
    ;

    /// Write one product within the given transaction. Succeeds exactly when
    /// the presented version admits the write, and then persists the record
    /// with its version advanced once; otherwise nothing changes.
    fn set_product(&mut self, transaction: &ActiveTransaction, product: Product) -> (r: Result<
        (),
        Error,
    >)
        requires
            old(self).inv(),
        ensures
            final(self).inv(),
            match r {
                Ok(()) => {
                    &&& product_write_allowed(old(self).products(), product.data)
                    &&& final(self).products() == old(self).products().insert(
                        product.data.id@,
                        stamped_product(product.data),
                    )
                },
                Err(e) => {
                    &&& e == Error::ConcurrencyConflict
                    &&& !product_write_allowed(old(self).products(), product.data)
                    &&& final(self).products() == old(self).products()
                },
            },
    ;
}

/// The in-memory product store: a plain map from identifier value to record.
/// Methods take the store exclusively, so each accepted write is observed
/// atomically by any later reader.
pub struct InMemoryProductStore {
    products: HashMap<u128, ProductData>,
}

impl InMemoryProductStore {
    /// An empty catalog.
    pub fn new() -> (r: InMemoryProductStore)
        ensures
            r.products() == Map::<u128, ProductData>::empty(),
            r.inv(),
    {
        InMemoryProductStore { products: HashMap::new() }
    }
}

impl ProductStore for InMemoryProductStore {
    closed spec fn products(&self) -> Map<u128, ProductData> {
        self.products@
    }

    closed spec fn inv(&self) -> bool {
        forall|k: u128| #[trigger]
            self.products@.contains_key(k) ==> self.products@[k].id@ == k
    }

    fn get_product(&self, id: ProductId) -> (r: Option<Product>) {
        match self.products.get(&id.value()) {
            Some(data) => Some(Product::from_data(data.clone())),
            None => None,
        }
    }

    fn set_product(&mut self, transaction: &ActiveTransaction, product: Product) -> (r: Result<
        (),
        Error,
    >) {
        let key = product.data.id.value();
        proof {
            crate::products::ProductVersion::lemma_initial();
        }
        let allowed = match self.products.get(&key) {
            Some(stored) => stored.version == product.data.version,
            None => product.data.version == Version::default(),
        };
        if allowed {
            let mut data = product.into_data();
            let advanced = data.version.advanced();
            data.version = advanced;
            self.products.insert(key, data);
            Ok(())
        } else {
            Err(Error::ConcurrencyConflict)
        }
    }
}

/// An empty in-memory product store.
pub fn product_store() -> (r: InMemoryProductStore)
    ensures
        r.products() == Map::<u128, ProductData>::empty(),
        r.inv(),
{
    InMemoryProductStore::new()
}

} // verus!
