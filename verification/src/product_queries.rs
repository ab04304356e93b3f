//! The read-side query for one product.

use vstd::prelude::*;

verus! {

use crate::error::Error;
use crate::product_store::ProductStore;
use crate::products::{Product, ProductData, ProductId};

/// Input for a `GetProductQuery`.
#[derive(Clone, Copy)]
pub struct GetProduct {
    /// The identifier of the product to read.
    pub id: ProductId,
}

/// Get a product entity: the lookup capability commands consume, replaceable
/// so tests can supply a pre-seeded catalog.
pub trait GetProductQuery {
    /// The catalog this query source can see.
    spec fn visible_products(&self) -> Map<u128, ProductData>;

    /// The query source's internal well-formedness.
    spec fn query_inv(&self) -> bool;

    /// Read one product; absence is not an error.
    fn get_product(&self, query: GetProduct) -> (r: Result<Option<Product>, Error>)
        requires
            self.query_inv(),
        ensures
            match r {
                Ok(Some(p)) => self.visible_products().contains_key(query.id@) && p.data
                    == self.visible_products()[query.id@] && p.data.id@ == query.id@,
                Ok(None) => !self.visible_products().contains_key(query.id@),
                Err(_) => false,
            },
    ;
}

/// A query source backed by a product store.
pub struct StoreProductQuery<TStore> {
    /// The store the query reads.
    pub store: TStore,
}

impl<TStore: ProductStore> GetProductQuery for StoreProductQuery<TStore> {
    open spec fn visible_products(&self) -> Map<u128, ProductData> {
        self.store.products()
    }

    open spec fn query_inv(&self) -> bool {
        self.store.inv()
    }

    fn get_product(&self, query: GetProduct) -> (r: Result<Option<Product>, Error>) {
        Ok(self.store.get_product(query.id))
    }
}

/// Read one product from a store; absence is not an error.
pub fn get_product_query<TStore: ProductStore>(store: &TStore, query: GetProduct) -> (r: Result<
    Option<Product>,
    Error,
>)
    requires
        store.inv(),
    ensures
        match r {
            Ok(Some(p)) => store.products().contains_key(query.id@) && p.data
                == store.products()[query.id@] && p.data.id@ == query.id@,
            Ok(None) => !store.products().contains_key(query.id@),
            Err(_) => false,
        },
{
    Ok(store.get_product(query.id))
}

} // verus!
