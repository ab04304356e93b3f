//! Explicit wiring of the default collaborators.
//!
//! A resolver owns the in-memory stores and wires commands and queries to
//! them; no process-wide singleton is involved, and each collaborator's
//! lifetime is scoped by whoever constructs the resolver. It is plumbing, not
//! domain logic: every operation delegates to the verified command or query
//! it wires up, and its contracts are stated directly over the owned stores.

use vstd::prelude::*;

verus! {

use crate::error::Error;
use crate::id::NextId;
use crate::order_commands::{add_or_update_post, run_add_or_update_product, AddOrUpdateProduct};
use crate::order_queries::{get_order_query, GetOrder};
use crate::order_store::{in_memory_store, InMemoryOrderStore, OrderStore, StoredOrder};
use crate::orders::{LineItemId, NextLineItemId, NextOrderId, Order};
use crate::product_commands::{
    set_product_command,
    set_product_result,
    set_product_title_command,
    set_title_result,
    SetProduct,
    SetProductTitle,
};
use crate::product_queries::{get_product_query, GetProduct, StoreProductQuery};
use crate::product_store::{product_store, InMemoryProductStore, ProductStore};
use crate::products::{NextProductId, Product, ProductData};
use crate::transaction::{ActiveTransactionProvider, NoTransaction};

/// The default wiring: one in-memory store per aggregate type, generating
/// identity providers, and a transaction provider that scopes each command
/// invocation on its own.
pub struct Resolver {
    /// The product catalog, wrapped as the lookup capability commands
    /// consume.
    pub product_query: StoreProductQuery<InMemoryProductStore>,
    /// The order store.
    pub order_store: InMemoryOrderStore,
}

impl Default for Resolver {
    /// A resolver over empty stores.
    fn default() -> (r: Resolver)
        ensures
            r.product_query.store.inv(),
            r.order_store.inv(),
            r.product_query.store.products() == Map::<u128, ProductData>::empty(),
            r.order_store.orders() == Map::<u128, StoredOrder>::empty(),
    {
        Resolver {
            product_query: StoreProductQuery { store: product_store() },
            order_store: in_memory_store(),
        }
    }
}

impl Resolver {
    /// The product store this resolver wires commands to.
    pub fn product_store(&mut self) -> (r: &mut InMemoryProductStore)
        ensures
            *r == old(self).product_query.store,
            final(self).product_query.store == *final(r),
            final(self).order_store == old(self).order_store,
    {
        &mut self.product_query.store
    }

    /// The order store this resolver wires commands to.
    pub fn order_store(&mut self) -> (r: &mut InMemoryOrderStore)
        ensures
            *r == old(self).order_store,
            final(self).order_store == *final(r),
            final(self).product_query == old(self).product_query,
    {
        &mut self.order_store
    }

    /// The store of orders together with their line items: the same store,
    /// in its role as the aggregate's one authority.
    pub fn order_with_items_store(&mut self) -> (r: &mut InMemoryOrderStore)
        ensures
            *r == old(self).order_store,
            final(self).order_store == *final(r),
            final(self).product_query == old(self).product_query,
    {
        &mut self.order_store
    }

    /// A generating identity provider for products.
    pub fn product_id_provider(&self) -> NextProductId {
        NextId::new()
    }

    /// A generating identity provider for orders.
    pub fn order_id_provider(&self) -> NextOrderId {
        NextId::new()
    }

    /// A generating identity provider for line items.
    pub fn line_item_id_provider(&self) -> NextLineItemId {
        NextId::new()
    }

    /// Get a product.
    pub fn get_product_query(&self, query: GetProduct) -> (r: Result<Option<Product>, Error>)
        requires
            self.product_query.store.inv(),
        ensures
            match r {
                Ok(Some(p)) => self.product_query.store.products().contains_key(query.id@)
                    && p.data == self.product_query.store.products()[query.id@] && p.data.id@
                    == query.id@,
                Ok(None) => !self.product_query.store.products().contains_key(query.id@),
                Err(_) => false,
            },
    {
        get_product_query(&self.product_query.store, query)
    }

    /// Get an order.
    pub fn get_order_query(&self, query: GetOrder) -> (r: Result<Option<Order>, Error>)
        requires
            self.order_store.inv(),
        ensures
            match r {
                Ok(Some(order)) => {
                    &&& self.order_store.orders().contains_key(query.id@)
                    &&& order.order == self.order_store.orders()[query.id@].0
                    &&& order.line_items@ == self.order_store.orders()[query.id@].1
                    &&& order.wf()
                },
                Ok(None) => !self.order_store.orders().contains_key(query.id@),
                Err(_) => false,
            },
    {
        get_order_query(&self.order_store, query)
    }

    /// Create a product or update its title.
    pub fn set_product_command(&mut self, command: SetProduct) -> (r: Result<(), Error>)
        requires
            old(self).product_query.store.inv(),
        ensures
            final(self).product_query.store.inv(),
            r == Ok::<(), Error>(()),
            final(self).product_query.store.products() == set_product_result(
                old(self).product_query.store.products(),
                command,
            ),
            final(self).order_store == old(self).order_store,
    {
        let transaction = NoTransaction.active();
        set_product_command(&mut self.product_query.store, &transaction, command)
    }

    /// Set a new title for an existing product.
    pub fn set_product_title_command(&mut self, command: SetProductTitle) -> (r: Result<(), Error>)
        requires
            old(self).product_query.store.inv(),
        ensures
            final(self).product_query.store.inv(),
            final(self).order_store == old(self).order_store,
            match r {
                Ok(()) => {
                    &&& old(self).product_query.store.products().contains_key(command.id@)
                    &&& final(self).product_query.store.products() == set_title_result(
                        old(self).product_query.store.products(),
                        command,
                    )
                },
                Err(e) => {
                    &&& e == Error::NotFound
                    &&& !old(self).product_query.store.products().contains_key(command.id@)
                    &&& final(self).product_query.store.products() == old(
                        self,
                    ).product_query.store.products()
                },
            },
    {
        let transaction = NoTransaction.active();
        set_product_title_command(&mut self.product_query.store, &transaction, command)
    }

    /// Add or update a product line item on an order.
    pub fn add_or_update_product_command(&mut self, command: AddOrUpdateProduct) -> (r: Result<
        LineItemId,
        Error,
    >)
        requires
            old(self).order_store.inv(),
            old(self).product_query.store.inv(),
        ensures
            final(self).order_store.inv(),
            final(self).product_query == old(self).product_query,
            add_or_update_post(
                old(self).order_store.orders(),
                final(self).order_store.orders(),
                old(self).product_query.store.products(),
                command,
                r,
            ),
    {
        let id_provider: NextLineItemId = NextId::new();
        run_add_or_update_product(
            &NoTransaction,
            &mut self.order_store,
            &id_provider,
            &self.product_query,
            command,
        )
    }
}

} // verus!
