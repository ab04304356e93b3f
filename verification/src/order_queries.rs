//! The read-side query for one order.

use vstd::prelude::*;

verus! {

use crate::error::Error;
use crate::order_store::{OrderStore, StoredOrder};
use crate::orders::{Order, OrderId};

/// Input for a `GetOrderQuery`.
#[derive(Clone, Copy)]
pub struct GetOrder {
    /// The identifier of the order to read.
    pub id: OrderId,
}

/// Get an order entity: a query-only read path that mutates nothing.
pub trait GetOrderQuery {
    /// The orders this query source can see.
    spec fn visible_orders(&self) -> Map<u128, StoredOrder>;

    /// The query source's internal well-formedness.
    spec fn query_inv(&self) -> bool;

    /// Read one order and its line items; absence is not an error.
    fn get_order(&self, query: GetOrder) -> (r: Result<Option<Order>, Error>)
        requires
            self.query_inv(),
        ensures
            match r {
                Ok(Some(order)) => {
                    &&& self.visible_orders().contains_key(query.id@)
                    &&& order.order == self.visible_orders()[query.id@].0
                    &&& order.line_items@ == self.visible_orders()[query.id@].1
                    &&& order.order.id@ == query.id@
                    &&& order.wf()
                },
                Ok(None) => !self.visible_orders().contains_key(query.id@),
                Err(_) => false,
            },
    ;
}

/// A query source backed by an order store.
pub struct StoreOrderQuery<TStore> {
    /// The store the query reads.
    pub store: TStore,
}

impl<TStore: OrderStore> GetOrderQuery for StoreOrderQuery<TStore> {
    open spec fn visible_orders(&self) -> Map<u128, StoredOrder> {
        self.store.orders()
    }

    open spec fn query_inv(&self) -> bool {
        self.store.inv()
    }

    fn get_order(&self, query: GetOrder) -> (r: Result<Option<Order>, Error>) {
        Ok(self.store.get_order(query.id))
    }
}

/// Read one order from a store; absence is not an error.
pub fn get_order_query<TStore: OrderStore>(store: &TStore, query: GetOrder) -> (r: Result<
    Option<Order>,
    Error,
>)
    requires
        store.inv(),
    ensures
        match r {
            Ok(Some(order)) => {
                &&& store.orders().contains_key(query.id@)
                &&& order.order == store.orders()[query.id@].0
                &&& order.line_items@ == store.orders()[query.id@].1
                &&& order.order.id@ == query.id@
                &&& order.wf()
            },
            Ok(None) => !store.orders().contains_key(query.id@),
            Err(_) => false,
        },
{
    Ok(store.get_order(query.id))
}

} // verus!
