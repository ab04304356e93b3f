//! The order store contract and its in-memory implementation.
//!
//! The store is the sole authority for a durable copy of an order and its
//! line items; an aggregate in memory is a transient projection of store
//! state. Writes are guarded by an optimistic version check — a write is
//! rejected with `ConcurrencyConflict` when the stored version no longer
//! equals the version the writer last read — and an accepted write persists
//! the written record with its version advanced exactly once. Writes are
//! atomic per order: a reader sees a whole order, never part of one.

use vstd::prelude::*;

verus! {

use std::collections::HashMap;
use crate::error::Error;
use crate::orders::{
    has_product,
    unique_products,
    valid_quantities,
    LineItemData,
    LineItemId,
    Order,
    OrderData,
    OrderId,
    OrderLineItem,
};
use crate::transaction::ActiveTransaction;
use crate::version::Version;

broadcast use vstd::std_specs::hash::group_hash_axioms;

/// One stored order: the root record and its line items, in insertion order.
pub type StoredOrder = (OrderData, Seq<LineItemData>);

/// Whether a presented root's version admits a write: an order absent from
/// the store is created from the initial stamp, a present one must carry
/// exactly the stored stamp.
pub open spec fn order_write_allowed(orders: Map<u128, StoredOrder>, data: OrderData) -> bool {
    if orders.contains_key(data.id@) {
        orders[data.id@].0.version@ == data.version@
    } else {
        data.version@ == 0
    }
}

/// The root record as an accepted write persists it: as presented, with the
/// version stamp advanced once.
pub open spec fn stamped_order(data: OrderData) -> OrderData {
    OrderData { version: data.version.spec_advanced(), ..data }
}

/// The line item as an accepted line-item write persists it: as presented,
/// with the version stamp advanced once.
pub open spec fn stamped_line_item(item: LineItemData) -> LineItemData {
    LineItemData { version: item.version.spec_advanced(), ..item }
}

/// Whether position `i` holds the first line item carrying the given
/// identifier value.
pub open spec fn first_item_with_id(items: Seq<LineItemData>, lid: u128, i: int) -> bool {
    &&& 0 <= i < items.len()
    &&& items[i].id@ == lid
    &&& forall|j: int| 0 <= j < i ==> items[j].id@ != lid
}

/// Whether some line item carries the given identifier value.
pub open spec fn has_item(items: Seq<LineItemData>, lid: u128) -> bool {
    exists|i: int| 0 <= i < items.len() && items[i].id@ == lid
}

/// What a line-item write does to the store, for each outcome. Within one
/// order the aggregate invariant makes the product the natural key of a line
/// item, so the write targets the line item for the written item's product
/// and checks that its identity and version still match what the writer
/// read. A missing order, product or identity is `NotFound`, a stale version
/// is `ConcurrencyConflict`, and a quantity below one is
/// `InvariantViolation`. Only a fully accepted write changes the store, and
/// it replaces exactly that item, with its version advanced once.
pub open spec fn set_line_item_post(
    pre: Map<u128, StoredOrder>,
    post: Map<u128, StoredOrder>,
    oli: OrderLineItem,
    r: Result<(), Error>,
) -> bool {
    let oid = oli.order.id@;
    let li = oli.line_item;
    let items = pre[oid].1;
    let i = crate::orders::index_of_product(items, li.product_id@);
    match r {
        Ok(()) => {
            &&& pre.contains_key(oid)
            &&& has_product(items, li.product_id@)
            &&& items[i].id@ == li.id@
            &&& items[i].version@ == li.version@
            &&& li.quantity >= 1
            &&& post == pre.insert(oid, (pre[oid].0, items.update(i, stamped_line_item(li))))
        },
        Err(Error::NotFound) => {
            &&& (!pre.contains_key(oid) || !has_product(items, li.product_id@) || items[i].id@
                != li.id@)
            &&& post == pre
        },
        Err(Error::ConcurrencyConflict) => {
            &&& pre.contains_key(oid)
            &&& has_product(items, li.product_id@)
            &&& items[i].id@ == li.id@
            &&& items[i].version@ != li.version@
            &&& post == pre
        },
        Err(Error::InvariantViolation) => {
            &&& pre.contains_key(oid)
            &&& has_product(items, li.product_id@)
            &&& items[i].id@ == li.id@
            &&& items[i].version@ == li.version@
            &&& li.quantity < 1
            &&& post == pre
        },
        Err(_) => false,
    }
}

/// The abstract store contract for orders and their line items.
pub trait OrderStore {
    /// The stored orders, keyed by order identifier value.
    spec fn orders(&self) -> Map<u128, StoredOrder>;

    /// The implementation's internal well-formedness.
    spec fn inv(&self) -> bool;

    /// Read one order and its line items; absence is not an error. The
    /// returned aggregate carries the stored state verbatim and is
    /// well-formed.
    fn get_order(&self, id: OrderId) -> (r: Option<Order>)
        requires
            self.inv(),
        ensures
            match r {
                Some(order) => {
                    &&& self.orders().contains_key(id@)
                    &&& order.order == self.orders()[id@].0
                    &&& order.line_items@ == self.orders()[id@].1
                    &&& order.order.id@ == id@
                    &&& order.wf()
                },
                None => !self.orders().contains_key(id@),
            },
    ;

    /// Write one whole order with its line items within the given
    /// transaction, atomically. Succeeds exactly when the presented root
    /// version admits the write, and then persists the root with its version
    /// advanced once and the line items verbatim; otherwise nothing changes.
    fn set_order(&mut self, transaction: &ActiveTransaction, order: Order) -> (r: Result<
        (),
        Error,
    >)
        requires
            old(self).inv(),
            order.wf(),
        ensures
            final(self).inv(),
            match r {
                Ok(()) => {
                    &&& order_write_allowed(old(self).orders(), order.order)
                    &&& final(self).orders() == old(self).orders().insert(
                        order.order.id@,
                        (stamped_order(order.order), order.line_items@),
                    )
                },
                Err(e) => {
                    &&& e == Error::ConcurrencyConflict
                    &&& !order_write_allowed(old(self).orders(), order.order)
                    &&& final(self).orders() == old(self).orders()
                },
            },
    ;

    /// Write one line item of a stored order within the given transaction,
    /// without rewriting the whole aggregate: the common "update quantity"
    /// path.
    fn set_line_item(&mut self, transaction: &ActiveTransaction, order_line_item: OrderLineItem)
        -> (r: Result<(), Error>)
        requires
            old(self).inv(),
        ensures
            final(self).inv(),
            set_line_item_post(old(self).orders(), final(self).orders(), order_line_item, r),
    ;

    /// Read one line item of a stored order: a read-side convenience for
    /// result confirmation, not part of the write path.
    fn get_line_item(&self, order_id: OrderId, line_item_id: LineItemId) -> (r: Option<
        OrderLineItem,
    >)
        requires
            self.inv(),
        ensures
            match r {
                Some(oli) => {
                    &&& self.orders().contains_key(order_id@)
                    &&& oli.order == self.orders()[order_id@].0
                    &&& exists|i: int|
                        #[trigger] first_item_with_id(self.orders()[order_id@].1, line_item_id@, i)
                            && oli.line_item == self.orders()[order_id@].1[i]
                },
                None => !self.orders().contains_key(order_id@) || !has_item(
                    self.orders()[order_id@].1,
                    line_item_id@,
                ),
            },
    ;
}

/// One stored order as the in-memory store lays it out.
struct StoredOrderRec {
    order: OrderData,
    line_items: Vec<LineItemData>,
}

/// The in-memory order store: a plain map from identifier value to the
/// stored order. Methods take the store exclusively, so each accepted write
/// is observed atomically by any later reader.
pub struct InMemoryOrderStore {
    orders: HashMap<u128, StoredOrderRec>,
}

/// A copy of a line-item vector.
fn copy_items(items: &Vec<LineItemData>) -> (r: Vec<LineItemData>)
    ensures
        r@ == items@,
{
    let mut r: Vec<LineItemData> = Vec::new();
    let mut i: usize = 0;
    while i < items.len()
        invariant
            i <= items@.len(),
            r@ =~= items@.subrange(0, i as int),
        decreases items@.len() - i,
    {
        r.push(items[i]);
        i = i + 1;
    }
    proof {
        assert(r@ =~= items@);
    }
    r
}

/// The position of the first line item carrying the given identifier, if
/// any.
fn find_item(items: &Vec<LineItemData>, id: LineItemId) -> (r: Option<usize>)
    ensures
        match r {
            Some(i) => first_item_with_id(items@, id@, i as int),
            None => !has_item(items@, id@),
        },
{
    let mut i: usize = 0;
    while i < items.len()
        invariant
            i <= items@.len(),
            forall|j: int| 0 <= j < i ==> items@[j].id@ != id@,
        decreases items@.len() - i,
    {
        if items[i].id == id {
            return Some(i);
        }
        i = i + 1;
    }
    None
}

impl InMemoryOrderStore {
    /// An empty order store.
    pub fn new() -> (r: InMemoryOrderStore)
        ensures
            r.orders() == Map::<u128, StoredOrder>::empty(),
            r.inv(),
    {
        let r = InMemoryOrderStore { orders: HashMap::new() };
        proof {
            assert(r.orders() =~= Map::<u128, StoredOrder>::empty());
        }
        r
    }
}

impl OrderStore for InMemoryOrderStore {
    closed spec fn orders(&self) -> Map<u128, StoredOrder> {
        self.orders@.map_values(|s: StoredOrderRec| (s.order, s.line_items@))
    }

    closed spec fn inv(&self) -> bool {
        forall|k: u128| #[trigger]
            self.orders@.contains_key(k) ==> {
                &&& self.orders@[k].order.id@ == k
                &&& unique_products(self.orders@[k].line_items@)
                &&& valid_quantities(self.orders@[k].line_items@)
            }
    }

    fn get_order(&self, id: OrderId) -> (r: Option<Order>) {
        match self.orders.get(&id.value()) {
            Some(stored) => Some(
                Order { order: stored.order, line_items: copy_items(&stored.line_items) },
            ),
            None => None,
        }
    }

    fn set_order(&mut self, transaction: &ActiveTransaction, order: Order) -> (r: Result<
        (),
        Error,
    >) {
        let key = order.order.id.value();
        proof {
            crate::orders::OrderVersion::lemma_initial();
        }
        let allowed = match self.orders.get(&key) {
            Some(stored) => stored.order.version == order.order.version,
            None => order.order.version == Version::default(),
        };
        if allowed {
            let ghost presented = order;
            let (mut data, line_items) = order.into_data();
            let advanced = data.version.advanced();
            data.version = advanced;
            self.orders.insert(key, StoredOrderRec { order: data, line_items });
            proof {
                assert(self.orders() =~= old(self).orders().insert(
                    key,
                    (stamped_order(presented.order), presented.line_items@),
                ));
            }
            Ok(())
        } else {
            Err(Error::ConcurrencyConflict)
        }
    }

    fn set_line_item(&mut self, transaction: &ActiveTransaction, order_line_item: OrderLineItem)
        -> (r: Result<(), Error>) {
        let key = order_line_item.order.id.value();
        let li = order_line_item.line_item;
        let stored = match self.orders.get(&key) {
            Some(stored) => stored,
            None => {
                return Err(Error::NotFound);
            },
        };
        let i = match Order::find_product(&stored.line_items, li.product_id) {
            Some(i) => i,
            None => {
                return Err(Error::NotFound);
            },
        };
        proof {
            crate::orders::lemma_item_for_product(stored.line_items@, li.product_id@, i as int);
        }
        if !(stored.line_items[i].id == li.id) {
            return Err(Error::NotFound);
        }
        if !(stored.line_items[i].version == li.version) {
            return Err(Error::ConcurrencyConflict);
        }
        if li.quantity < 1 {
            return Err(Error::InvariantViolation);
        }
        let root = stored.order;
        let mut new_items = copy_items(&stored.line_items);
        let mut new_li = li;
        let advanced = new_li.version.advanced();
        new_li.version = advanced;
        new_items[i] = new_li;
        let ghost pre_items = stored.line_items@;
        self.orders.insert(key, StoredOrderRec { order: root, line_items: new_items });
        proof {
            assert(new_li == stamped_line_item(li));
            assert(self.orders() =~= old(self).orders().insert(
                key,
                (old(self).orders()[key].0, pre_items.update(i as int, stamped_line_item(li))),
            ));
            assert forall|a: int, b: int|
                0 <= a < b < pre_items.update(i as int, new_li).len() implies pre_items.update(
                i as int,
                new_li,
            )[a].product_id@ != pre_items.update(i as int, new_li)[b].product_id@ by {
                assert(pre_items[a].product_id@ != pre_items[b].product_id@);
            }
        }
        Ok(())
    }

    fn get_line_item(&self, order_id: OrderId, line_item_id: LineItemId) -> (r: Option<
        OrderLineItem,
    >) {
        let stored = match self.orders.get(&order_id.value()) {
            Some(stored) => stored,
            None => {
                return None;
            },
        };
        match find_item(&stored.line_items, line_item_id) {
            Some(i) => {
                proof {
                    assert(first_item_with_id(self.orders()[order_id@].1, line_item_id@, i as int));
                }
                Some(OrderLineItem { order: stored.order, line_item: stored.line_items[i] })
            },
            None => None,
        }
    }
}

/// An empty in-memory order store.
pub fn in_memory_store() -> (r: InMemoryOrderStore)
    ensures
        r.orders() == Map::<u128, StoredOrder>::empty(),
        r.inv(),
{
    InMemoryOrderStore::new()
}

} // verus!
