//! The write-side command for orders: add or update a product line item.
//!
//! This is the representative command every other command follows: read,
//! classify, mutate, write, all inside one transaction, with identity
//! generation injected as a replaceable collaborator. Every failure is
//! surfaced verbatim as a typed error and nothing is persisted on any failure
//! path.

use vstd::prelude::*;

verus! {

use crate::error::Error;
use crate::id::IdProvider;
use crate::order_store::{stamped_line_item, stamped_order, OrderStore, StoredOrder};
use crate::orders::{
    has_product,
    index_of_product,
    item_for_product,
    IntoLineItem,
    LineItemData,
    LineItemId,
    LineItemTag,
    LineItemVersion,
    OrderId,
};
use crate::product_queries::{GetProduct, GetProductQuery};
use crate::products::{ProductData, ProductId};
use crate::transaction::ActiveTransactionProvider;

/// Input for an `AddOrUpdateProductCommand`.
#[derive(Clone, Copy)]
pub struct AddOrUpdateProduct {
    /// The order to change.
    pub id: OrderId,
    /// The product to add to the order, or whose line item to update.
    pub product_id: ProductId,
    /// The quantity the line item shall hold afterwards.
    pub quantity: u32,
}

/// What the command does to the stored orders, for each outcome, given the
/// catalog it could look products up in.
///
/// A missing order is `NotFound` and nothing changes. When the order already
/// references the product, a quantity below one is `InvariantViolation`;
/// otherwise the one line item for that product is replaced with the new
/// quantity, its version advanced by the store, and its identifier returned.
/// When the product is not yet in the order, the command may fail with
/// `ProviderFailure` if no identifier could be produced; a product missing
/// from the catalog is `NotFound`; a quantity below one is
/// `InvariantViolation`; otherwise a fresh line item capturing the product's
/// current price is appended, the whole order persisted with its root version
/// advanced, and the fresh identifier returned. On every failure the stored
/// orders are exactly what they were.
pub open spec fn add_or_update_post(
    pre: Map<u128, StoredOrder>,
    post: Map<u128, StoredOrder>,
    catalog: Map<u128, ProductData>,
    command: AddOrUpdateProduct,
    r: Result<LineItemId, Error>,
) -> bool {
    let oid = command.id@;
    let pid = command.product_id@;
    let q = command.quantity;
    let root = pre[oid].0;
    let items = pre[oid].1;
    let item = item_for_product(items, pid);
    let i = index_of_product(items, pid);
    if !pre.contains_key(oid) {
        r == Err::<LineItemId, Error>(Error::NotFound) && post == pre
    } else if has_product(items, pid) {
        if q < 1 {
            r == Err::<LineItemId, Error>(Error::InvariantViolation) && post == pre
        } else {
            &&& r == Ok::<LineItemId, Error>(item.id)
            &&& post == pre.insert(
                oid,
                (root, items.update(i, stamped_line_item(LineItemData { quantity: q, ..item }))),
            )
        }
    } else {
        match r {
            Ok(id) => {
                &&& catalog.contains_key(pid)
                &&& q >= 1
                &&& exists|li: LineItemData|
                    #![auto]
                    {
                        &&& li.id == id
                        &&& li.version@ == 0
                        &&& li.product_id@ == pid
                        &&& li.price == catalog[pid].price
                        &&& li.quantity == q
                        &&& post == pre.insert(oid, (stamped_order(root), items.push(li)))
                    }
            },
            Err(Error::ProviderFailure) => post == pre,
            Err(Error::NotFound) => !catalog.contains_key(pid) && post == pre,
            Err(Error::InvariantViolation) => catalog.contains_key(pid) && q < 1 && post == pre,
            Err(_) => false,
        }
    }
}

/// Add or update a product line item on an order.
pub trait AddOrUpdateProductCommand {
    /// The stored orders this command operates on.
    spec fn command_orders(&self) -> Map<u128, StoredOrder>;

    /// The catalog this command looks products up in.
    spec fn command_catalog(&self) -> Map<u128, ProductData>;

    /// The command target's internal well-formedness.
    spec fn command_inv(&self) -> bool;

    /// Produce the identifier of the resulting line item, newly created or
    /// pre-existing, or fail; the catalog is never changed.
    fn add_or_update_product(&mut self, command: AddOrUpdateProduct) -> (r: Result<
        LineItemId,
        Error,
    >)
        requires
            old(self).command_inv(),
        ensures
            final(self).command_inv(),
            final(self).command_catalog() == old(self).command_catalog(),
            add_or_update_post(
                old(self).command_orders(),
                final(self).command_orders(),
                old(self).command_catalog(),
                command,
                r,
            ),
    ;
}

/// Run one add-or-update invocation against the given collaborators. All
/// reads and writes share the one transaction obtained at entry, and the
/// transaction handle is released on every exit path.
pub fn run_add_or_update_product<TTx, TStore, TId, TQuery>(
    transaction_provider: &TTx,
    store: &mut TStore,
    id_provider: &TId,
    query: &TQuery,
    command: AddOrUpdateProduct,
) -> (r: Result<LineItemId, Error>) where
    TTx: ActiveTransactionProvider,
    TStore: OrderStore,
    TId: IdProvider<LineItemTag>,
    TQuery: GetProductQuery,

    requires
        old(store).inv(),
        query.query_inv(),
    ensures
        final(store).inv(),
        add_or_update_post(
            old(store).orders(),
            final(store).orders(),
            query.visible_products(),
            command,
            r,
        ),
{
    let transaction = transaction_provider.active();
    let order = match store.get_order(command.id) {
        Some(order) => order,
        None => {
            return Err(Error::NotFound);
        },
    };
    let ghost items = order.line_items@;
    let ghost root = order.order;
    let ghost pid = command.product_id@;
    match order.into_line_item_for_product(command.product_id) {
        IntoLineItem::InOrder(mut line_item) => {
            let id = line_item.to_data().1.id;
            match line_item.set_quantity(command.quantity) {
                Ok(()) => {},
                Err(e) => {
                    return Err(e);
                },
            }
            proof {
                assert(items[index_of_product(items, pid)].product_id@ == pid);
            }
            match store.set_line_item(transaction.get(), line_item) {
                Ok(()) => Ok(id),
                Err(e) => {
                    proof {
                        assert(false);
                    }
                    Err(e)
                },
            }
        },
        IntoLineItem::NotInOrder(mut order) => {
            let id = match id_provider.id() {
                Ok(id) => id,
                Err(_) => {
                    return Err(Error::ProviderFailure);
                },
            };
            let product = match query.get_product(GetProduct { id: command.product_id }) {
                Ok(Some(product)) => product,
                Ok(None) => {
                    return Err(Error::NotFound);
                },
                Err(e) => {
                    proof {
                        assert(false);
                    }
                    return Err(e);
                },
            };
            match order.add_product_with_id(id, &product, command.quantity) {
                Ok(()) => {},
                Err(e) => {
                    return Err(e);
                },
            }
            proof {
                LineItemVersion::lemma_initial();
            }
            match store.set_order(transaction.get(), order) {
                Ok(()) => {
                    proof {
                        let li = LineItemData {
                            id,
                            version: LineItemVersion::spec_initial(),
                            product_id: product.data.id,
                            price: product.data.price,
                            quantity: command.quantity,
                        };
                        assert(li.id == id && li.version@ == 0 && li.product_id@ == pid
                            && li.price == query.visible_products()[pid].price && li.quantity
                            == command.quantity && store.orders() == old(store).orders().insert(
                            command.id@,
                            (stamped_order(root), items.push(li)),
                        ));
                    }
                    Ok(id)
                },
                Err(e) => {
                    proof {
                        assert(false);
                    }
                    Err(e)
                },
            }
        },
    }
}

/// A command object over owned collaborators, as the wiring layer hands
/// commands to callers.
pub struct OrderCommands<TTx, TStore, TId, TQuery> {
    /// The source of the transaction scoping each invocation.
    pub transaction_provider: TTx,
    /// The order store the command reads and writes.
    pub store: TStore,
    /// The provider minting identifiers for new line items.
    pub id_provider: TId,
    /// The product lookup the command consults.
    pub query: TQuery,
}

impl<TTx, TStore, TId, TQuery> AddOrUpdateProductCommand for OrderCommands<
    TTx,
    TStore,
    TId,
    TQuery,
> where
    TTx: ActiveTransactionProvider,
    TStore: OrderStore,
    TId: IdProvider<LineItemTag>,
    TQuery: GetProductQuery,
 {
    open spec fn command_orders(&self) -> Map<u128, StoredOrder> {
        self.store.orders()
    }

    open spec fn command_catalog(&self) -> Map<u128, ProductData> {
        self.query.visible_products()
    }

    open spec fn command_inv(&self) -> bool {
        self.store.inv() && self.query.query_inv()
    }

    fn add_or_update_product(&mut self, command: AddOrUpdateProduct) -> (r: Result<
        LineItemId,
        Error,
    >) {
        run_add_or_update_product(
            &self.transaction_provider,
            &mut self.store,
            &self.id_provider,
            &self.query,
            command,
        )
    }
}

/// The default wiring for an `AddOrUpdateProductCommand`, over the given
/// collaborators.
pub fn add_or_update_product_command<TTx, TStore, TId, TQuery>(
    transaction_provider: TTx,
    store: TStore,
    id_provider: TId,
    query: TQuery,
) -> (r: OrderCommands<TTx, TStore, TId, TQuery>) where
    TTx: ActiveTransactionProvider,
    TStore: OrderStore,
    TId: IdProvider<LineItemTag>,
    TQuery: GetProductQuery,

    ensures
        r.store == store,
        r.query == query,
{
    OrderCommands { transaction_provider, store, id_provider, query }
}

} // verus!
