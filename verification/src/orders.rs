//! The order aggregate and its line items.
//!
//! An order owns its line items exclusively: no line item is addressable in
//! the domain model apart from its parent order. The aggregate enforces two
//! invariants across the whole cluster: no two line items of one order
//! reference the same product, and every quantity is at least one. An
//! in-memory aggregate instance is a transient projection of store state for
//! the lifetime of one command.

use vstd::prelude::*;

verus! {

use crate::customers::{Customer, CustomerId};
use crate::entity::Entity;
use crate::error::Error;
use crate::id::{Id, IdProvider, NextId};
use crate::version::Version;

/// The marker naming the order entity kind in tagged identifiers.
#[derive(Clone, Copy, Debug)]
pub struct OrderTag;

/// The marker naming the line-item entity kind in tagged identifiers.
#[derive(Clone, Copy, Debug)]
pub struct LineItemTag;

/// The identifier of an order.
pub type OrderId = Id<OrderTag>;

/// The generating identity provider for orders.
pub type NextOrderId = NextId<OrderTag>;

/// The version stamp of an order.
pub type OrderVersion = Version<OrderTag>;

/// The identifier of a line item.
pub type LineItemId = Id<LineItemTag>;

/// The generating identity provider for line items.
pub type NextLineItemId = NextId<LineItemTag>;

/// The version stamp of a line item.
pub type LineItemVersion = Version<LineItemTag>;

/// Whether some line item references the product with the given identifier
/// value.
pub open spec fn has_product(items: Seq<LineItemData>, pid: u128) -> bool {
    exists|i: int| 0 <= i < items.len() && items[i].product_id@ == pid
}

/// The position of the line item referencing the given product. Meaningful
/// when the product is present; unambiguous when products are unique.
pub open spec fn index_of_product(items: Seq<LineItemData>, pid: u128) -> int {
    choose|i: int| 0 <= i < items.len() && items[i].product_id@ == pid
}

/// The line item referencing the given product.
pub open spec fn item_for_product(items: Seq<LineItemData>, pid: u128) -> LineItemData {
    items[index_of_product(items, pid)]
}

/// No two line items reference the same product: the central rule the
/// aggregate exists to enforce.
pub open spec fn unique_products(items: Seq<LineItemData>) -> bool {
    forall|i: int, j: int|
        0 <= i < j < items.len() ==> items[i].product_id@ != items[j].product_id@
}

/// Every line item's quantity is at least one.
pub open spec fn valid_quantities(items: Seq<LineItemData>) -> bool {
    forall|i: int| 0 <= i < items.len() ==> items[i].quantity >= 1
}

/// When products are unique, at most one line item references a given
/// product: classification is a function of the order's state, so repeating
/// it returns the same line item every time.
pub proof fn lemma_item_for_product(items: Seq<LineItemData>, pid: u128, i: int)
    requires
        unique_products(items),
        0 <= i < items.len(),
        items[i].product_id@ == pid,
    ensures
        index_of_product(items, pid) == i,
        item_for_product(items, pid) == items[i],
{
    let j = index_of_product(items, pid);
    assert(0 <= j < items.len() && items[j].product_id@ == pid);
    if i < j {
        assert(items[i].product_id@ != items[j].product_id@);
    } else if j < i {
        assert(items[j].product_id@ != items[i].product_id@);
    }
}

/// Adding a line item for a product that was absent makes the order contain
/// that product, and the appended item is the only line item referencing it:
/// exactly one new line item, carrying the quantity and the captured price it
/// was built with.
pub proof fn lemma_add_product_effect(items: Seq<LineItemData>, li: LineItemData)
    requires
        !has_product(items, li.product_id@),
    ensures
        has_product(items.push(li), li.product_id@),
        forall|i: int|
            0 <= i < items.push(li).len() && items.push(li)[i].product_id@ == li.product_id@
                ==> items.push(li)[i] == li && i == items.len(),
{
    let post = items.push(li);
    assert(post[items.len() as int] == li);
    assert forall|i: int|
        0 <= i < post.len() && post[i].product_id@ == li.product_id@ implies post[i] == li && i
        == items.len() by {
        if i < items.len() {
            assert(items[i] == post[i]);
        }
    }
}

/// Replacing a line item with one referencing the same product never changes
/// which products an order references: per product, an order moves from
/// absent to present when the product is added, and a quantity update keeps
/// it present; nothing moves a product back to absent.
pub proof fn lemma_update_keeps_products(
    items: Seq<LineItemData>,
    i: int,
    item: LineItemData,
    pid: u128,
)
    requires
        0 <= i < items.len(),
        items[i].product_id@ == item.product_id@,
    ensures
        has_product(items.update(i, item), pid) <==> has_product(items, pid),
{
    let post = items.update(i, item);
    if has_product(items, pid) {
        let j = choose|j: int| 0 <= j < items.len() && items[j].product_id@ == pid;
        if j == i {
            assert(post[i].product_id@ == pid);
        } else {
            assert(post[j].product_id@ == pid);
        }
    }
    if has_product(post, pid) {
        let j = choose|j: int| 0 <= j < post.len() && post[j].product_id@ == pid;
        if j == i {
            assert(items[i].product_id@ == pid);
        } else {
            assert(items[j].product_id@ == pid);
        }
    }
}

/// An order item quantity: always at least one.
pub struct Quantity {
    value: u32,
}

impl View for Quantity {
    type V = u32;

    closed spec fn view(&self) -> u32 {
        self.value
    }
}

impl Quantity {
    /// Validate a raw quantity. Fails with `InvariantViolation` exactly when
    /// the quantity is below one.
    pub fn try_from(quantity: u32) -> (r: Result<Quantity, Error>)
        ensures
            match r {
                Ok(q) => quantity >= 1 && q@ == quantity,
                Err(e) => e == Error::InvariantViolation && quantity < 1,
            },
    {
        if quantity < 1 {
            Err(Error::InvariantViolation)
        } else {
            Ok(Quantity { value: quantity })
        }
    }

    /// The validated raw value.
    pub fn value(&self) -> (v: u32)
        ensures
            v == self@,
    {
        self.value
    }
}

/// The plain persisted representation of an order root.
#[derive(Clone, Copy)]
pub struct OrderData {
    /// The order's identifier.
    pub id: OrderId,
    /// The order's version stamp.
    pub version: OrderVersion,
    /// The identifier of the customer who placed the order.
    pub customer_id: CustomerId,
}

/// The plain persisted representation of one line item.
#[derive(Clone, Copy)]
pub struct LineItemData {
    /// The line item's identifier.
    pub id: LineItemId,
    /// The line item's version stamp.
    pub version: LineItemVersion,
    /// The product this line item references.
    pub product_id: crate::products::ProductId,
    /// The unit price captured when the product was added; a snapshot, not a
    /// live reference to the catalog.
    pub price: u32,
    /// How many units the line item orders; always at least one.
    pub quantity: u32,
}

/// An order and its line items.
///
/// Products can be added to an order as a line item, so long as the product
/// is not already there.
pub struct Order {
    /// The order root's persisted representation.
    pub order: OrderData,
    /// The line items, ordered by insertion.
    pub line_items: Vec<LineItemData>,
}

/// An order and the one of its line items singled out for mutation.
pub struct OrderLineItem {
    /// The order root's persisted representation.
    pub order: OrderData,
    /// The line item singled out by classification.
    pub line_item: LineItemData,
}

/// The two outcomes of classifying an order against a product: the order
/// paired with its one matching line item, or the whole order unchanged.
pub enum IntoLineItem {
    /// The product is already in the order; its line item can be mutated in
    /// isolation.
    InOrder(OrderLineItem),
    /// The product is not in the order; a new line item can be added.
    NotInOrder(Order),
}

impl OrderLineItem {
    /// The pair rebuilt from its parts.
    pub fn from_data(order: OrderData, line_item: LineItemData) -> (r: OrderLineItem)
        ensures
            r.order == order,
            r.line_item == line_item,
    {
        OrderLineItem { order, line_item }
    }

    /// The owning order's identifier and the line item, consuming the pair.
    pub fn into_data(self) -> (r: (OrderId, LineItemData))
        ensures
            r == (self.order.id, self.line_item),
    {
        (self.order.id, self.line_item)
    }

    /// The owning order's identifier and the line item, borrowed.
    pub fn to_data(&self) -> (r: (OrderId, &LineItemData))
        ensures
            r.0 == self.order.id,
            r.1 == &self.line_item,
    {
        (self.order.id, &self.line_item)
    }

    /// Replace the line item's quantity after validating it. Fails with
    /// `InvariantViolation` exactly when the quantity is below one, and then
    /// mutates nothing. Price and product identity are immutable.
    pub fn set_quantity(&mut self, quantity: u32) -> (r: Result<(), Error>)
        ensures
            match r {
                Ok(()) => {
                    &&& quantity >= 1
                    &&& final(self).order == old(self).order
                    &&& final(self).line_item == (LineItemData {
                        quantity,
                        ..old(self).line_item
                    })
                },
                Err(e) => {
                    &&& e == Error::InvariantViolation
                    &&& quantity < 1
                    &&& *final(self) == *old(self)
                },
            },
    {
        let quantity = match Quantity::try_from(quantity) {
            Ok(q) => q,
            Err(e) => {
                return Err(e);
            },
        };
        self.line_item.quantity = quantity.value();
        Ok(())
    }
}

impl Order {
    /// The line items as a mathematical sequence.
    pub open spec fn items(&self) -> Seq<LineItemData> {
        self.line_items@
    }

    /// The aggregate's invariants: unique products and valid quantities.
    pub open spec fn wf(&self) -> bool {
        unique_products(self.line_items@) && valid_quantities(self.line_items@)
    }

    /// The order rebuilt from its parts.
    pub fn from_data(order: OrderData, line_items: Vec<LineItemData>) -> (r: Order)
        ensures
            r.order == order,
            r.line_items == line_items,
    {
        Order { order, line_items }
    }

    /// The persisted parts, consuming the aggregate.
    pub fn into_data(self) -> (r: (OrderData, Vec<LineItemData>))
        ensures
            r == (self.order, self.line_items),
    {
        (self.order, self.line_items)
    }

    /// The persisted parts, borrowed.
    pub fn to_data(&self) -> (r: (&OrderData, &Vec<LineItemData>))
        ensures
            r.0 == &self.order,
            r.1 == &self.line_items,
    {
        (&self.order, &self.line_items)
    }

    /// The position of the first line item referencing the given product, if
    /// any.
    pub(crate) fn find_product(items: &Vec<LineItemData>, product_id: crate::products::ProductId)
        -> (r: Option<usize>)
        ensures
            match r {
                Some(i) => i < items@.len() && items@[i as int].product_id@ == product_id@
                    && forall|j: int| 0 <= j < i ==> items@[j].product_id@ != product_id@,
                None => !has_product(items@, product_id@),
            },
    {
        let mut i: usize = 0;
        while i < items.len()
            invariant
                i <= items@.len(),
                forall|j: int| 0 <= j < i ==> items@[j].product_id@ != product_id@,
            decreases items@.len() - i,
        {
            if items[i].product_id == product_id {
                return Some(i);
            }
            i = i + 1;
        }
        None
    }

    /// A brand-new order for the given customer, with no line items, under an
    /// identifier of the caller's choosing.
    pub fn new_with_id(id: OrderId, customer: &Customer) -> (r: Order)
        ensures
            r.order.id == id,
            r.order.version == OrderVersion::spec_initial(),
            r.order.version@ == 0u64,
            r.order.customer_id == customer.data.id,
            r.line_items@ == Seq::<LineItemData>::empty(),
            r.wf(),
    {
        let customer_id = customer.to_data().id;
        let order = OrderData { id, version: Version::default(), customer_id };
        let r = Order { order, line_items: Vec::new() };
        proof {
            assert(r.line_items@ =~= Seq::<LineItemData>::empty());
        }
        r
    }

    /// A brand-new order for the given customer, with no line items, under an
    /// identifier the provider produces. Fails only when the provider does.
    pub fn new<TId: IdProvider<OrderTag>>(id_provider: TId, customer: &Customer) -> (r: Result<
        Order,
        Error,
    >)
        ensures
            match r {
                Ok(o) => {
                    &&& o.order.version == OrderVersion::spec_initial()
                    &&& o.order.version@ == 0u64
                    &&& o.order.customer_id == customer.data.id
                    &&& o.line_items@ == Seq::<LineItemData>::empty()
                    &&& o.wf()
                },
                Err(e) => e == Error::ProviderFailure,
            },
    {
        let id = match id_provider.id() {
            Ok(id) => id,
            Err(_) => {
                return Err(Error::ProviderFailure);
            },
        };
        Ok(Order::new_with_id(id, customer))
    }

    /// Whether the order already references the given product, by a scan of
    /// its line items.
    pub fn contains_product(&self, product_id: crate::products::ProductId) -> (r: bool)
        ensures
            r == has_product(self.line_items@, product_id@),
    {
        Order::find_product(&self.line_items, product_id).is_some()
    }

    /// Append a new line item for a product that is not yet in the order,
    /// under an identifier of the caller's choosing, capturing the product's
    /// current price. Succeeds exactly when the product is absent and the
    /// quantity is at least one; on failure nothing is mutated. A well-formed
    /// order stays well-formed.
    pub fn add_product_with_id(
        &mut self,
        id: LineItemId,
        product: &crate::products::Product,
        quantity: u32,
    ) -> (r: Result<(), Error>)
        ensures
            match r {
                Ok(()) => {
                    &&& !has_product(old(self).line_items@, product.data.id@)
                    &&& quantity >= 1
                    &&& final(self).order == old(self).order
                    &&& final(self).line_items@ == old(self).line_items@.push(
                        LineItemData {
                            id,
                            version: LineItemVersion::spec_initial(),
                            product_id: product.data.id,
                            price: product.data.price,
                            quantity,
                        },
                    )
                    &&& old(self).wf() ==> final(self).wf()
                },
                Err(e) => {
                    &&& e == Error::InvariantViolation
                    &&& (has_product(old(self).line_items@, product.data.id@) || quantity < 1)
                    &&& *final(self) == *old(self)
                },
            },
    {
        if self.contains_product(product.data.id) {
            return Err(Error::InvariantViolation);
        }
        let quantity = match Quantity::try_from(quantity) {
            Ok(q) => q,
            Err(e) => {
                return Err(e);
            },
        };
        let line_item = LineItemData {
            id,
            version: Version::default(),
            product_id: product.data.id,
            price: product.data.price,
            quantity: quantity.value(),
        };
        self.line_items.push(line_item);
        proof {
            let pre = old(self).line_items@;
            let post = self.line_items@;
            if old(self).wf() {
                assert forall|i: int, j: int|
                    0 <= i < j < post.len() implies post[i].product_id@
                    != post[j].product_id@ by {
                    if j < pre.len() {
                        assert(pre[i].product_id@ != pre[j].product_id@);
                    } else {
                        assert(post[j] == line_item);
                        assert(!has_product(pre, product.data.id@));
                        assert(pre[i].product_id@ != product.data.id@);
                    }
                }
            }
        }
        Ok(())
    }

    /// Append a new line item for a product that is not yet in the order,
    /// under an identifier the provider produces. Beyond the validation of
    /// `add_product_with_id`, fails with `ProviderFailure` when the provider
    /// cannot produce an identifier; a duplicate product is rejected before
    /// the provider is consulted.
    pub fn add_product<TId: IdProvider<LineItemTag>>(
        &mut self,
        id_provider: TId,
        product: &crate::products::Product,
        quantity: u32,
    ) -> (r: Result<(), Error>)
        ensures
            match r {
                Ok(()) => {
                    &&& !has_product(old(self).line_items@, product.data.id@)
                    &&& quantity >= 1
                    &&& final(self).order == old(self).order
                    &&& exists|li_id: LineItemId|
                        final(self).line_items@ == old(self).line_items@.push(
                            LineItemData {
                                id: li_id,
                                version: LineItemVersion::spec_initial(),
                                product_id: product.data.id,
                                price: product.data.price,
                                quantity,
                            },
                        )
                    &&& old(self).wf() ==> final(self).wf()
                },
                Err(Error::InvariantViolation) => {
                    &&& (has_product(old(self).line_items@, product.data.id@) || quantity < 1)
                    &&& *final(self) == *old(self)
                },
                Err(Error::ProviderFailure) => {
                    &&& !has_product(old(self).line_items@, product.data.id@)
                    &&& *final(self) == *old(self)
                },
                Err(_) => false,
            },
    {
        if self.contains_product(product.data.id) {
            return Err(Error::InvariantViolation);
        }
        let id = match id_provider.id() {
            Ok(id) => id,
            Err(_) => {
                return Err(Error::ProviderFailure);
            },
        };
        let r = self.add_product_with_id(id, product, quantity);
        proof {
            if r is Ok {
                let witness = id;
                assert(self.line_items@ == old(self).line_items@.push(
                    LineItemData {
                        id: witness,
                        version: LineItemVersion::spec_initial(),
                        product_id: product.data.id,
                        price: product.data.price,
                        quantity,
                    },
                ));
            }
        }
        r
    }

    /// Classify this order against a product, consuming the order: either the
    /// order paired with its one matching line item, or the whole order
    /// unchanged. An explicit, ownership-transferring decision point instead
    /// of a query-then-mutate pair. Read-only: no side effect, and with
    /// unique products the matched line item is pinned to
    /// `item_for_product`, so repeated classification yields the same line
    /// item.
    pub fn into_line_item_for_product(self, product_id: crate::products::ProductId) -> (r:
        IntoLineItem)
        ensures
            match r {
                IntoLineItem::NotInOrder(o) => {
                    &&& o == self
                    &&& !has_product(self.line_items@, product_id@)
                },
                IntoLineItem::InOrder(oli) => {
                    &&& has_product(self.line_items@, product_id@)
                    &&& oli.order == self.order
                    &&& exists|i: int|
                        0 <= i < self.line_items@.len() && self.line_items@[i].product_id@
                            == product_id@ && oli.line_item == self.line_items@[i]
                    &&& unique_products(self.line_items@) ==> oli.line_item == item_for_product(
                        self.line_items@,
                        product_id@,
                    )
                },
            },
    {
        match Order::find_product(&self.line_items, product_id) {
            None => IntoLineItem::NotInOrder(self),
            Some(i) => {
                let ghost items = self.line_items@;
                let Order { order, line_items } = self;
                let line_item = line_items[i];
                proof {
                    if unique_products(items) {
                        lemma_item_for_product(items, product_id@, i as int);
                    }
                }
                IntoLineItem::InOrder(OrderLineItem { order, line_item })
            },
        }
    }
}

impl Entity for Order {
    type Id = OrderId;

    type Version = OrderVersion;

    type Data = OrderData;

    type Error = Error;
}

impl Entity for OrderLineItem {
    type Id = LineItemId;

    type Version = LineItemVersion;

    type Data = LineItemData;

    type Error = Error;
}

} // verus!
