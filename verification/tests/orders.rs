//! Tests for the order aggregate's invariants and classification.

use shop_domain::customers::{Customer, CustomerId};
use shop_domain::error::Error;
use shop_domain::orders::{IntoLineItem, LineItemId, Order, OrderId, OrderLineItem, Quantity};
use shop_domain::products::{Product, ProductId};

fn default_customer() -> Customer {
    Customer::new(CustomerId::new()).unwrap()
}

#[test]
fn add_item_to_order() {
    let product_id = ProductId::new();
    let product = Product::new(product_id, "A title".to_string(), 1).unwrap();

    let customer = default_customer();

    let order_id = OrderId::new();
    let mut order = Order::new(order_id, &customer).unwrap();

    let order_item_id = LineItemId::new();
    order.add_product(order_item_id, &product, 1).unwrap();

    assert_eq!(1, order.line_items.len());
    assert!(order.contains_product(product_id));
}

#[test]
fn quantity_must_be_greater_than_0() {
    let mut order = Order::new(OrderId::new(), &default_customer()).unwrap();

    let product = Product::new(ProductId::new(), "A title".to_string(), 1).unwrap();

    assert!(order.add_product(LineItemId::new(), &product, 0).is_err());

    order.add_product(LineItemId::new(), &product, 1).unwrap();
    let (order_data, mut line_item_data) = order.into_data();
    let mut order = OrderLineItem::from_data(order_data, line_item_data.pop().unwrap());

    assert!(order.set_quantity(0).is_err());
}

#[test]
fn product_must_not_be_in_order_when_adding() {
    let mut order = Order::new(OrderId::new(), &default_customer()).unwrap();

    let product = Product::new(ProductId::new(), "A title".to_string(), 1).unwrap();

    order.add_product(LineItemId::new(), &product, 1).unwrap();

    assert!(order.add_product(LineItemId::new(), &product, 1).is_err());
}

#[test]
fn added_line_item_captures_quantity_and_price() {
    let product_id = ProductId::new();
    let product = Product::new(product_id, "A title".to_string(), 250).unwrap();

    let mut order = Order::new(OrderId::new(), &default_customer()).unwrap();
    let line_item_id = LineItemId::new();
    order.add_product_with_id(line_item_id, &product, 7).unwrap();

    assert_eq!(1, order.line_items.len());
    assert!(order.contains_product(product_id));
    let item = &order.line_items[0];
    assert_eq!(line_item_id, item.id);
    assert_eq!(product_id, item.product_id);
    assert_eq!(7, item.quantity);
    assert_eq!(250, item.price);
}

#[test]
fn duplicate_product_is_invariant_violation_and_mutates_nothing() {
    let product_id = ProductId::new();
    let product = Product::new(product_id, "A title".to_string(), 10).unwrap();

    let mut order = Order::new(OrderId::new(), &default_customer()).unwrap();
    order.add_product(LineItemId::new(), &product, 2).unwrap();

    let before = order.line_items.clone();
    let r = order.add_product(LineItemId::new(), &product, 3);
    assert_eq!(Err(Error::InvariantViolation), r);
    assert_eq!(before.len(), order.line_items.len());
    assert_eq!(before[0].quantity, order.line_items[0].quantity);
}

#[test]
fn zero_quantity_is_rejected_before_any_mutation() {
    assert!(matches!(Quantity::try_from(0), Err(Error::InvariantViolation)));
    assert_eq!(3, Quantity::try_from(3).unwrap().value());

    let product = Product::new(ProductId::new(), "A title".to_string(), 10).unwrap();
    let mut order = Order::new(OrderId::new(), &default_customer()).unwrap();
    let r = order.add_product(LineItemId::new(), &product, 0);
    assert_eq!(Err(Error::InvariantViolation), r);
    assert_eq!(0, order.line_items.len());

    order.add_product(LineItemId::new(), &product, 4).unwrap();
    let (order_data, mut items) = order.into_data();
    let mut pair = OrderLineItem::from_data(order_data, items.pop().unwrap());
    let r = pair.set_quantity(0);
    assert!(matches!(r, Err(Error::InvariantViolation)));
    let (_, item) = pair.into_data();
    assert_eq!(4, item.quantity);
}

#[test]
fn classification_returns_the_same_line_item_every_time() {
    let product_id = ProductId::new();
    let product = Product::new(product_id, "A title".to_string(), 10).unwrap();

    let mut order = Order::new(OrderId::new(), &default_customer()).unwrap();
    order.add_product(LineItemId::new(), &product, 2).unwrap();

    let first = match order.into_line_item_for_product(product_id) {
        IntoLineItem::InOrder(pair) => pair,
        IntoLineItem::NotInOrder(_) => panic!("product should be in the order"),
    };
    let (order_id, item) = first.into_data();
    let first_id = item.id;

    let rebuilt = Order::from_data(
        shop_domain::orders::OrderData {
            id: order_id,
            version: Default::default(),
            customer_id: CustomerId::new(),
        },
        vec![item],
    );
    let second = match rebuilt.into_line_item_for_product(product_id) {
        IntoLineItem::InOrder(pair) => pair,
        IntoLineItem::NotInOrder(_) => panic!("product should still be in the order"),
    };
    assert_eq!(first_id, second.into_data().1.id);
}

#[test]
fn classifying_an_absent_product_returns_the_order_unchanged() {
    let product = Product::new(ProductId::new(), "A title".to_string(), 10).unwrap();
    let mut order = Order::new(OrderId::new(), &default_customer()).unwrap();
    order.add_product(LineItemId::new(), &product, 2).unwrap();

    let other_product = ProductId::new();
    match order.into_line_item_for_product(other_product) {
        IntoLineItem::InOrder(_) => panic!("the other product is not in the order"),
        IntoLineItem::NotInOrder(order) => {
            assert_eq!(1, order.line_items.len());
            assert!(!order.contains_product(other_product));
        },
    }
}
