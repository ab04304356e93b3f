//! Tests for the add-or-update command, from the unit level through the whole
//! resolver-wired scenarios.

use shop_domain::customers::{Customer, CustomerId};
use shop_domain::error::Error;
use shop_domain::order_commands::{add_or_update_product_command, AddOrUpdateProduct};
use shop_domain::order_commands::AddOrUpdateProductCommand;
use shop_domain::order_store::{in_memory_store, OrderStore};
use shop_domain::orders::{LineItemId, NextLineItemId, Order, OrderId};
use shop_domain::product_commands::SetProduct;
use shop_domain::product_queries::StoreProductQuery;
use shop_domain::product_store::{product_store, ProductStore};
use shop_domain::products::{Product, ProductId};
use shop_domain::resolver::Resolver;
use shop_domain::transaction::{ActiveTransactionProvider, NoTransaction};

fn default_customer() -> Customer {
    Customer::new(CustomerId::new()).unwrap()
}

fn seeded_catalog(product_id: ProductId) -> StoreProductQuery<shop_domain::product_store::InMemoryProductStore> {
    let mut catalog = product_store();
    let transaction = NoTransaction.active();
    catalog
        .set_product(&transaction, Product::new(product_id, "A title".to_string(), 1).unwrap())
        .unwrap();
    StoreProductQuery { store: catalog }
}

#[test]
fn add_item_if_not_in_order() {
    let mut store = in_memory_store();

    let order_id = OrderId::new();
    let product_id = ProductId::new();
    let quantity = 3;

    store
        .set_order(
            NoTransaction.active().get(),
            Order::new(order_id, &default_customer()).unwrap(),
        )
        .unwrap();

    let mut cmd = add_or_update_product_command(
        NoTransaction,
        store,
        NextLineItemId::new(),
        seeded_catalog(product_id),
    );

    let line_item_id = cmd
        .add_or_update_product(AddOrUpdateProduct { id: order_id, product_id, quantity })
        .unwrap();

    let (_, line_item) = cmd.store.get_line_item(order_id, line_item_id).unwrap().into_data();

    assert_eq!(quantity, line_item.quantity);
}

#[test]
fn update_quantity_if_in_order() {
    let mut store = in_memory_store();

    let order_id = OrderId::new();
    let product_id = ProductId::new();
    let line_item_id = LineItemId::new();
    let quantity = 3;

    let mut order = Order::new(order_id, &default_customer()).unwrap();
    order
        .add_product_with_id(
            line_item_id,
            &Product::new(product_id, "A title".to_string(), 1).unwrap(),
            1,
        )
        .unwrap();

    store.set_order(NoTransaction.active().get(), order).unwrap();

    let mut cmd = add_or_update_product_command(
        NoTransaction,
        store,
        NextLineItemId::new(),
        seeded_catalog(product_id),
    );

    let updated_line_item_id = cmd
        .add_or_update_product(AddOrUpdateProduct { id: order_id, product_id, quantity })
        .unwrap();

    let (_, line_item) = cmd.store.get_line_item(order_id, line_item_id).unwrap().into_data();

    assert_eq!(line_item_id, updated_line_item_id);
    assert_eq!(quantity, line_item.quantity);
}

fn order_with_no_items(resolver: &mut Resolver, customer: &Customer) -> OrderId {
    let order_id = OrderId::new();
    let order = Order::new(order_id, customer).unwrap();
    resolver
        .order_store()
        .set_order(NoTransaction.active().get(), order)
        .unwrap();
    order_id
}

#[test]
fn scenario_add_new_product_line_item() {
    let mut resolver = Resolver::default();
    let customer = default_customer();
    let order_id = order_with_no_items(&mut resolver, &customer);

    let product_id = ProductId::new();
    resolver
        .set_product_command(SetProduct { id: product_id, title: "A title".to_string(), price: 120 })
        .unwrap();

    let line_item_id = resolver
        .add_or_update_product_command(AddOrUpdateProduct { id: order_id, product_id, quantity: 3 })
        .unwrap();

    let (_, item) = resolver
        .order_store()
        .get_line_item(order_id, line_item_id)
        .unwrap()
        .into_data();
    assert_eq!(3, item.quantity);
    assert_eq!(product_id, item.product_id);
    assert_eq!(120, item.price);
}

#[test]
fn scenario_update_existing_product_line_item() {
    let mut resolver = Resolver::default();
    let customer = default_customer();
    let order_id = order_with_no_items(&mut resolver, &customer);

    let product_id = ProductId::new();
    resolver
        .set_product_command(SetProduct { id: product_id, title: "A title".to_string(), price: 120 })
        .unwrap();

    let first = resolver
        .add_or_update_product_command(AddOrUpdateProduct { id: order_id, product_id, quantity: 3 })
        .unwrap();

    let second = resolver
        .add_or_update_product_command(AddOrUpdateProduct { id: order_id, product_id, quantity: 5 })
        .unwrap();

    assert_eq!(first, second);
    let (_, item) = resolver.order_store().get_line_item(order_id, first).unwrap().into_data();
    assert_eq!(5, item.quantity);
}

#[test]
fn scenario_unknown_product_is_not_found() {
    let mut resolver = Resolver::default();
    let customer = default_customer();
    let order_id = order_with_no_items(&mut resolver, &customer);

    let missing_product = ProductId::new();
    let r = resolver.add_or_update_product_command(AddOrUpdateProduct {
        id: order_id,
        product_id: missing_product,
        quantity: 1,
    });
    assert_eq!(Err(Error::NotFound), r);
    assert!(resolver.order_store().get_line_item(order_id, LineItemId::new()).is_none());
}

#[test]
fn scenario_unknown_order_is_not_found() {
    let mut resolver = Resolver::default();

    let product_id = ProductId::new();
    resolver
        .set_product_command(SetProduct { id: product_id, title: "A title".to_string(), price: 120 })
        .unwrap();

    let missing_order = OrderId::new();
    let r = resolver.add_or_update_product_command(AddOrUpdateProduct {
        id: missing_order,
        product_id,
        quantity: 1,
    });
    assert_eq!(Err(Error::NotFound), r);
    assert!(resolver
        .get_order_query(shop_domain::order_queries::GetOrder { id: missing_order })
        .unwrap()
        .is_none());
}

#[test]
fn updating_one_product_leaves_the_other_line_items_alone() {
    let mut resolver = Resolver::default();
    let customer = default_customer();
    let order_id = order_with_no_items(&mut resolver, &customer);

    let first_product = ProductId::new();
    let second_product = ProductId::new();
    resolver
        .set_product_command(SetProduct { id: first_product, title: "First".to_string(), price: 10 })
        .unwrap();
    resolver
        .set_product_command(SetProduct {
            id: second_product,
            title: "Second".to_string(),
            price: 20,
        })
        .unwrap();

    let first_item = resolver
        .add_or_update_product_command(AddOrUpdateProduct {
            id: order_id,
            product_id: first_product,
            quantity: 1,
        })
        .unwrap();
    let second_item = resolver
        .add_or_update_product_command(AddOrUpdateProduct {
            id: order_id,
            product_id: second_product,
            quantity: 2,
        })
        .unwrap();

    let updated = resolver
        .add_or_update_product_command(AddOrUpdateProduct {
            id: order_id,
            product_id: second_product,
            quantity: 9,
        })
        .unwrap();
    assert_eq!(second_item, updated);

    let (_, kept) = resolver.order_store().get_line_item(order_id, first_item).unwrap().into_data();
    assert_eq!(1, kept.quantity);
    assert_eq!(10, kept.price);
    let (_, changed) =
        resolver.order_store().get_line_item(order_id, second_item).unwrap().into_data();
    assert_eq!(9, changed.quantity);
    assert_eq!(20, changed.price);
}

#[test]
fn zero_quantity_command_fails_and_persists_nothing() {
    let mut resolver = Resolver::default();
    let customer = default_customer();
    let order_id = order_with_no_items(&mut resolver, &customer);

    let product_id = ProductId::new();
    resolver
        .set_product_command(SetProduct { id: product_id, title: "A title".to_string(), price: 120 })
        .unwrap();

    let r = resolver.add_or_update_product_command(AddOrUpdateProduct {
        id: order_id,
        product_id,
        quantity: 0,
    });
    assert_eq!(Err(Error::InvariantViolation), r);

    let order = resolver
        .get_order_query(shop_domain::order_queries::GetOrder { id: order_id })
        .unwrap()
        .unwrap();
    assert_eq!(0, order.line_items.len());
}
