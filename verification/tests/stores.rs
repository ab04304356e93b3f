//! Tests for the stores' optimistic version checks and the product commands.

use shop_domain::customers::{Customer, CustomerId};
use shop_domain::error::Error;
use shop_domain::id::IdProvider;
use shop_domain::order_store::{in_memory_store, OrderStore};
use shop_domain::orders::{LineItemId, Order, OrderId};
use shop_domain::product_commands::{
    ProductCommands,
    SetProduct,
    SetProductCommand,
    SetProductTitle,
    SetProductTitleCommand,
};
use shop_domain::product_queries::{get_product_query, GetProduct};
use shop_domain::product_store::{product_store, ProductStore};
use shop_domain::products::{Product, ProductId};
use shop_domain::transaction::{ActiveTransactionProvider, NoTransaction};

fn default_customer() -> Customer {
    Customer::new(CustomerId::new()).unwrap()
}

#[test]
fn a_stale_product_write_is_a_concurrency_conflict() {
    let mut store = product_store();
    let transaction = NoTransaction.active();
    let product_id = ProductId::new();

    let fresh = Product::new(product_id, "A title".to_string(), 10).unwrap();
    store.set_product(&transaction, fresh).unwrap();

    // The same record again still carries the initial version, which the
    // first write already advanced in the store.
    let stale = Product::new(product_id, "Another title".to_string(), 10).unwrap();
    let r = store.set_product(&transaction, stale);
    assert_eq!(Err(Error::ConcurrencyConflict), r);

    let stored = store.get_product(product_id).unwrap().into_data();
    assert_eq!("A title", stored.title);
}

#[test]
fn a_reread_product_write_succeeds() {
    let mut store = product_store();
    let transaction = NoTransaction.active();
    let product_id = ProductId::new();

    store
        .set_product(&transaction, Product::new(product_id, "A title".to_string(), 10).unwrap())
        .unwrap();

    let mut current = store.get_product(product_id).unwrap();
    current.set_title("Another title".to_string()).unwrap();
    store.set_product(&transaction, current).unwrap();

    let stored = store.get_product(product_id).unwrap().into_data();
    assert_eq!("Another title", stored.title);
}

#[test]
fn a_stale_order_write_is_a_concurrency_conflict() {
    let mut store = in_memory_store();
    let order_id = OrderId::new();
    let customer = default_customer();

    store
        .set_order(NoTransaction.active().get(), Order::new(order_id, &customer).unwrap())
        .unwrap();

    let stale = Order::new(order_id, &customer).unwrap();
    let r = store.set_order(NoTransaction.active().get(), stale);
    assert_eq!(Err(Error::ConcurrencyConflict), r);
}

#[test]
fn set_product_command_creates_then_retitles() {
    let mut commands = ProductCommands { store: product_store() };
    let product_id = ProductId::new();

    commands
        .set_product(SetProduct { id: product_id, title: "A title".to_string(), price: 42 })
        .unwrap();
    let stored =
        get_product_query(&commands.store, GetProduct { id: product_id }).unwrap().unwrap();
    assert_eq!("A title", stored.to_data().title);
    assert_eq!(42, stored.to_data().price);

    commands
        .set_product(SetProduct { id: product_id, title: "Another title".to_string(), price: 99 })
        .unwrap();
    let stored =
        get_product_query(&commands.store, GetProduct { id: product_id }).unwrap().unwrap();
    // An existing product keeps its price; only the title changes.
    assert_eq!("Another title", stored.to_data().title);
    assert_eq!(42, stored.to_data().price);
}

#[test]
fn set_product_title_command_requires_an_existing_product() {
    let mut commands = ProductCommands { store: product_store() };
    let product_id = ProductId::new();

    let r = commands
        .set_product_title(SetProductTitle { id: product_id, title: "A title".to_string() });
    assert_eq!(Err(Error::NotFound), r);

    commands
        .set_product(SetProduct { id: product_id, title: "A title".to_string(), price: 42 })
        .unwrap();
    commands
        .set_product_title(SetProductTitle { id: product_id, title: "Another title".to_string() })
        .unwrap();
    let stored =
        get_product_query(&commands.store, GetProduct { id: product_id }).unwrap().unwrap();
    assert_eq!("Another title", stored.to_data().title);
}

struct FailingProvider;

impl<T> IdProvider<T> for FailingProvider {
    fn id(&self) -> Result<shop_domain::id::Id<T>, shop_domain::id::IdError> {
        Err("no identifier available".to_string())
    }
}

#[test]
fn a_failing_provider_surfaces_as_provider_failure() {
    let customer = default_customer();
    let r = Order::new(FailingProvider, &customer);
    assert!(matches!(r, Err(Error::ProviderFailure)));

    let mut order = Order::new(OrderId::new(), &customer).unwrap();
    let product = Product::new(ProductId::new(), "A title".to_string(), 10).unwrap();
    let r = order.add_product(FailingProvider, &product, 1);
    assert_eq!(Err(Error::ProviderFailure), r);
    assert_eq!(0, order.line_items.len());

    order.add_product(LineItemId::new(), &product, 1).unwrap();
    assert_eq!(1, order.line_items.len());
}
