//! Tests for identifier generation, text round-tripping and providers.

use shop_domain::error::Error;
use shop_domain::id::{Id, IdProvider, NextId};
use shop_domain::orders::{OrderId, OrderTag};
use shop_domain::products::ProductId;

#[test]
fn id_text_round_trip_is_identity() {
    let id = OrderId::new();
    let text = id.to_text();
    let parsed: OrderId = Id::parse(&text).unwrap();
    assert_eq!(id, parsed);
}

#[test]
fn canonical_uuid_text_parses_and_reprints() {
    let text = "550e8400-e29b-41d4-a716-446655440000";
    let id: ProductId = Id::parse(text).unwrap();
    assert_eq!(text, id.to_text());
}

#[test]
fn non_uuid_text_is_invalid_input() {
    let r: Result<OrderId, Error> = Id::parse("not an identifier");
    assert_eq!(Err(Error::InvalidInput), r);
    let r: Result<OrderId, Error> = Id::parse("");
    assert_eq!(Err(Error::InvalidInput), r);
}

#[test]
fn ids_are_totally_ordered_by_value() {
    let small: OrderId = Id::parse("00000000-0000-0000-0000-000000000001").unwrap();
    let large: OrderId = Id::parse("00000000-0000-0000-0000-000000000002").unwrap();
    assert!(small < large);
    assert!(large > small);
    assert!(small <= small);
    assert_eq!(small.value() + 1, large.value());
}

#[test]
fn fresh_ids_differ() {
    let a = OrderId::new();
    let b = OrderId::new();
    assert_ne!(a, b);
}

#[test]
fn a_fixed_id_provides_itself() {
    let id = OrderId::new();
    assert_eq!(id, id.id().unwrap());
}

#[test]
fn a_generating_provider_produces_an_id() {
    let provider: NextId<OrderTag> = NextId::new();
    let a = provider.id().unwrap();
    let b = provider.next();
    assert_ne!(a, b);
}
