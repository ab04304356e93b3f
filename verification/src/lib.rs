//! An order-management domain core: typed identities, optimistic-concurrency
//! version tokens, the order aggregate with its line-item invariants, and the
//! command orchestration that combines them with an abstract store contract.

pub mod customers;
pub mod entity;
pub mod error;
pub mod id;
pub mod order_commands;
pub mod order_queries;
pub mod order_store;
pub mod orders;
pub mod product_commands;
pub mod product_queries;
pub mod product_store;
pub mod products;
pub mod resolver;
pub mod transaction;
pub mod version;
