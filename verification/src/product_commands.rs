//! The write-side commands for the product catalog. Each follows the one
//! pattern every command in the system follows: read, classify, mutate,
//! write, inside one transaction, with every failure surfaced verbatim and no
//! partial persistence.

use vstd::prelude::*;

verus! {

use crate::error::Error;
use crate::product_store::{stamped_product, ProductStore};
use crate::products::{Product, ProductData, ProductId, ProductVersion};
use crate::transaction::{ActiveTransaction, ActiveTransactionProvider, NoTransaction};

/// Input for a `SetProductCommand`.
pub struct SetProduct {
    /// The identifier of the product to create or update.
    pub id: ProductId,
    /// The title to set.
    pub title: String,
    /// The unit price a newly created product starts with, in minor currency
    /// units; an existing product keeps its price.
    pub price: u32,
}

/// Create a product or update its title.
pub trait SetProductCommand {
    /// The catalog this command operates on.
    spec fn upsert_products(&self) -> Map<u128, ProductData>;

    /// The command target's internal well-formedness.
    spec fn upsert_inv(&self) -> bool;

    /// Upsert: an existing product gets the new title, an absent one is
    /// created with the given title and price. Never fails.
    fn set_product(&mut self, command: SetProduct) -> (r: Result<(), Error>)
        requires
            old(self).upsert_inv(),
        ensures
            final(self).upsert_inv(),
            r == Ok::<(), Error>(()),
            final(self).upsert_products() == set_product_result(
                old(self).upsert_products(),
                command,
            ),
    ;
}

/// The catalog after an upsert of one product: an existing record keeps its
/// identity and price and gets the new title, an absent one is created fresh;
/// either way the persisted version stamp advances once.
pub open spec fn set_product_result(
    catalog: Map<u128, ProductData>,
    command: SetProduct,
) -> Map<u128, ProductData> {
    let key = command.id@;
    if catalog.contains_key(key) {
        catalog.insert(key, stamped_product(ProductData { title: command.title, ..catalog[key] }))
    } else {
        catalog.insert(
            key,
            stamped_product(
                ProductData {
                    id: command.id,
                    version: ProductVersion::spec_initial(),
                    title: command.title,
                    price: command.price,
                },
            ),
        )
    }
}

/// Create a product or update its title, against any product store. The read
/// and the write share one transaction, and the write's version check cannot
/// fail because the version written is the version just read.
pub fn set_product_command<TStore: ProductStore>(
    store: &mut TStore,
    transaction: &ActiveTransaction,
    command: SetProduct,
) -> (r: Result<(), Error>)
    requires
        old(store).inv(),
    ensures
        final(store).inv(),
        r == Ok::<(), Error>(()),
        final(store).products() == set_product_result(old(store).products(), command),
{
    let product = match store.get_product(command.id) {
        Some(mut product) => {
            match product.set_title(command.title) {
                Ok(()) => {},
                Err(e) => {
                    proof {
                        assert(false);
                    }
                    return Err(e);
                },
            }
            product
        },
        None => {
            match Product::new(command.id, command.title, command.price) {
                Ok(product) => product,
                Err(e) => {
                    proof {
                        assert(false);
                    }
                    return Err(e);
                },
            }
        },
    };
    match store.set_product(transaction, product) {
        Ok(()) => Ok(()),
        Err(e) => {
            proof {
                assert(false);
            }
            Err(e)
        },
    }
}

/// Input for a `SetProductTitleCommand`.
pub struct SetProductTitle {
    /// The identifier of the product to retitle.
    pub id: ProductId,
    /// The title to set.
    pub title: String,
}

/// Set a new title for an existing product.
pub trait SetProductTitleCommand {
    /// The catalog this command operates on.
    spec fn retitle_products(&self) -> Map<u128, ProductData>;

    /// The command target's internal well-formedness.
    spec fn retitle_inv(&self) -> bool;

    /// Retitle an existing product; fails with `NotFound` exactly when no
    /// product carries the identifier, and then changes nothing.
    fn set_product_title(&mut self, command: SetProductTitle) -> (r: Result<(), Error>)
        requires
            old(self).retitle_inv(),
        ensures
            final(self).retitle_inv(),
            match r {
                Ok(()) => {
                    &&& old(self).retitle_products().contains_key(command.id@)
                    &&& final(self).retitle_products() == set_title_result(
                        old(self).retitle_products(),
                        command,
                    )
                },
                Err(e) => {
                    &&& e == Error::NotFound
                    &&& !old(self).retitle_products().contains_key(command.id@)
                    &&& final(self).retitle_products() == old(self).retitle_products()
                },
            },
    ;
}

/// The catalog after retitling one existing product: the record keeps its
/// identity and price, gets the new title, and its persisted version stamp
/// advances once.
pub open spec fn set_title_result(
    catalog: Map<u128, ProductData>,
    command: SetProductTitle,
) -> Map<u128, ProductData> {
    let key = command.id@;
    catalog.insert(key, stamped_product(ProductData { title: command.title, ..catalog[key] }))
}

/// Set a new title for an existing product, against any product store. Fails
/// with `NotFound` exactly when the product does not exist; the write's
/// version check cannot fail because the version written is the version just
/// read.
pub fn set_product_title_command<TStore: ProductStore>(
    store: &mut TStore,
    transaction: &ActiveTransaction,
    command: SetProductTitle,
) -> (r: Result<(), Error>)
    requires
        old(store).inv(),
    ensures
        final(store).inv(),
        match r {
            Ok(()) => old(store).products().contains_key(command.id@) && final(store).products()
                == set_title_result(old(store).products(), command),
            Err(e) => {
                &&& e == Error::NotFound
                &&& !old(store).products().contains_key(command.id@)
                &&& final(store).products() == old(store).products()
            },
        },
{
    let mut product = match store.get_product(command.id) {
        Some(product) => product,
        None => {
            return Err(Error::NotFound);
        },
    };
    match product.set_title(command.title) {
        Ok(()) => {},
        Err(e) => {
            proof {
                assert(false);
            }
            return Err(e);
        },
    }
    match store.set_product(transaction, product) {
        Ok(()) => Ok(()),
        Err(e) => {
            proof {
                assert(false);
            }
            Err(e)
        },
    }
}

/// A command object over an owned product store, as the wiring layer hands
/// commands to callers. The in-memory store scopes each invocation as one
/// standalone transaction.
pub struct ProductCommands<TStore> {
    /// The store the commands write.
    pub store: TStore,
}

impl<TStore: ProductStore> SetProductCommand for ProductCommands<TStore> {
    open spec fn upsert_products(&self) -> Map<u128, ProductData> {
        self.store.products()
    }

    open spec fn upsert_inv(&self) -> bool {
        self.store.inv()
    }

    fn set_product(&mut self, command: SetProduct) -> (r: Result<(), Error>) {
        let transaction = NoTransaction.active();
        set_product_command(&mut self.store, &transaction, command)
    }
}

impl<TStore: ProductStore> SetProductTitleCommand for ProductCommands<TStore> {
    open spec fn retitle_products(&self) -> Map<u128, ProductData> {
        self.store.products()
    }

    open spec fn retitle_inv(&self) -> bool {
        self.store.inv()
    }

    fn set_product_title(&mut self, command: SetProductTitle) -> (r: Result<(), Error>) {
        let transaction = NoTransaction.active();
        set_product_title_command(&mut self.store, &transaction, command)
    }
}

} // verus!
