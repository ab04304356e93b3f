//! The product entity.
//!
//! A product carries a title and a unit price. The order aggregate captures
//! the price as a snapshot when a product is added as a line item; it never
//! follows a live reference back to the catalog. Prices are kept in minor
//! currency units.

use vstd::prelude::*;

verus! {

use crate::entity::Entity;
use crate::error::Error;
use crate::id::Id;
use crate::version::Version;

/// The marker naming the product entity kind in tagged identifiers.
#[derive(Clone, Copy, Debug)]
pub struct ProductTag;

/// The identifier of a product.
pub type ProductId = Id<ProductTag>;

/// The generating identity provider for products.
pub type NextProductId = crate::id::NextId<ProductTag>;

/// The version stamp of a product record.
pub type ProductVersion = Version<ProductTag>;

/// The plain persisted representation of a product.
pub struct ProductData {
    /// The product's identifier.
    pub id: ProductId,
    /// The product's version stamp.
    pub version: ProductVersion,
    /// The product's display title.
    pub title: String,
    /// The product's current unit price, in minor currency units.
    pub price: u32,
}

impl Clone for ProductData {
    fn clone(&self) -> (r: ProductData)
        ensures
            r == *self,
    {
        ProductData {
            id: self.id,
            version: self.version,
            title: self.title.clone(),
            price: self.price,
        }
    }
}

/// A product entity.
pub struct Product {
    /// The product's persisted representation.
    pub data: ProductData,
}

impl Product {
    /// A product built back from its persisted representation.
    pub fn from_data(data: ProductData) -> (r: Product)
        ensures
            r.data == data,
    {
        Product { data }
    }

    /// The persisted representation, consuming the entity.
    pub fn into_data(self) -> (r: ProductData)
        ensures
            r == self.data,
    {
        self.data
    }

    /// The persisted representation, borrowed.
    pub fn to_data(&self) -> (r: &ProductData)
        ensures
            r == &self.data,
    {
        &self.data
    }

    /// A brand-new product under the given identifier, with the given title
    /// and unit price.
    pub fn new(id: ProductId, title: String, price: u32) -> (r: Result<Product, Error>)
        ensures
            match r {
                Ok(p) => p.data.id == id && p.data.title == title && p.data.price == price
                    && p.data.version == ProductVersion::spec_initial() && p.data.version@ == 0u64,
                Err(_) => false,
            },
    {
        Ok(Product::from_data(ProductData { id, version: Version::default(), title, price }))
    }

    /// Replace the product's title; identity, price and version are
    /// untouched.
    pub fn set_title(&mut self, title: String) -> (r: Result<(), Error>)
        ensures
            r == Ok::<(), Error>(()),
            final(self).data == (ProductData { title, ..old(self).data }),
    {
        self.data.title = title;
        Ok(())
    }
}

impl Entity for Product {
    type Id = ProductId;

    type Version = ProductVersion;

    type Data = ProductData;

    type Error = Error;
}

} // verus!
