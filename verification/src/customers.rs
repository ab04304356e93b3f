//! The customer reference an order is created against.
//!
//! Orders only hold the owning customer's identifier; customer management
//! itself is outside the order aggregate, so the model here is the minimal
//! lookup capability order creation consumes.

use vstd::prelude::*;

verus! {

use crate::entity::Entity;
use crate::error::Error;
use crate::id::Id;
use crate::version::Version;

/// The marker naming the customer entity kind in tagged identifiers.
#[derive(Clone, Copy, Debug)]
pub struct CustomerTag;

/// The identifier of a customer.
pub type CustomerId = Id<CustomerTag>;

/// The version stamp of a customer record.
pub type CustomerVersion = Version<CustomerTag>;

/// The plain persisted representation of a customer.
#[derive(Clone, Copy)]
pub struct CustomerData {
    /// The customer's identifier.
    pub id: CustomerId,
    /// The customer's version stamp.
    pub version: CustomerVersion,
}

/// A customer entity, as far as order creation needs one.
pub struct Customer {
    /// The customer's persisted representation.
    pub data: CustomerData,
}

impl Customer {
    /// A customer built back from its persisted representation.
    pub fn from_data(data: CustomerData) -> (r: Customer)
        ensures
            r.data == data,
    {
        Customer { data }
    }

    /// A brand-new customer under the given identifier.
    pub fn new(id: CustomerId) -> (r: Result<Customer, Error>)
        ensures
            match r {
                Ok(c) => c.data.id == id && c.data.version == CustomerVersion::spec_initial()
                    && c.data.version@ == 0u64,
                Err(_) => false,
            },
    {
        Ok(Customer { data: CustomerData { id, version: Version::default() } })
    }

    /// The persisted representation, consuming the entity.
    pub fn into_data(self) -> (r: CustomerData)
        ensures
            r == self.data,
    {
        self.data
    }

    /// The persisted representation, borrowed.
    pub fn to_data(&self) -> (r: &CustomerData)
        ensures
            r == &self.data,
    {
        &self.data
    }
}

impl Entity for Customer {
    type Id = CustomerId;

    type Version = CustomerVersion;

    type Data = CustomerData;

    type Error = Error;
}

} // verus!
