//! Typed identities.
//!
//! An `Id<T>` wraps a 128-bit universally-unique value and is statically
//! tagged with the entity kind `T` it names, so an order identifier and a
//! line-item identifier are distinct types over one runtime representation.
//! Identifiers are generated at random, never checked against a store:
//! uniqueness is statistical, not coordinated.

use vstd::prelude::*;

verus! {

use crate::error::Error;

/// The failure an identity provider reports when it cannot produce an
/// identifier.
pub type IdError = String;

/// The value, if any, that uuid's parser reads from a piece of text.
pub uninterp spec fn uuid_value_of(s: Seq<char>) -> Option<u128>;

/// The canonical hyphenated text of a 128-bit identifier value.
pub uninterp spec fn uuid_text_of(v: u128) -> Seq<char>;

/// Relies on uuid::Uuid::new_v4 (and Uuid::as_u128): a freshly generated
/// random identifier value. Nothing is promised of the value.
#[verifier::external_body]
fn new_uuid_value() -> u128 {
    uuid::Uuid::new_v4().as_u128()
}

/// Relies on uuid::Uuid::parse_str (and Uuid::as_u128): whether text parses
/// as a UUID, and to which value, depends on its characters alone.
#[verifier::external_body]
fn parse_uuid_value(text: &str) -> (r: Option<u128>)
    ensures
        r == uuid_value_of(text@),
{
    match uuid::Uuid::parse_str(text) {
        Ok(u) => Some(u.as_u128()),
        Err(_) => None,
    }
}

/// Relies on uuid::Uuid::from_u128 and Uuid's `Display` impl, which prints the
/// canonical hyphenated form; uuid documents that `Uuid::parse_str` reads that
/// form back to the same value.
#[verifier::external_body]
fn uuid_value_text(value: u128) -> (r: String)
    ensures
        r@ == uuid_text_of(value),
        uuid_value_of(r@) == Some(value),
{
    uuid::Uuid::from_u128(value).to_string()
}

/// An identifier, statically tagged with the entity kind `T` it names.
#[derive(Debug)]
#[verifier::reject_recursive_types(T)]
pub struct Id<T> {
    value: u128,
    tag: core::marker::PhantomData<T>,
}

impl<T> View for Id<T> {
    type V = u128;

    closed spec fn view(&self) -> u128 {
        self.value
    }
}

impl<T> Id<T> {
    /// The identifier holding a given 128-bit value.
    pub closed spec fn spec_from_value(v: u128) -> Id<T> {
        Id { value: v, tag: core::marker::PhantomData }
    }

    /// Two identifiers of one kind are equal exactly when their viewed values
    /// are: the view loses nothing.
    pub proof fn lemma_view_injective(a: Id<T>, b: Id<T>)
        ensures
            (a == b) <==> (a@ == b@),
    {
    }

    /// The identifier built from a value views back to that value.
    pub proof fn lemma_from_value(v: u128)
        ensures
            Id::<T>::spec_from_value(v)@ == v,
    {
    }

    /// A fresh, randomly generated identifier.
    pub fn new() -> Id<T> {
        Id { value: new_uuid_value(), tag: core::marker::PhantomData }
    }

    /// Parse an identifier from canonical UUID text. Fails with
    /// `InvalidInput` exactly when the text is not a well-formed UUID.
    pub fn parse(text: &str) -> (r: Result<Id<T>, Error>)
        ensures
            match r {
                Ok(id) => uuid_value_of(text@) == Some(id@),
                Err(e) => e == Error::InvalidInput && uuid_value_of(text@) is None,
            },
    {
        match parse_uuid_value(text) {
            Some(v) => Ok(Id { value: v, tag: core::marker::PhantomData }),
            None => Err(Error::InvalidInput),
        }
    }

    /// The raw 128-bit value, for keying storage.
    pub fn value(&self) -> (v: u128)
        ensures
            v == self@,
    {
        self.value
    }

    /// The canonical UUID text of this identifier. Parsing the text back
    /// yields the identical identifier.
    pub fn to_text(&self) -> (r: String)
        ensures
            r@ == uuid_text_of(self@),
            uuid_value_of(r@) == Some(self@),
    {
        uuid_value_text(self.value)
    }
}

impl<T> Clone for Id<T> {
    fn clone(&self) -> (r: Self)
        ensures
            r == *self,
    {
        Id { ..*self }
    }
}

impl<T> Copy for Id<T> {

}

impl<T> PartialEq for Id<T> {
    fn eq(&self, other: &Id<T>) -> bool {
        self.value == other.value
    }
}

impl<T> Eq for Id<T> {

}

impl<T> vstd::std_specs::cmp::PartialEqSpecImpl for Id<T> {
    open spec fn obeys_eq_spec() -> bool {
        true
    }

    open spec fn eq_spec(&self, other: &Id<T>) -> bool {
        self@ == other@
    }
}

impl<T> PartialOrd for Id<T> {
    /// Identifiers of one kind are totally ordered by their values, for
    /// deterministic storage and iteration.
    fn partial_cmp(&self, other: &Id<T>) -> (r: Option<core::cmp::Ordering>) {
        if self.value < other.value {
            Some(core::cmp::Ordering::Less)
        } else if self.value == other.value {
            Some(core::cmp::Ordering::Equal)
        } else {
            Some(core::cmp::Ordering::Greater)
        }
    }
}

impl<T> vstd::std_specs::cmp::PartialOrdSpecImpl for Id<T> {
    open spec fn obeys_partial_cmp_spec() -> bool {
        true
    }

    open spec fn partial_cmp_spec(&self, other: &Id<T>) -> Option<core::cmp::Ordering> {
        if self@ < other@ {
            Some(core::cmp::Ordering::Less)
        } else if self@ == other@ {
            Some(core::cmp::Ordering::Equal)
        } else {
            Some(core::cmp::Ordering::Greater)
        }
    }
}

/// A replaceable source of new entity identifiers: a fixed identifier stands
/// for itself, so tests can choose identifiers deterministically, while
/// `NextId` mints a fresh one per request.
pub trait IdProvider<T> {
    /// Produce (or return) an identifier for this role.
    fn id(&self) -> Result<Id<T>, IdError>;
}

impl<T> IdProvider<T> for Id<T> {
    /// A fixed identifier provides exactly itself, and never fails.
    fn id(&self) -> (r: Result<Id<T>, IdError>)
        ensures
            r == Ok::<Id<T>, IdError>(*self),
    {
        Ok(*self)
    }
}

/// A provider that mints a fresh random identifier on every request.
#[verifier::reject_recursive_types(T)]
pub struct NextId<T> {
    tag: core::marker::PhantomData<T>,
}

impl<T> NextId<T> {
    /// A generating identity provider.
    pub fn new() -> NextId<T> {
        NextId { tag: core::marker::PhantomData }
    }

    /// A freshly minted identifier.
    pub fn next(&self) -> Id<T> {
        Id::new()
    }
}

impl<T> Clone for NextId<T> {
    fn clone(&self) -> (r: Self) {
        NextId { ..*self }
    }
}

impl<T> Copy for NextId<T> {

}

impl<T> IdProvider<T> for NextId<T> {
    /// A generating provider always produces some identifier.
    fn id(&self) -> (r: Result<Id<T>, IdError>)
        ensures
            r is Ok,
    {
        Ok(self.next())
    }
}

} // verus!
