//! The entity capability: a record is an entity when it exposes a globally
//! unique 128-bit identifier. Polymorphic equality of entities is defined
//! purely in terms of that identifier.

use vstd::prelude::*;

verus! {

/// Marks a type as uniquely identifiable.
pub trait Entity {
    /// The identifier, for use in specifications.
    spec fn id_spec(&self) -> u128;

    /// Returns the record's globally unique identifier.
    fn get_id(&self) -> (id: u128)
        ensures
            id == self.id_spec(),
    ;
}

/// Identifier-based equality over heterogeneous entity types: two entities
/// are equal exactly when their identifiers are equal, regardless of their
/// concrete type.
pub fn entity_eq<A: Entity, B: Entity>(a: &A, b: &B) -> (r: bool)
    ensures
        r == (a.id_spec() == b.id_spec()),
{
    a.get_id() == b.get_id()
}

/// Relies on `uuid::Uuid::new_v4` (converted with `Uuid::as_u128`): a freshly
/// drawn random 128-bit identifier. The value is random, so nothing is
/// promised of it.
#[verifier::external_body]
pub(crate) fn fresh_id() -> u128 {
    uuid::Uuid::new_v4().as_u128()
}

} // verus!
