//! An in-memory model of a smart home. A house owns an ordered collection of
//! rooms, a room owns a fixed-length sequence of devices (thermometers and
//! power sockets), and every entity carries an identity and renders itself as
//! a bracketed textual tree. Readings are fixed-point fractions drawn from an
//! injected randomness source owned by each device.

pub mod device;
pub mod house;
pub mod randomness;
pub mod render;
pub mod room;

use vstd::prelude::*;

verus! {

/// Label carried by every entity in the model: assigned at construction,
/// immutable afterwards, and not required to be unique across the tree.
pub type EntityId = u128;

/// Capability shared by every entity: it knows the identity it was built with.
pub trait WithId {
    /// The identity of the entity, as the contracts speak of it.
    spec fn spec_id(&self) -> EntityId;

    /// Returns the identity passed at construction.
    fn get_id(&self) -> (r: EntityId)
        ensures
            r == self.spec_id(),
    ;
}

} // verus!
