//! The objects in the game.

use crate::cooldown::Cooldown;
use crate::player::Player;
use vstd::prelude::*;

verus! {

/// An object.
#[derive(Clone, Copy, Debug)]
pub struct Object {
    /// The kind of the object.
    ///
    /// Contains kind-specific object information.
    pub kind: ObjectKind,
    /// The current health of the object.
    pub health: u32,
    /// The health the object was created with.
    pub max_health: u32,
}

impl Object {
    /// The object invariant: an object exists only with positive health that
    /// does not exceed its maximum.
    pub open spec fn wf(&self) -> bool {
        0 < self.health <= self.max_health
    }
}

/// The kind of an object.
///
/// Contains kind-specific object information.
#[derive(Clone, Copy, Debug)]
pub enum ObjectKind {
    /// A key object: generates keys for its owner.
    Key {
        /// The amount of keys generated each time the cooldown fires.
        generation: u32,
        /// The cooldown for key generation.
        cooldown: Cooldown,
    },
    /// A fire object: attacks across the division line.
    Fire {
        /// The damage dealt each time the cooldown fires.
        damage: u32,
        /// The cooldown for attacking.
        cooldown: Cooldown,
    },
    /// A barrier object: does nothing but occupy a cell and absorb damage.
    Barrier {},
}

/// An object owned by a player.
///
/// Ownership is immutable for the object's lifetime in a cell; placing a new
/// object always assigns the placer as owner.
#[derive(Clone, Copy, Debug)]
pub struct OwnedObject {
    /// The object.
    pub object: Object,
    /// The owner of the object.
    pub owner: Player,
}

} // verus!
