//! The players.

use crate::cooldown::Cooldown;
use crate::object::Object;
use crate::object::ObjectKind;
use vstd::prelude::*;

verus! {

/// A player.
#[derive(Clone, Copy, Debug, Eq, Hash, Ord, PartialEq, PartialOrd)]
pub enum Player {
    /// The left player.
    Left,
    /// The right player.
    Right,
}

impl Player {
    /// The opposite player.
    pub open spec fn spec_toggle(self) -> Player {
        match self {
            Player::Left => Player::Right,
            Player::Right => Player::Left,
        }
    }

    /// Returns the opposite player.
    #[verifier::when_used_as_spec(spec_toggle)]
    pub fn toggle(self) -> (opposite: Player)
        ensures
            opposite == self.spec_toggle(),
    {
        match self {
            Player::Left => Player::Right,
            Player::Right => Player::Left,
        }
    }
}

/// A container that holds the same kind of data for both players.
#[derive(Clone, Copy, Debug, Default, PartialEq, Eq)]
pub struct Players<T> {
    /// The data associated with the left player.
    pub left: T,
    /// The data associated with the right player.
    pub right: T,
}

impl<T> Players<T> {
    /// The data associated with the given player.
    pub open spec fn spec_get(&self, player: Player) -> T {
        match player {
            Player::Left => self.left,
            Player::Right => self.right,
        }
    }

    /// The container with the given player's data replaced.
    pub open spec fn spec_set(&self, player: Player, value: T) -> Players<T> {
        match player {
            Player::Left => Players { left: value, right: self.right },
            Player::Right => Players { left: self.left, right: value },
        }
    }

    /// Returns the data associated with the given player.
    pub fn get(&self, player: Player) -> (data: &T)
        ensures
            *data == self.spec_get(player),
    {
        match player {
            Player::Left => &self.left,
            Player::Right => &self.right,
        }
    }

    /// Returns mutable access to the data associated with the given player.
    pub fn get_mut(&mut self, player: Player) -> (data: &mut T)
        ensures
            *data == old(self).spec_get(player),
            *final(self) == old(self).spec_set(player, *final(data)),
    {
        match player {
            Player::Left => &mut self.left,
            Player::Right => &mut self.right,
        }
    }
}

/// The player data.
#[derive(Clone, Debug)]
pub struct Data {
    /// The amount of keys the player owns.
    pub keys: u32,
    /// Placements.
    pub placements: Vec<Placement>,
}

/// The mathematical view of [`Data`]: the key count and the placement
/// catalog as a sequence.
#[verifier::ext_equal]
pub ghost struct DataModel {
    /// The amount of keys the player owns.
    pub keys: u32,
    /// The placement catalog.
    pub placements: Seq<Placement>,
}

impl DataModel {
    /// Player data is well-formed when every placement of the catalog is.
    pub open spec fn wf(&self) -> bool {
        forall|i: int| 0 <= i < self.placements.len() ==> (#[trigger] self.placements[i]).wf()
    }
}

impl View for Data {
    type V = DataModel;

    open spec fn view(&self) -> DataModel {
        DataModel { keys: self.keys, placements: self.placements@ }
    }
}

/// A placement: a catalog entry a player can spend keys on to create an
/// object.
#[derive(Clone, Copy, Debug)]
pub struct Placement {
    /// The cooldown of the placement: it throttles how often this catalog
    /// entry can be used, independently of the placed object's own timer.
    pub cooldown: Cooldown,
    /// The cost of the placement, in keys.
    pub cost: u32,
    /// Describes the object to be placed.
    pub blueprint: Blueprint,
}

impl Placement {
    /// A placement is well-formed when its blueprint is.
    pub open spec fn wf(&self) -> bool {
        self.blueprint.wf()
    }

    /// Generates the object to be placed.
    ///
    /// The object starts at full health, and its own cooldown starts in the
    /// not-ready state at `now`, independent of the placement's cooldown.
    pub fn generate_object(&self, now: u64) -> (object: Object)
        ensures
            object == self.blueprint.spec_generate(now),
    {
        self.blueprint.generate(now)
    }
}

/// A blueprint: a pure description of the object a placement creates, in
/// place of a runtime factory, so that placements stay plain comparable
/// data.
#[derive(Clone, Copy, Debug)]
pub struct Blueprint {
    /// The kind of object to create, with its kind-specific parameters.
    pub kind: BlueprintKind,
    /// The health a fresh object starts with, which is also its maximum.
    pub max_health: u32,
}

/// The kind-specific parameters of a blueprint.
#[derive(Clone, Copy, Debug)]
pub enum BlueprintKind {
    /// A key generator with the given generation amount and timer duration.
    Key {
        /// The amount of keys generated per firing.
        generation: u32,
        /// The duration of the generation cooldown.
        duration: u64,
    },
    /// A ranged attacker with the given damage and timer duration.
    Fire {
        /// The damage dealt per firing.
        damage: u32,
        /// The duration of the attack cooldown.
        duration: u64,
    },
    /// A passive blocker.
    Barrier {},
}

impl Blueprint {
    /// A blueprint is well-formed when the objects it creates satisfy the
    /// object invariant.
    pub open spec fn wf(&self) -> bool {
        0 < self.max_health
    }

    /// The object this blueprint creates at `now`.
    pub open spec fn spec_generate(&self, now: u64) -> Object {
        Object {
            kind: match self.kind {
                BlueprintKind::Key { generation, duration } => ObjectKind::Key {
                    generation,
                    cooldown: Cooldown { duration, last_reset: now },
                },
                BlueprintKind::Fire { damage, duration } => ObjectKind::Fire {
                    damage,
                    cooldown: Cooldown { duration, last_reset: now },
                },
                BlueprintKind::Barrier {} => ObjectKind::Barrier {},
            },
            health: self.max_health,
            max_health: self.max_health,
        }
    }

    /// Creates the described object, at full health, with a fresh not-ready
    /// cooldown.
    pub fn generate(&self, now: u64) -> (object: Object)
        ensures
            object == self.spec_generate(now),
    {
        let kind = match self.kind {
            BlueprintKind::Key { generation, duration } => ObjectKind::Key {
                generation,
                cooldown: Cooldown::new(duration, now),
            },
            BlueprintKind::Fire { damage, duration } => ObjectKind::Fire {
                damage,
                cooldown: Cooldown::new(duration, now),
            },
            BlueprintKind::Barrier {} => ObjectKind::Barrier {},
        };
        Object { kind, health: self.max_health, max_health: self.max_health }
    }
}

} // verus!
