//! The generic enemy of an ordinary encounter.

use vstd::prelude::*;
use crate::combat::{attack, effective, struck};
use crate::fixed::UNIT;

verus! {

/// A generic enemy. Quantities are in thousandths.
#[derive(Debug, Clone, Copy, PartialEq, Eq, Structural)]
pub struct Enemy {
    pub health: u64,
    /// The fixed damage of its counterattack.
    pub damage: u64,
    pub defense: u64,
    pub strength: u64,
    pub strength_factor: u64,
    pub heal: u64,
    pub is_alive: bool,
}

impl Enemy {
    /// The enemy as an encounter begins.
    pub open spec fn fresh() -> Enemy {
        Enemy {
            health: 150_000,
            damage: 10_000,
            defense: 0,
            strength: 1_100,
            strength_factor: 0,
            heal: 15_000,
            is_alive: true,
        }
    }

    /// The enemy after an attack of the given damage; it lives while it has
    /// health left.
    pub open spec fn attacked(self, attacker_damage: u64) -> Enemy {
        let health = struck(self.health, attacker_damage, self.defense);
        Enemy { health, is_alive: health > 0, ..self }
    }

    /// Creates the enemy of a new encounter.
    pub fn new() -> (enemy: Enemy)
        ensures
            enemy == Enemy::fresh(),
    {
        Enemy {
            health: 150 * UNIT,
            damage: 10 * UNIT,
            defense: 0,
            strength: 1_100,
            strength_factor: 0,
            heal: 15 * UNIT,
            is_alive: true,
        }
    }

    /// Takes an attack: the damage that gets through the defense comes off
    /// the health. Returns the damage dealt.
    pub fn receive_attack(&mut self, attacker_damage: u64) -> (damage: u64)
        ensures
            *final(self) == old(self).attacked(attacker_damage),
            damage == effective(attacker_damage, old(self).defense),
            final(self).health <= old(self).health,
    {
        let outcome = attack(attacker_damage, self.health, self.defense);
        self.health = outcome.0;
        self.is_alive = outcome.0 > 0;
        outcome.1
    }
}

} // verus!
