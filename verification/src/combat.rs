//! Damage arithmetic shared by every defender.

use vstd::prelude::*;
use crate::fixed::{reduce, reduced, UNIT};

verus! {

/// The damage that gets through a defense: the attacker's damage less the
/// defense, and never less than one whole point, so that every attack makes
/// progress.
pub open spec fn effective(raw: u64, defense: u64) -> u64 {
    if raw - defense > UNIT {
        (raw - defense) as u64
    } else {
        UNIT
    }
}

/// The health a defender is left with after an attack.
pub open spec fn struck(health: u64, raw: u64, defense: u64) -> u64 {
    reduced(health, effective(raw, defense))
}

/// Computes the damage that an attack deals to a defender.
pub fn effective_damage(raw: u64, defense: u64) -> (damage: u64)
    ensures
        damage == effective(raw, defense),
        damage >= UNIT,
        damage == if raw - defense > UNIT { raw - defense } else { UNIT as int },
{
    if raw > defense && raw - defense > UNIT {
        raw - defense
    } else {
        UNIT
    }
}

/// Resolves one attack on a defender with the given health and defense.
/// Returns the health that is left and the damage that was dealt.
pub fn attack(attacker_damage: u64, health: u64, defense: u64) -> (outcome: (u64, u64))
    ensures
        outcome.0 == struck(health, attacker_damage, defense),
        outcome.1 == effective(attacker_damage, defense),
        outcome.0 <= health,
        outcome.0 == if outcome.1 >= health { 0 } else { health - outcome.1 },
{
    let damage = effective_damage(attacker_damage, defense);
    (reduce(health, damage), damage)
}

} // verus!
