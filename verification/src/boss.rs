//! The bosses: their archetypes, their phases and their special attacks.

use vstd::prelude::*;
use crate::combat::{attack, effective, struck};
use crate::fixed::{
    is_within_percent, percent, percent_of, raise, raised, scale, scaled, within_percent, UNIT,
};

verus! {

/// The archetype of a boss. `NoBoss` stands for the absence of a boss.
#[derive(Debug, Clone, Copy, PartialEq, Eq, Structural)]
pub enum BossType {
    NoBoss,
    /// The early boss.
    SamosGuardian,
    /// The mid-game boss.
    TyrantOfTyre,
    /// The late boss.
    BabylonianSage,
    /// The last boss.
    FinalBoss,
}

impl Default for BossType {
    fn default() -> (boss_type: BossType)
        ensures
            boss_type == BossType::NoBoss,
    {
        BossType::NoBoss
    }
}

/// A boss in an encounter. Quantities are in thousandths.
#[derive(Debug, Clone, Copy, PartialEq, Eq, Structural)]
pub struct Boss {
    pub boss_type: BossType,
    pub max_health: u64,
    pub current_health: u64,
    pub damage: u64,
    pub defense: u64,
    /// The cooldown that a special attack starts.
    pub special_attack_cooldown: u32,
    /// The turns left until the special attack is ready.
    pub current_cooldown: u32,
    pub phase: u32,
    pub defeated: bool,
}

/// What a special attack does to the player: the damage dealt, and the factor
/// in permille by which the player's own attack damage is multiplied from
/// then on.
#[derive(Debug, Clone, Copy, PartialEq, Eq, Structural)]
pub struct SpecialEffect {
    pub damage: u64,
    pub attack_factor: u32,
}

/// The maximum health of an archetype, in thousandths.
pub open spec fn base_health(boss_type: BossType) -> u64 {
    match boss_type {
        BossType::SamosGuardian => 200_000,
        BossType::TyrantOfTyre => 350_000,
        BossType::BabylonianSage => 500_000,
        BossType::FinalBoss => 750_000,
        BossType::NoBoss => 0,
    }
}

/// The damage of an archetype in its first phase, in thousandths.
pub open spec fn base_damage(boss_type: BossType) -> u64 {
    match boss_type {
        BossType::SamosGuardian => 25_000,
        BossType::TyrantOfTyre => 35_000,
        BossType::BabylonianSage => 45_000,
        BossType::FinalBoss => 60_000,
        BossType::NoBoss => 0,
    }
}

/// The defense of an archetype in its first phase, in thousandths.
pub open spec fn base_defense(boss_type: BossType) -> u64 {
    match boss_type {
        BossType::SamosGuardian => 10_000,
        BossType::TyrantOfTyre => 15_000,
        BossType::BabylonianSage => 20_000,
        BossType::FinalBoss => 25_000,
        BossType::NoBoss => 0,
    }
}

/// The cooldown that a special attack of an archetype starts in its first phase.
pub open spec fn base_cooldown(boss_type: BossType) -> u32 {
    match boss_type {
        BossType::SamosGuardian => 3,
        BossType::TyrantOfTyre => 4,
        BossType::BabylonianSage => 5,
        BossType::FinalBoss => 3,
        BossType::NoBoss => 0,
    }
}

/// The health, in whole percent, at or under which a boss of an archetype
/// leaves a phase for the next one; `None` where the phase is its last.
pub open spec fn phase_trigger(boss_type: BossType, phase: u32) -> Option<u64> {
    match boss_type {
        BossType::SamosGuardian => if phase == 1 { Some(50u64) } else { None },
        BossType::TyrantOfTyre => if phase == 1 { Some(40u64) } else { None },
        BossType::BabylonianSage => if phase == 1 { Some(30u64) } else { None },
        BossType::FinalBoss => if phase == 1 {
            Some(60u64)
        } else if phase == 2 {
            Some(25u64)
        } else {
            None
        },
        BossType::NoBoss => None,
    }
}

/// The number of phases that a boss of an archetype goes through.
pub open spec fn phase_count(boss_type: BossType) -> u32 {
    match boss_type {
        BossType::FinalBoss => 3,
        BossType::NoBoss => 1,
        _ => 2,
    }
}

impl Boss {
    /// The boss of an archetype as an encounter begins: the stats of its
    /// archetype, full health, first phase, special attack ready. The absent
    /// boss has no health and counts as defeated.
    pub open spec fn fresh(boss_type: BossType) -> Boss {
        Boss {
            boss_type,
            max_health: base_health(boss_type),
            current_health: base_health(boss_type),
            damage: base_damage(boss_type),
            defense: base_defense(boss_type),
            special_attack_cooldown: base_cooldown(boss_type),
            current_cooldown: 0,
            phase: 1,
            defeated: boss_type == BossType::NoBoss,
        }
    }

    /// A boss is well formed when its health is within its maximum, it counts
    /// as defeated exactly when no health is left, and its phases count from one.
    pub open spec fn wf(self) -> bool {
        &&& self.current_health <= self.max_health
        &&& self.defeated <==> self.current_health == 0
        &&& self.phase >= 1
    }

    /// The health of the boss as a share of its maximum, in thousandths of a
    /// percent. The absent boss, whose maximum is zero, is at zero percent.
    pub open spec fn health_percentage(self) -> u64 {
        percent(self.current_health, self.max_health)
    }

    /// Whether the health of the boss has fallen to the trigger of its next
    /// phase: whether it is at most that percentage of the maximum, exactly.
    pub open spec fn phase_due(self) -> bool {
        match phase_trigger(self.boss_type, self.phase) {
            Some(trigger) => within_percent(self.current_health, self.max_health, trigger),
            None => false,
        }
    }

    /// The boss with the given health; it counts as defeated when none is left.
    pub open spec fn with_health(self, health: u64) -> Boss {
        Boss { current_health: health, defeated: health == 0, ..self }
    }

    /// The boss after an attack of the given damage.
    pub open spec fn attacked(self, attacker_damage: u64) -> Boss {
        self.with_health(struck(self.current_health, attacker_damage, self.defense))
    }

    /// The health of the boss after it regains `amount`, held at its maximum.
    pub open spec fn healed_to(self, amount: u64) -> u64 {
        let sum = raised(self.current_health, amount);
        if sum > self.max_health {
            self.max_health
        } else {
            sum
        }
    }

    /// The phase after the current one. The count stops at the largest number.
    pub open spec fn phase_after(self) -> u32 {
        if self.phase < u32::MAX {
            (self.phase + 1) as u32
        } else {
            self.phase
        }
    }

    /// The boss after it has entered its next phase. The phase number goes
    /// up by one, and on reaching the second phase (for the last boss, the
    /// third too) the archetype's change of stats is applied.
    pub open spec fn in_next_phase(self) -> Boss {
        let phase = self.phase_after();
        let entered = Boss { phase, ..self };
        match self.boss_type {
            BossType::SamosGuardian => if phase == 2 {
                Boss { damage: scaled(self.damage, 1200), special_attack_cooldown: 2, ..entered }
            } else {
                entered
            },
            BossType::TyrantOfTyre => if phase == 2 {
                Boss {
                    damage: scaled(self.damage, 1300),
                    defense: scaled(self.defense, 800),
                    ..entered
                }
            } else {
                entered
            },
            BossType::BabylonianSage => if phase == 2 {
                Boss { damage: scaled(self.damage, 1400), ..entered }.with_health(
                    self.healed_to(100_000),
                )
            } else {
                entered
            },
            BossType::FinalBoss => if phase == 2 {
                Boss { damage: scaled(self.damage, 1500), special_attack_cooldown: 2, ..entered }
            } else if phase == 3 {
                Boss { damage: scaled(self.damage, 1800), special_attack_cooldown: 1, ..entered }
            } else {
                entered
            },
            BossType::NoBoss => entered,
        }
    }

    /// What the special attack of the boss does to the player.
    pub open spec fn special_effect(self) -> SpecialEffect {
        match self.boss_type {
            BossType::SamosGuardian => SpecialEffect {
                damage: scaled(self.damage, 1500),
                attack_factor: 1000,
            },
            BossType::TyrantOfTyre => SpecialEffect {
                damage: scaled(self.damage, 2000),
                attack_factor: 1000,
            },
            BossType::BabylonianSage => SpecialEffect { damage: 0, attack_factor: 1000 },
            BossType::FinalBoss => SpecialEffect {
                damage: scaled(self.damage, 2500),
                attack_factor: 900,
            },
            BossType::NoBoss => SpecialEffect { damage: 0, attack_factor: 1000 },
        }
    }

    /// The boss after its special attack: the late boss has healed and grown
    /// stronger, and every boss waits out its cooldown again.
    pub open spec fn after_special(self) -> Boss {
        let rested = Boss { current_cooldown: self.special_attack_cooldown, ..self };
        match self.boss_type {
            BossType::BabylonianSage => Boss {
                damage: scaled(self.damage, 1100),
                ..rested
            }.with_health(self.healed_to(50_000)),
            _ => rested,
        }
    }

    /// The boss after an attack and the change of phase that the attack
    /// brings about, if it brings one about. One attack brings about at most
    /// one change of phase.
    pub open spec fn pressed(self, attacker_damage: u64) -> Boss {
        let hit = self.attacked(attacker_damage);
        if hit.phase_due() {
            hit.in_next_phase()
        } else {
            hit
        }
    }

    /// The boss after a sequence of attacks, each with its damage.
    pub open spec fn after_attacks(self, attacks: Seq<u64>) -> Boss
        decreases attacks.len(),
    {
        if attacks.len() == 0 {
            self
        } else {
            self.after_attacks(attacks.drop_last()).pressed(attacks.last())
        }
    }

    /// Creates the boss of an archetype for a new encounter.
    pub fn new(boss_type: BossType) -> (boss: Boss)
        ensures
            boss == Boss::fresh(boss_type),
            boss.wf(),
    {
        match boss_type {
            BossType::SamosGuardian => Boss {
                boss_type: BossType::SamosGuardian,
                max_health: 200 * UNIT,
                current_health: 200 * UNIT,
                damage: 25 * UNIT,
                defense: 10 * UNIT,
                special_attack_cooldown: 3,
                current_cooldown: 0,
                phase: 1,
                defeated: false,
            },
            BossType::TyrantOfTyre => Boss {
                boss_type: BossType::TyrantOfTyre,
                max_health: 350 * UNIT,
                current_health: 350 * UNIT,
                damage: 35 * UNIT,
                defense: 15 * UNIT,
                special_attack_cooldown: 4,
                current_cooldown: 0,
                phase: 1,
                defeated: false,
            },
            BossType::BabylonianSage => Boss {
                boss_type: BossType::BabylonianSage,
                max_health: 500 * UNIT,
                current_health: 500 * UNIT,
                damage: 45 * UNIT,
                defense: 20 * UNIT,
                special_attack_cooldown: 5,
                current_cooldown: 0,
                phase: 1,
                defeated: false,
            },
            BossType::FinalBoss => Boss {
                boss_type: BossType::FinalBoss,
                max_health: 750 * UNIT,
                current_health: 750 * UNIT,
                damage: 60 * UNIT,
                defense: 25 * UNIT,
                special_attack_cooldown: 3,
                current_cooldown: 0,
                phase: 1,
                defeated: false,
            },
            BossType::NoBoss => Boss {
                boss_type: BossType::NoBoss,
                max_health: 0,
                current_health: 0,
                damage: 0,
                defense: 0,
                special_attack_cooldown: 0,
                current_cooldown: 0,
                phase: 1,
                defeated: true,
            },
        }
    }

    /// The health of the boss as a share of its maximum, in thousandths of a
    /// percent, rounded down.
    pub fn get_health_percentage(&self) -> (share: u64)
        ensures
            share == self.health_percentage(),
            self.wf() && self.max_health > 0 ==> share == self.current_health * 100 * UNIT / (
            self.max_health as int),
            self.wf() ==> share <= 100 * UNIT,
    {
        proof {
            lemma_share_within_whole(self.current_health, self.max_health);
        }
        percent_of(self.current_health, self.max_health)
    }

    /// Whether the special attack can be used this turn.
    pub fn is_special_ready(&self) -> (ready: bool)
        ensures
            ready == (self.current_cooldown == 0),
    {
        self.current_cooldown == 0
    }

    /// Starts the cooldown of the special attack anew.
    pub fn use_special_attack(&mut self)
        ensures
            *final(self) == (Boss {
                current_cooldown: old(self).special_attack_cooldown,
                ..*old(self)
            }),
    {
        self.current_cooldown = self.special_attack_cooldown;
    }

    /// Lets one turn of the cooldown pass.
    pub fn tick_cooldown(&mut self)
        ensures
            *final(self) == (Boss {
                current_cooldown: if old(self).current_cooldown > 0 {
                    (old(self).current_cooldown - 1) as u32
                } else {
                    0
                },
                ..*old(self)
            }),
    {
        if self.current_cooldown > 0 {
            self.current_cooldown -= 1;
        }
    }

    /// Takes an attack: the damage that gets through the defense of the boss
    /// comes off its health. Returns the damage dealt.
    pub fn receive_attack(&mut self, attacker_damage: u64) -> (damage: u64)
        ensures
            *final(self) == old(self).attacked(attacker_damage),
            damage == effective(attacker_damage, old(self).defense),
            final(self).current_health <= old(self).current_health,
            final(self).phase == old(self).phase,
            old(self).wf() ==> final(self).wf(),
    {
        let outcome = attack(attacker_damage, self.current_health, self.defense);
        self.current_health = outcome.0;
        self.defeated = outcome.0 == 0;
        outcome.1
    }

    /// Whether the health of the boss is at most `share` percent of its maximum.
    fn is_at_most(&self, share: u64) -> (within: bool)
        ensures
            within == within_percent(self.current_health, self.max_health, share),
    {
        is_within_percent(self.current_health, self.max_health, share)
    }

    /// Whether the boss is due to enter its next phase.
    pub fn should_enter_next_phase(&self) -> (due: bool)
        ensures
            due == self.phase_due(),
    {
        match self.boss_type {
            BossType::SamosGuardian => self.phase == 1 && self.is_at_most(50),
            BossType::TyrantOfTyre => self.phase == 1 && self.is_at_most(40),
            BossType::BabylonianSage => self.phase == 1 && self.is_at_most(30),
            BossType::FinalBoss => (self.phase == 1 && self.is_at_most(60)) || (self.phase == 2
                && self.is_at_most(25)),
            BossType::NoBoss => false,
        }
    }

    /// Regains `amount` of health, up to the maximum.
    fn heal(&mut self, amount: u64)
        ensures
            *final(self) == old(self).with_health(old(self).healed_to(amount)),
    {
        let sum = raise(self.current_health, amount);
        let health = if sum > self.max_health {
            self.max_health
        } else {
            sum
        };
        self.current_health = health;
        self.defeated = health == 0;
    }

    /// Enters the next phase and applies the change of stats that goes with it.
    pub fn enter_next_phase(&mut self)
        ensures
            *final(self) == old(self).in_next_phase(),
            final(self).phase >= old(self).phase,
            final(self).boss_type == old(self).boss_type,
            old(self).wf() ==> final(self).wf(),
    {
        if self.phase < u32::MAX {
            self.phase += 1;
        }
        match self.boss_type {
            BossType::SamosGuardian => {
                if self.phase == 2 {
                    self.damage = scale(self.damage, 1200);
                    self.special_attack_cooldown = 2;
                }
            },
            BossType::TyrantOfTyre => {
                if self.phase == 2 {
                    self.damage = scale(self.damage, 1300);
                    self.defense = scale(self.defense, 800);
                }
            },
            BossType::BabylonianSage => {
                if self.phase == 2 {
                    self.heal(100 * UNIT);
                    self.damage = scale(self.damage, 1400);
                }
            },
            BossType::FinalBoss => {
                if self.phase == 2 {
                    self.damage = scale(self.damage, 1500);
                    self.special_attack_cooldown = 2;
                } else if self.phase == 3 {
                    self.damage = scale(self.damage, 1800);
                    self.special_attack_cooldown = 1;
                }
            },
            BossType::NoBoss => {},
        }
    }

    /// Carries out the special attack of the archetype on the side of the
    /// boss and starts its cooldown. Returns what the attack does to the player.
    pub fn special_attack(&mut self) -> (effect: SpecialEffect)
        ensures
            *final(self) == old(self).after_special(),
            effect == old(self).special_effect(),
            final(self).phase == old(self).phase,
            old(self).wf() ==> final(self).wf(),
    {
        let effect = match self.boss_type {
            BossType::SamosGuardian => SpecialEffect {
                damage: scale(self.damage, 1500),
                attack_factor: 1000,
            },
            BossType::TyrantOfTyre => SpecialEffect {
                damage: scale(self.damage, 2000),
                attack_factor: 1000,
            },
            BossType::BabylonianSage => {
                self.heal(50 * UNIT);
                self.damage = scale(self.damage, 1100);
                SpecialEffect { damage: 0, attack_factor: 1000 }
            },
            BossType::FinalBoss => SpecialEffect {
                damage: scale(self.damage, 2500),
                attack_factor: 900,
            },
            BossType::NoBoss => SpecialEffect { damage: 0, attack_factor: 1000 },
        };
        self.use_special_attack();
        effect
    }
}

/// A part that is within its whole is at most a hundred percent of it.
pub proof fn lemma_share_within_whole(part: u64, whole: u64)
    ensures
        part <= whole ==> percent(part, whole) <= 100 * UNIT,
        part <= whole && whole > 0 ==> percent(part, whole) == part * 100 * UNIT / (whole as int),
{
    if part <= whole && whole > 0 {
        assert(0 <= part * 100 * 1000 / (whole as int) <= 100_000) by (nonlinear_arith)
            requires
                0 <= part <= whole,
                whole > 0,
        ;
    }
}

/// The health percentage of a well-formed boss of any archetype is its
/// health divided by its maximum, times a hundred: in thousandths of a
/// percent, rounded down, and never more than a hundred percent.
pub proof fn lemma_health_percentage(boss: Boss)
    requires
        boss.wf(),
        boss.max_health > 0,
    ensures
        boss.health_percentage() == boss.current_health * 100 * UNIT / (boss.max_health as int),
        boss.health_percentage() * boss.max_health <= boss.current_health * 100 * UNIT,
        boss.current_health * 100 * UNIT < (boss.health_percentage() + 1) * boss.max_health,
        boss.health_percentage() <= 100 * UNIT,
{
    lemma_share_within_whole(boss.current_health, boss.max_health);
    let whole = boss.max_health as int;
    let scaled_health = boss.current_health * 100 * UNIT;
    vstd::arithmetic::div_mod::lemma_fundamental_div_mod(scaled_health, whole);
    vstd::arithmetic::div_mod::lemma_mod_bound(scaled_health, whole);
    assert((scaled_health / whole + 1) * whole == (scaled_health / whole) * whole + whole)
        by (nonlinear_arith);
}

/// An attack never heals: the health of the boss after it is at most the
/// health before, and what comes off is the damage of the attacker less the
/// defense of the boss, or one whole point where that is more.
pub proof fn lemma_attack_never_heals(boss: Boss, attacker_damage: u64)
    ensures
        boss.attacked(attacker_damage).current_health <= boss.current_health,
        effective(attacker_damage, boss.defense) >= UNIT,
        effective(attacker_damage, boss.defense) >= attacker_damage - boss.defense,
        effective(attacker_damage, boss.defense) == UNIT || effective(
            attacker_damage,
            boss.defense,
        ) == attacker_damage - boss.defense,
        boss.attacked(attacker_damage).current_health == if effective(
            attacker_damage,
            boss.defense,
        ) >= boss.current_health {
            0
        } else {
            boss.current_health - effective(attacker_damage, boss.defense)
        },
{
}

/// Neither an attack nor a change of phase lowers the phase number, changes
/// the archetype, or breaks a well-formed boss.
pub proof fn lemma_pressed(boss: Boss, attacker_damage: u64)
    ensures
        boss.pressed(attacker_damage).phase >= boss.phase,
        boss.pressed(attacker_damage).phase <= boss.phase + 1,
        boss.pressed(attacker_damage).boss_type == boss.boss_type,
        boss.wf() ==> boss.pressed(attacker_damage).wf(),
        boss.phase <= phase_count(boss.boss_type) ==> boss.pressed(attacker_damage).phase
            <= phase_count(boss.boss_type),
{
}

/// Across any sequence of attacks on a boss, the phase number never
/// decreases, the archetype stays, and a well-formed boss stays well formed.
pub proof fn lemma_phase_never_decreases(boss: Boss, attacks: Seq<u64>)
    ensures
        boss.after_attacks(attacks).phase >= boss.phase,
        boss.after_attacks(attacks).boss_type == boss.boss_type,
        boss.wf() ==> boss.after_attacks(attacks).wf(),
        boss.phase <= phase_count(boss.boss_type) ==> boss.after_attacks(attacks).phase
            <= phase_count(boss.boss_type),
    decreases attacks.len(),
{
    if attacks.len() > 0 {
        lemma_phase_never_decreases(boss, attacks.drop_last());
        lemma_pressed(boss.after_attacks(attacks.drop_last()), attacks.last());
    }
}

/// The phase number is monotonic along a sequence of attacks: after more of
/// them it is at least what it was after fewer.
pub proof fn lemma_phase_monotonic(boss: Boss, attacks: Seq<u64>, fewer: int)
    requires
        0 <= fewer <= attacks.len(),
    ensures
        boss.after_attacks(attacks.take(fewer)).phase <= boss.after_attacks(attacks).phase,
    decreases attacks.len() - fewer,
{
    if fewer == attacks.len() {
        assert(attacks.take(fewer) =~= attacks);
    } else {
        lemma_phase_monotonic(boss, attacks.drop_last(), fewer);
        assert(attacks.drop_last().take(fewer) =~= attacks.take(fewer));
        lemma_pressed(boss.after_attacks(attacks.drop_last()), attacks.last());
    }
}

/// A boss that begins an encounter goes through the phases of its archetype
/// and no further: two for the first three, three for the last.
pub proof fn lemma_phase_within_archetype(boss_type: BossType, attacks: Seq<u64>)
    ensures
        1 <= Boss::fresh(boss_type).after_attacks(attacks).phase <= phase_count(boss_type),
{
    lemma_phase_never_decreases(Boss::fresh(boss_type), attacks);
}

/// The change of stats that goes with a phase is applied once: a boss in
/// the last phase of its archetype is never due for another, and were it to
/// enter one all the same, nothing but the phase number would change.
pub proof fn lemma_last_phase_is_final(boss: Boss)
    requires
        boss.phase >= phase_count(boss.boss_type),
    ensures
        !boss.phase_due(),
        boss.in_next_phase() == (Boss { phase: boss.phase_after(), ..boss }),
{
}

/// The trigger of a phase is read off the health percentage: a boss that is
/// due shows at most the trigger, and one that shows less than the trigger
/// is due, as long as it has a phase to enter.
pub proof fn lemma_phase_due(boss: Boss)
    requires
        boss.max_health > 0,
    ensures
        boss.phase_due() ==> phase_trigger(boss.boss_type, boss.phase) is Some
            && boss.health_percentage() <= phase_trigger(boss.boss_type, boss.phase)->0 * UNIT,
        phase_trigger(boss.boss_type, boss.phase) is Some && boss.health_percentage()
            < phase_trigger(boss.boss_type, boss.phase)->0 * UNIT ==> boss.phase_due(),
{
    match phase_trigger(boss.boss_type, boss.phase) {
        Some(trigger) => {
            crate::fixed::lemma_within_percent(boss.current_health, boss.max_health, trigger);
        },
        None => {},
    }
}

} // verus!
