//! The random source and what is drawn from it.

use rand::rngs::StdRng;
use rand::Rng;
use vstd::prelude::*;

verus! {

/// `rand::rngs::StdRng`, the seedable generator of the `rand` crate. Nothing
/// is known of its state.
#[verifier::external_type_specification]
#[verifier::external_body]
pub struct ExStdRng(rand::rngs::StdRng);

/// The mercy chance: an attempt succeeds when the roll is at most this.
pub const MERCY_CHANCE: u32 = 7;

/// The number of faces of the die that a mercy attempt rolls.
pub const MERCY_FACES: u32 = 10;

/// A boss whose special attack is ready uses it `SPECIAL_ODDS` times out of
/// `SPECIAL_OUT_OF`.
pub const SPECIAL_ODDS: u32 = 3;

/// See `SPECIAL_ODDS`.
pub const SPECIAL_OUT_OF: u32 = 5;

/// The least factor, in permille, that a normal boss attack is scaled by.
pub const VARIANCE_LOW: u32 = 800;

/// The factor, in permille, under which a normal boss attack stays.
pub const VARIANCE_HIGH: u32 = 1200;

/// Calls `Rng::random_range` on the inclusive range from `low` to `high`.
/// The crate promises a value in the range; it panics on an empty range,
/// which the precondition rules out.
#[verifier::external_body]
pub(crate) fn random_between(rng: &mut StdRng, low: u32, high: u32) -> (drawn: u32)
    requires
        low <= high,
    ensures
        low <= drawn <= high,
{
    rng.random_range(low..=high)
}

/// Calls `Rng::random_ratio`, which returns `true` with a chance of
/// `numerator` in `denominator`: always when the two are equal, never when
/// `numerator` is zero. It panics when `denominator` is zero or less than
/// `numerator`, which the precondition rules out.
#[verifier::external_body]
pub(crate) fn random_chance(rng: &mut StdRng, numerator: u32, denominator: u32) -> (hit: bool)
    requires
        0 < denominator,
        numerator <= denominator,
    ensures
        numerator == denominator ==> hit,
        numerator == 0 ==> !hit,
{
    rng.random_ratio(numerator, denominator)
}

/// The draws that one turn may consume.
#[derive(Debug, Clone, Copy, PartialEq, Eq, Structural)]
pub struct Rolls {
    /// The roll of a mercy attempt.
    pub mercy: u32,
    /// Whether a boss whose special attack is ready chooses to use it.
    pub special: bool,
    /// The factor, in permille, of a normal boss attack.
    pub variance: u32,
}

/// Whether a mercy attempt with the given roll succeeds.
pub open spec fn mercy_granted(roll: u32) -> bool {
    MERCY_CHANCE >= roll
}

impl Rolls {
    /// Whether the draws are such as the random source gives: a roll of a
    /// ten-faced die, and a factor from eight tenths up to, but not
    /// including, twelve tenths.
    pub open spec fn in_range(self) -> bool {
        &&& 1 <= self.mercy <= MERCY_FACES
        &&& VARIANCE_LOW <= self.variance < VARIANCE_HIGH
    }

    /// What stands for draws that a turn does not consume: a roll of one,
    /// no special attack, and a factor of one.
    pub open spec fn unused() -> Rolls {
        Rolls { mercy: 1, special: false, variance: 1000 }
    }

    /// The draws of a turn that consumes none.
    pub fn idle() -> (rolls: Rolls)
        ensures
            rolls == Rolls::unused(),
            rolls.in_range(),
    {
        Rolls { mercy: 1, special: false, variance: 1000 }
    }

    /// Draws everything that a turn may consume from a random source.
    pub fn draw(rng: &mut StdRng) -> (rolls: Rolls)
        ensures
            rolls.in_range(),
    {
        let mercy = mercy_roll(rng);
        let special = special_choice(rng);
        let variance = attack_variance(rng);
        Rolls { mercy, special, variance }
    }

    /// Draws the roll of a mercy attempt and nothing else.
    pub fn draw_mercy(rng: &mut StdRng) -> (rolls: Rolls)
        ensures
            rolls.in_range(),
            rolls == (Rolls { mercy: rolls.mercy, ..Rolls::unused() }),
    {
        Rolls { mercy: mercy_roll(rng), special: false, variance: 1000 }
    }

    /// Draws what the turn of a boss consumes and nothing else.
    pub fn draw_counterattack(rng: &mut StdRng) -> (rolls: Rolls)
        ensures
            rolls.in_range(),
            rolls.mercy == Rolls::unused().mercy,
    {
        let special = special_choice(rng);
        let variance = attack_variance(rng);
        Rolls { mercy: 1, special, variance }
    }
}

/// Rolls the ten-faced die of a mercy attempt.
fn mercy_roll(rng: &mut StdRng) -> (roll: u32)
    ensures
        1 <= roll <= MERCY_FACES,
{
    random_between(rng, 1, MERCY_FACES)
}

/// Lets a boss whose special attack is ready choose whether to use it: it
/// does so `SPECIAL_ODDS` times out of `SPECIAL_OUT_OF`.
fn special_choice(rng: &mut StdRng) -> (special: bool) {
    random_chance(rng, SPECIAL_ODDS, SPECIAL_OUT_OF)
}

/// Draws the factor, in permille, of a normal boss attack.
fn attack_variance(rng: &mut StdRng) -> (variance: u32)
    ensures
        VARIANCE_LOW <= variance < VARIANCE_HIGH,
{
    random_between(rng, VARIANCE_LOW, VARIANCE_HIGH - 1)
}

/// Decides a mercy attempt from its roll: it succeeds when the mercy chance
/// is at least the roll.
pub fn mercy_succeeds(roll: u32) -> (granted: bool)
    ensures
        granted == mercy_granted(roll),
        granted <==> roll <= 7,
{
    MERCY_CHANCE >= roll
}

/// The rolls of the ten-faced die on which a mercy attempt succeeds.
pub open spec fn granting_rolls() -> Set<int> {
    Set::new(|roll: int| 1 <= roll <= MERCY_FACES && mercy_granted(roll as u32))
}

/// Of the ten rolls that a mercy attempt can draw, exactly seven succeed:
/// one to seven, seven itself included. A fair die grants mercy seven times
/// in ten.
pub proof fn lemma_mercy_odds()
    ensures
        granting_rolls().finite(),
        granting_rolls().len() == MERCY_CHANCE,
        forall|roll: u32| 1 <= roll <= MERCY_FACES ==> (mercy_granted(roll) <==> roll <= 7),
{
    vstd::set_lib::lemma_int_range(1, 8);
    assert(granting_rolls() =~= vstd::set_lib::set_int_range(1, 8));
}

} // verus!
