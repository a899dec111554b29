//! Fixed-point arithmetic on thousandths.
//!
//! Health, damage, defense, experience and every factor applied to them are
//! unsigned counts of thousandths: `UNIT` stands for one whole point and a
//! factor of `1000` permille leaves a quantity unchanged. Results that do not
//! fit are held at `u64::MAX`; differences stop at zero; quotients round down.

use vstd::prelude::*;

verus! {

/// One whole point in thousandths.
pub const UNIT: u64 = 1000;

/// `x` as a quantity: negative values count as zero, and values that do not
/// fit are held at the largest representable quantity.
pub open spec fn saturated(x: int) -> u64 {
    if x > u64::MAX {
        u64::MAX
    } else if x < 0 {
        0
    } else {
        x as u64
    }
}

/// `x` multiplied by `permille / 1000`, rounded down and saturated.
pub open spec fn scaled(x: u64, permille: u32) -> u64 {
    saturated(x * permille / 1000)
}

/// `x + by`, saturated.
pub open spec fn raised(x: u64, by: u64) -> u64 {
    saturated(x + by)
}

/// `x - by`, stopping at zero.
pub open spec fn reduced(x: u64, by: u64) -> u64 {
    saturated(x - by)
}

/// `part / whole * 100` in thousandths of a percent, rounded down and
/// saturated; zero where `whole` is zero.
pub open spec fn percent(part: u64, whole: u64) -> u64 {
    if whole == 0 {
        0
    } else {
        saturated(part * 100 * 1000 / (whole as int))
    }
}

/// Whether `part` is at most `share` whole percent of `whole`. The comparison
/// is exact: nothing is rounded. Nothing is a share of a whole of zero.
pub open spec fn within_percent(part: u64, whole: u64, share: u64) -> bool {
    whole > 0 && part * 100 <= share * whole
}

/// The whole number nearest to `x` thousandths; a tie goes to the even one.
pub open spec fn rounded(x: u64) -> u64 {
    let floor = x / 1000;
    let rest = x % 1000;
    if rest > 500 || (rest == 500 && floor % 2 == 1) {
        (floor + 1) as u64
    } else {
        floor
    }
}

/// Multiplies a quantity by a factor given in permille.
pub fn scale(x: u64, permille: u32) -> (r: u64)
    ensures
        r == scaled(x, permille),
{
    assert(x * permille <= 0xFFFF_FFFF_FFFF_FFFF * 0xFFFF_FFFF) by (nonlinear_arith)
        requires
            0 <= x <= 0xFFFF_FFFF_FFFF_FFFF,
            0 <= permille <= 0xFFFF_FFFF,
    ;
    let wide: u128 = (x as u128) * (permille as u128) / 1000;
    if wide > u64::MAX as u128 {
        u64::MAX
    } else {
        wide as u64
    }
}

/// Adds two quantities.
pub fn raise(x: u64, by: u64) -> (r: u64)
    ensures
        r == raised(x, by),
{
    if by > u64::MAX - x {
        u64::MAX
    } else {
        x + by
    }
}

/// Takes `by` away from `x`.
pub fn reduce(x: u64, by: u64) -> (r: u64)
    ensures
        r == reduced(x, by),
{
    if by >= x {
        0
    } else {
        x - by
    }
}

/// The share of `whole` that `part` is, in thousandths of a percent.
pub fn percent_of(part: u64, whole: u64) -> (r: u64)
    ensures
        r == percent(part, whole),
{
    if whole == 0 {
        0
    } else {
        let wide: u128 = (part as u128) * 100_000 / (whole as u128);
        if wide > u64::MAX as u128 {
            u64::MAX
        } else {
            wide as u64
        }
    }
}

/// Tells whether `part` is at most `share` whole percent of `whole`.
pub fn is_within_percent(part: u64, whole: u64, share: u64) -> (within: bool)
    ensures
        within == within_percent(part, whole, share),
{
    assert(share * whole <= 0xFFFF_FFFF_FFFF_FFFF * 0xFFFF_FFFF_FFFF_FFFF) by (nonlinear_arith)
        requires
            0 <= share <= 0xFFFF_FFFF_FFFF_FFFF,
            0 <= whole <= 0xFFFF_FFFF_FFFF_FFFF,
    ;
    whole > 0 && (part as u128) * 100 <= (share as u128) * (whole as u128)
}

/// A part that is within a share of its whole has a percentage, rounded
/// down, of at most that share; and one whose rounded percentage is under
/// the share is within it.
pub proof fn lemma_within_percent(part: u64, whole: u64, share: u64)
    requires
        whole > 0,
        share <= 100,
    ensures
        within_percent(part, whole, share) ==> percent(part, whole) <= share * UNIT,
        percent(part, whole) < share * UNIT ==> within_percent(part, whole, share),
{
    let w = whole as int;
    let p = part as int;
    let s = share as int;
    let quotient = p * 100 * 1000 / w;
    vstd::arithmetic::div_mod::lemma_fundamental_div_mod(p * 100 * 1000, w);
    vstd::arithmetic::div_mod::lemma_mod_bound(p * 100 * 1000, w);
    assert((quotient + 1) * w == quotient * w + w) by (nonlinear_arith);
    if within_percent(part, whole, share) {
        assert(quotient <= s * 1000) by (nonlinear_arith)
            requires
                quotient * w <= p * 100 * 1000,
                p * 100 <= s * w,
                w > 0,
        ;
    }
    if percent(part, whole) < share * UNIT {
        assert(p * 100 <= s * w) by (nonlinear_arith)
            requires
                p * 100 * 1000 < (quotient + 1) * w,
                quotient + 1 <= s * 1000,
                w > 0,
        ;
    }
}

/// Rounds a quantity to a whole number of points.
pub fn round_whole(x: u64) -> (r: u64)
    ensures
        r == rounded(x),
{
    let floor: u64 = x / 1000;
    let rest: u64 = x % 1000;
    if rest > 500 || (rest == 500 && floor % 2 == 1) {
        floor + 1
    } else {
        floor
    }
}

} // verus!
