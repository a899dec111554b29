use pitagora::combat::{attack, effective_damage};
use pitagora::fixed::{is_within_percent, percent_of, raise, reduce, round_whole, scale, UNIT};

#[test]
fn unit_is_a_thousand() {
    assert_eq!(UNIT, 1000);
}

#[test]
fn scale_multiplies_by_permille() {
    assert_eq!(scale(25 * UNIT, 1200), 30 * UNIT);
    assert_eq!(scale(35 * UNIT, 1300), 45_500);
    assert_eq!(scale(15 * UNIT, 800), 12 * UNIT);
    assert_eq!(scale(60 * UNIT, 2500), 150 * UNIT);
    assert_eq!(scale(10 * UNIT, 500), 5 * UNIT);
    assert_eq!(scale(12_345, 1000), 12_345);
    assert_eq!(scale(12_345, 0), 0);
}

#[test]
fn scale_rounds_down() {
    assert_eq!(scale(76_230, 1100), 83_853);
    assert_eq!(scale(83_853, 1100), 92_238);
    assert_eq!(scale(10_935, 900), 9_841);
    assert_eq!(scale(1, 999), 0);
    assert_eq!(scale(3, 500), 1);
}

#[test]
fn scale_saturates() {
    assert_eq!(scale(u64::MAX, 1000), u64::MAX);
    assert_eq!(scale(u64::MAX, 1001), u64::MAX);
    assert_eq!(scale(u64::MAX, u32::MAX), u64::MAX);
    assert_eq!(scale(u64::MAX, 500), u64::MAX / 2);
}

#[test]
fn raise_adds_and_saturates() {
    assert_eq!(raise(0, 100 * UNIT), 100 * UNIT);
    assert_eq!(raise(7, 8), 15);
    assert_eq!(raise(u64::MAX - 1, 1), u64::MAX);
    assert_eq!(raise(u64::MAX - 1, 2), u64::MAX);
    assert_eq!(raise(u64::MAX, u64::MAX), u64::MAX);
}

#[test]
fn reduce_stops_at_zero() {
    assert_eq!(reduce(200 * UNIT, 30 * UNIT), 170 * UNIT);
    assert_eq!(reduce(5, 5), 0);
    assert_eq!(reduce(5, 6), 0);
    assert_eq!(reduce(0, u64::MAX), 0);
    assert_eq!(reduce(9, 0), 9);
}

#[test]
fn percent_of_is_the_share_in_thousandths_of_a_percent() {
    assert_eq!(percent_of(170 * UNIT, 200 * UNIT), 85 * UNIT);
    assert_eq!(percent_of(95 * UNIT, 200 * UNIT), 47_500);
    assert_eq!(percent_of(200 * UNIT, 200 * UNIT), 100 * UNIT);
    assert_eq!(percent_of(0, 200 * UNIT), 0);
    assert_eq!(percent_of(1, 3), 33_333);
    assert_eq!(percent_of(2, 3), 66_666);
}

#[test]
fn percent_of_nothing_is_zero() {
    assert_eq!(percent_of(0, 0), 0);
    assert_eq!(percent_of(17, 0), 0);
}

#[test]
fn percent_of_saturates() {
    assert_eq!(percent_of(u64::MAX, 1), u64::MAX);
    assert_eq!(percent_of(1000 * UNIT, 100 * UNIT), 1000 * UNIT);
}

#[test]
fn round_whole_goes_to_the_nearest() {
    assert_eq!(round_whole(0), 0);
    assert_eq!(round_whole(499), 0);
    assert_eq!(round_whole(501), 1);
    assert_eq!(round_whole(30 * UNIT), 30);
    assert_eq!(round_whole(45_499), 45);
    assert_eq!(round_whole(45_501), 46);
    assert_eq!(round_whole(u64::MAX), 18_446_744_073_709_552);
}

#[test]
fn round_whole_breaks_ties_towards_even() {
    assert_eq!(round_whole(500), 0);
    assert_eq!(round_whole(1_500), 2);
    assert_eq!(round_whole(2_500), 2);
    assert_eq!(round_whole(37_500), 38);
    assert_eq!(round_whole(62_500), 62);
    assert_eq!(round_whole(45_500), 46);
}

#[test]
fn effective_damage_is_damage_less_defense() {
    assert_eq!(effective_damage(40 * UNIT, 10 * UNIT), 30 * UNIT);
    assert_eq!(effective_damage(15 * UNIT, 0), 15 * UNIT);
    assert_eq!(effective_damage(15 * UNIT, 25 * UNIT - 1), UNIT);
    assert_eq!(effective_damage(12 * UNIT + 1, 11 * UNIT), UNIT + 1);
}

#[test]
fn effective_damage_is_one_point_at_least() {
    assert_eq!(effective_damage(5 * UNIT, 10 * UNIT), UNIT);
    assert_eq!(effective_damage(10 * UNIT, 10 * UNIT), UNIT);
    assert_eq!(effective_damage(11 * UNIT, 10 * UNIT), UNIT);
    assert_eq!(effective_damage(10 * UNIT + 500, 10 * UNIT), UNIT);
    assert_eq!(effective_damage(0, 0), UNIT);
    assert_eq!(effective_damage(0, u64::MAX), UNIT);
}

#[test]
fn attack_takes_the_effective_damage_off_the_health() {
    assert_eq!(attack(40 * UNIT, 200 * UNIT, 10 * UNIT), (170 * UNIT, 30 * UNIT));
    assert_eq!(attack(15 * UNIT, 150 * UNIT, 0), (135 * UNIT, 15 * UNIT));
    assert_eq!(attack(1, 150 * UNIT, 50 * UNIT), (149 * UNIT, UNIT));
}

#[test]
fn attack_never_heals_and_stops_at_zero() {
    assert_eq!(attack(500 * UNIT, 20 * UNIT, 0), (0, 500 * UNIT));
    assert_eq!(attack(20 * UNIT, 20 * UNIT, 0), (0, 20 * UNIT));
    assert_eq!(attack(0, 500, 0), (0, UNIT));
    for raw in [0u64, 1, 999, 1000, 1001, 40_000, u64::MAX] {
        for defense in [0u64, 1, 10_000, u64::MAX] {
            for health in [0u64, 1, 999, 1000, 200_000, u64::MAX] {
                let (left, dealt) = attack(raw, health, defense);
                assert!(left <= health);
                assert!(dealt >= UNIT);
                assert_eq!(dealt, raw.saturating_sub(defense).max(UNIT));
                assert_eq!(left, health.saturating_sub(dealt));
            }
        }
    }
}

#[test]
fn shares_are_compared_exactly() {
    assert!(is_within_percent(100 * UNIT, 200 * UNIT, 50));
    assert!(!is_within_percent(100 * UNIT + 1, 200 * UNIT, 50));
    assert!(is_within_percent(0, 1, 0));
    assert!(!is_within_percent(1, u64::MAX, 0));
    assert!(is_within_percent(1, 3, 34));
    assert!(!is_within_percent(1, 3, 33));
    assert!(is_within_percent(u64::MAX, u64::MAX, 100));
    assert!(!is_within_percent(u64::MAX, u64::MAX, 99));
    assert!(!is_within_percent(u64::MAX, 1, u64::MAX));
    assert!(is_within_percent(u64::MAX / 100, 1, u64::MAX));
    assert!(!is_within_percent(u64::MAX / 100 + 1, 1, u64::MAX));
    assert!(!is_within_percent(0, 0, 100));
    assert!(!is_within_percent(5, 0, u64::MAX));
}
