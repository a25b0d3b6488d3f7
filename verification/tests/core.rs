use stat_blob::build_state::BuildState;
use stat_blob::catalog::PerkPoint;
use stat_blob::geometry::{
    ellipse_radius, isqrt, sector_of, Axis, ANG_DEXTERITY, ANG_INTELLIGENCE, ANG_STRENGTH,
    FULL_TURN, MAX_STAT, MAX_TOTAL_POINTS, MIN_STAT, STAT_SCALE,
};
use stat_blob::reach::{current_radius, is_unlocked, UNLOCK_EPSILON_MILLI};

fn build(strength: u32, dexterity: u32, intelligence: u32) -> BuildState {
    BuildState {
        strength,
        dexterity,
        intelligence,
    }
}

fn perk(angle: u32, radius_val: u32) -> PerkPoint {
    PerkPoint {
        name: String::from("probe"),
        description: String::from("probe"),
        angle,
        radius_val,
        cost: 1,
    }
}

#[test]
fn isqrt_exact_values() {
    assert_eq!(isqrt(0), 0);
    assert_eq!(isqrt(1), 1);
    assert_eq!(isqrt(3), 1);
    assert_eq!(isqrt(4), 2);
    assert_eq!(isqrt(99), 9);
    assert_eq!(isqrt(10_000_000_000), 100_000);
    assert_eq!(isqrt(u64::MAX), 4_294_967_295);
}

#[test]
fn ellipse_circle_degeneracy() {
    for &v in &[1_000u32, 10_000, 40_000, 55_000, 100_000] {
        for &(n, d) in &[(0u32, 1u32), (1, 2), (1, 3), (7, 13), (44_999, 45_000), (1, 1)] {
            assert_eq!(ellipse_radius(v, v, n, d), v);
        }
    }
}

#[test]
fn ellipse_endpoints() {
    for &(v1, v2) in &[(100_000u32, 10_000u32), (10_000, 100_000), (55_000, 80_000)] {
        assert_eq!(ellipse_radius(v1, v2, 0, 90_000), v1);
        assert_eq!(ellipse_radius(v1, v2, 90_000, 90_000), v2);
        assert_eq!(ellipse_radius(v1, v2, 0, 135_000), v1);
        assert_eq!(ellipse_radius(v1, v2, 135_000, 135_000), v2);
    }
}

#[test]
fn ellipse_zero_pair() {
    for &(n, d) in &[(0u32, 1u32), (1, 2), (44_999, 45_000)] {
        assert_eq!(ellipse_radius(0, 0, n, d), 0);
    }
}

#[test]
fn ellipse_exact_interior_values() {
    // Quarter-ellipse between 100 and 10 stat units, halfway: the exact
    // floor of 1000 * sqrt(2 * 100^2 * 10^2 / (10^2 + 100^2)).
    assert_eq!(ellipse_radius(100_000, 10_000, 1, 2), 14_071);
    assert_eq!(ellipse_radius(100_000, 10_000, 22_500, 45_000), 14_071);
    assert_eq!(ellipse_radius(100_000, 10_000, 1, 4), 19_706);
    // Not a linear blend: halfway between 100 and 10 would be 55.
    assert_ne!(ellipse_radius(100_000, 10_000, 1, 2), 55_000);
}

#[test]
fn ellipse_monotone_in_position_toward_larger_value() {
    let mut prev = ellipse_radius(10_000, 100_000, 0, 45_000);
    assert_eq!(prev, 10_000);
    for k in 1..=45u32 {
        let r = ellipse_radius(10_000, 100_000, k * 1_000, 45_000);
        assert!(r >= prev);
        prev = r;
    }
    assert_eq!(prev, 100_000);
}

#[test]
fn sector_partition_boundaries() {
    let s = sector_of(ANG_DEXTERITY);
    assert_eq!(s.start_axis, Axis::Dexterity);
    assert_eq!(s.end_axis, Axis::Strength);
    assert_eq!(s.t_num, 0);
    assert_eq!(s.t_den, 90_000);

    let s = sector_of(134_999);
    assert_eq!(s.start_axis, Axis::Dexterity);
    assert_eq!(s.t_num, 89_999);
    assert_eq!(s.t_den, 90_000);

    let s = sector_of(ANG_STRENGTH);
    assert_eq!(s.start_axis, Axis::Strength);
    assert_eq!(s.end_axis, Axis::Intelligence);
    assert_eq!(s.t_num, 0);
    assert_eq!(s.t_den, 135_000);

    let s = sector_of(269_999);
    assert_eq!(s.start_axis, Axis::Strength);
    assert_eq!(s.t_num, 134_999);

    let s = sector_of(ANG_INTELLIGENCE);
    assert_eq!(s.start_axis, Axis::Intelligence);
    assert_eq!(s.end_axis, Axis::Dexterity);
    assert_eq!(s.t_num, 0);
    assert_eq!(s.t_den, 135_000);

    let s = sector_of(359_999);
    assert_eq!(s.start_axis, Axis::Intelligence);
    assert_eq!(s.t_num, 89_999);

    let s = sector_of(0);
    assert_eq!(s.start_axis, Axis::Intelligence);
    assert_eq!(s.end_axis, Axis::Dexterity);
    assert_eq!(s.t_num, 90_000);
    assert_eq!(s.t_den, 135_000);

    let s = sector_of(44_999);
    assert_eq!(s.start_axis, Axis::Intelligence);
    assert_eq!(s.t_num, 134_999);
    assert_eq!(s.t_den, 135_000);

    // Widths: 90 + 135 + 135 degrees close the circle.
    assert_eq!(90_000 + 135_000 + 135_000, FULL_TURN);
}

#[test]
fn sector_of_folds_whole_turns() {
    let a = sector_of(ANG_STRENGTH + FULL_TURN);
    let b = sector_of(ANG_STRENGTH);
    assert_eq!(a.start_axis, b.start_axis);
    assert_eq!(a.t_num, b.t_num);
    assert_eq!(a.t_den, b.t_den);
}

#[test]
fn new_build_sits_at_the_floor() {
    let b = BuildState::new();
    assert_eq!(b.strength, MIN_STAT);
    assert_eq!(b.dexterity, MIN_STAT);
    assert_eq!(b.intelligence, MIN_STAT);
    assert_eq!(b.total_points(), 30);
}

#[test]
fn adjust_clamps_to_axis_and_budget() {
    let mut b = BuildState::new();
    b.adjust_axis(Axis::Strength, 5);
    assert_eq!(b.strength, 15);
    b.adjust_axis(Axis::Strength, 1_000);
    assert_eq!(b.strength, MAX_STAT);
    assert_eq!(b.total_points(), 120);
    // Budget exhausted: further raises are no-ops on every axis.
    b.adjust_axis(Axis::Dexterity, 5);
    assert_eq!(b.dexterity, MIN_STAT);
    b.adjust_axis(Axis::Intelligence, 1);
    assert_eq!(b.intelligence, MIN_STAT);
    // A cut never goes below the floor, even for the extreme request.
    b.adjust_axis(Axis::Strength, -5);
    assert_eq!(b.strength, 95);
    b.adjust_axis(Axis::Strength, i32::MIN);
    assert_eq!(b.strength, MIN_STAT);
    // Freed budget can be spent elsewhere, up to the smaller headroom.
    b.adjust_axis(Axis::Dexterity, 95);
    assert_eq!(b.dexterity, 100);
    assert!(b.total_points() <= MAX_TOTAL_POINTS);
}

#[test]
fn adjust_keeps_invariant_over_many_steps() {
    let mut b = BuildState::new();
    let deltas = [
        (Axis::Strength, 35),
        (Axis::Dexterity, 90),
        (Axis::Intelligence, 90),
        (Axis::Strength, -100),
        (Axis::Dexterity, -5),
        (Axis::Intelligence, 120),
        (Axis::Strength, 7),
    ];
    for &(axis, delta) in &deltas {
        b.adjust_axis(axis, delta);
        for v in [b.strength, b.dexterity, b.intelligence] {
            assert!((MIN_STAT..=MAX_STAT).contains(&v));
        }
        assert!(b.strength + b.dexterity + b.intelligence <= MAX_TOTAL_POINTS);
    }
}

#[test]
fn reset_restores_the_floor() {
    let mut b = build(100, 10, 10);
    b.reset();
    assert_eq!(b, BuildState::new());
}

#[test]
fn one_axis_maxed_matches_landmarks() {
    let mut b = BuildState::new();
    b.adjust_axis(Axis::Strength, 90);
    assert_eq!(b, build(100, 10, 10));
    assert_eq!(current_radius(&b, ANG_STRENGTH), 100 * STAT_SCALE);
    assert_eq!(current_radius(&b, ANG_DEXTERITY), 10 * STAT_SCALE);
    assert_eq!(current_radius(&b, ANG_INTELLIGENCE), 10 * STAT_SCALE);
}

#[test]
fn exhausted_budget_gives_perfect_circle() {
    let mut b = BuildState::new();
    b.adjust_axis(Axis::Strength, 30);
    b.adjust_axis(Axis::Dexterity, 30);
    b.adjust_axis(Axis::Intelligence, 30);
    assert_eq!(b, build(40, 40, 40));
    for deg in 0..360u32 {
        assert_eq!(current_radius(&b, deg * 1_000), 40 * STAT_SCALE);
    }
    for off in [500u32, 202_500, 337_500] {
        assert_eq!(current_radius(&b, off), 40 * STAT_SCALE);
    }
    // The budget is exhausted: every further raise is a no-op.
    b.adjust_axis(Axis::Strength, 5);
    b.adjust_axis(Axis::Dexterity, 5);
    b.adjust_axis(Axis::Intelligence, 5);
    assert_eq!(b, build(40, 40, 40));
}

#[test]
fn landmark_perk_unlocks_with_epsilon() {
    let p = perk(ANG_STRENGTH, 80 * STAT_SCALE);
    assert!(!is_unlocked(&build(79, 10, 10), &p));
    assert!(is_unlocked(&build(80, 10, 10), &p));
    // Half a stat unit below the requirement is enough: epsilon-inclusive.
    let near = perk(ANG_STRENGTH, 79 * STAT_SCALE + UNLOCK_EPSILON_MILLI);
    assert!(is_unlocked(&build(79, 10, 10), &near));
    let over = perk(ANG_STRENGTH, 79 * STAT_SCALE + UNLOCK_EPSILON_MILLI + 1);
    assert!(!is_unlocked(&build(79, 10, 10), &over));
}

#[test]
fn raising_governing_axes_never_locks() {
    // Halfway through the dexterity-to-strength sector with (90, 10, 10)
    // the boundary sits at exactly 14.055 stat units.
    let p = perk(90_000, 14_055);
    let b1 = build(90, 10, 10);
    assert_eq!(current_radius(&b1, 90_000), 14_055);
    assert!(is_unlocked(&b1, &p));
    // Raising a governing axis (dexterity) within the budget keeps it.
    let b2 = build(90, 20, 10);
    assert_eq!(current_radius(&b2, 90_000), 27_610);
    assert!(is_unlocked(&b2, &p));
    // Raising the other governing axis keeps it too.
    let b3 = build(100, 10, 10);
    assert!(is_unlocked(&b3, &p));
}

#[test]
fn current_radius_folds_whole_turns() {
    let b = build(100, 10, 10);
    assert_eq!(
        current_radius(&b, ANG_STRENGTH + FULL_TURN),
        current_radius(&b, ANG_STRENGTH)
    );
    assert_eq!(current_radius(&b, FULL_TURN), current_radius(&b, 0));
}
