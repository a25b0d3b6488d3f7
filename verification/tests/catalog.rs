use stat_blob::catalog::{
    generate_perk_catalog, place_perk, PerkPoint, PLACEMENT_STEPS, RED_GIANT_COST,
    RED_GIANT_COUNT, RED_GIANT_MIN_PCT, STAR_COST, STAR_COUNT, STAR_MIN_PCT, SUPERNOVA_COST,
};
use stat_blob::geometry::{
    ellipse_radius, ANG_DEXTERITY, ANG_INTELLIGENCE, ANG_STRENGTH, FULL_TURN, MAX_RADIUS_MILLI,
    MIN_STAT, STAT_SCALE,
};

/// The outermost radius the budget ever allows at grid position `k`,
/// recomputed from the linear envelope.
fn envelope_limit_at(k: u32) -> u32 {
    let v1 = MAX_RADIUS_MILLI - 2 * k;
    let v2 = MIN_STAT * STAT_SCALE + 2 * k;
    ellipse_radius(v1, v2, k, PLACEMENT_STEPS)
}

/// Recover the grid position of a randomized perk from its angle: each
/// sector advances by a fixed step per position, so the offset past the
/// opening landmark must divide evenly.
fn recover_step(angle: u32) -> u32 {
    assert!(angle < FULL_TURN);
    let (offset, step) = if (ANG_DEXTERITY..ANG_STRENGTH).contains(&angle) {
        (angle - ANG_DEXTERITY, 2)
    } else if (ANG_STRENGTH..ANG_INTELLIGENCE).contains(&angle) {
        (angle - ANG_STRENGTH, 3)
    } else if angle >= ANG_INTELLIGENCE {
        (angle - ANG_INTELLIGENCE, 3)
    } else {
        (angle + (FULL_TURN - ANG_INTELLIGENCE), 3)
    };
    assert_eq!(offset % step, 0, "angle off the placement grid");
    let k = offset / step;
    assert!(k < PLACEMENT_STEPS);
    k
}

fn assert_random_tier(perks: &[PerkPoint], cost: u32, min_pct: u32) {
    for p in perks {
        assert_eq!(p.cost, cost);
        assert!(p.angle < FULL_TURN);
        assert!(p.radius_val <= MAX_RADIUS_MILLI);
        let k = recover_step(p.angle);
        let limit = envelope_limit_at(k);
        assert!(
            p.radius_val < limit,
            "perk radius {} reaches past the envelope {}",
            p.radius_val,
            limit
        );
        assert!(
            p.radius_val >= limit * min_pct / 100,
            "perk radius {} below the tier floor of {}",
            p.radius_val,
            limit
        );
    }
}

#[test]
fn catalog_has_the_three_tiers_in_order() {
    let perks = generate_perk_catalog();
    assert_eq!(perks.len(), 9 + (RED_GIANT_COUNT + STAR_COUNT) as usize);
    for p in &perks[..9] {
        assert_eq!(p.cost, SUPERNOVA_COST);
    }
    assert_random_tier(&perks[9..49], RED_GIANT_COST, RED_GIANT_MIN_PCT);
    assert_random_tier(&perks[49..], STAR_COST, STAR_MIN_PCT);
}

#[test]
fn fixed_perks_are_as_authored() {
    let perks = generate_perk_catalog();
    let expected = [
        ("Warrior", ANG_STRENGTH, 80 * STAT_SCALE),
        ("Ranger", ANG_DEXTERITY, 80 * STAT_SCALE),
        ("Mage", ANG_INTELLIGENCE, 80 * STAT_SCALE),
        ("Duelist", 90_000, 40 * STAT_SCALE),
        ("Monk", 90_000, 55 * STAT_SCALE),
        ("Ranger-Mage", 337_500, 40 * STAT_SCALE),
        ("Arcane Trickster", 337_500, 55 * STAT_SCALE),
        ("Battlemage", 202_500, 40 * STAT_SCALE),
        ("Paladin", 202_500, 55 * STAT_SCALE),
    ];
    for (p, &(name, angle, radius)) in perks.iter().zip(expected.iter()) {
        assert_eq!(p.name, name);
        assert_eq!(p.angle, angle);
        assert_eq!(p.radius_val, radius);
        assert_eq!(p.cost, SUPERNOVA_COST);
    }
}

#[test]
fn random_perks_carry_sequential_names() {
    let perks = generate_perk_catalog();
    assert_eq!(perks[9].name, "Red Giant 1");
    assert_eq!(perks[48].name, "Red Giant 40");
    assert_eq!(perks[49].name, "Star 1");
    assert_eq!(perks[348].name, "Star 300");
    for p in &perks[9..] {
        assert_eq!(p.description, "Passive bonus");
    }
}

#[test]
fn envelope_limit_spans_the_reachable_band() {
    // At the sector's start one axis is maxed: the envelope is the full
    // 100 stat units; halfway both envelope values meet at 55.
    assert_eq!(envelope_limit_at(0), 100 * STAT_SCALE);
    assert_eq!(envelope_limit_at(PLACEMENT_STEPS / 2), 55 * STAT_SCALE);
    for k in (0..PLACEMENT_STEPS).step_by(1_500) {
        let limit = envelope_limit_at(k);
        assert!((10 * STAT_SCALE..=100 * STAT_SCALE).contains(&limit));
    }
}

#[test]
fn placement_is_deterministic_in_its_draws() {
    // At the start of the first sector the envelope is the full 100 stat
    // units; a 40 percent floor with no extra offset lands exactly there.
    let p = place_perk(String::from("a"), 5, 40, 0, 0, 0);
    assert_eq!(p.angle, 45_000);
    assert_eq!(p.radius_val, 40_000);
    assert_eq!(p.description, "Passive bonus");

    // Deep in the wraparound sector the angle folds past zero, and the
    // envelope pair (20, 90) gives an exact elliptical limit of 50.798.
    let q = place_perk(String::from("b"), 2, 20, 2, 40_000, 0);
    assert_eq!(q.angle, 30_000);
    assert_eq!(q.radius_val, 10_159);
    assert_eq!(envelope_limit_at(40_000), 50_798);

    // The same draws reproduce the same perk.
    let r1 = place_perk(String::from("c"), 2, 20, 1, 12_345, 77);
    let r2 = place_perk(String::from("c"), 2, 20, 1, 12_345, 77);
    assert_eq!(r1.angle, r2.angle);
    assert_eq!(r1.radius_val, r2.radius_val);
    assert_eq!(r1.angle, 172_035);
    assert_eq!(envelope_limit_at(12_345), 53_006);
    assert_eq!(r1.radius_val, 53_006 * 20 / 100 + 77);
}

#[test]
fn two_catalogs_share_the_fixed_tier() {
    let a = generate_perk_catalog();
    let b = generate_perk_catalog();
    for i in 0..9 {
        assert_eq!(a[i].name, b[i].name);
        assert_eq!(a[i].angle, b[i].angle);
        assert_eq!(a[i].radius_val, b[i].radius_val);
    }
}
