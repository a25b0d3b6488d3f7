//! The immutable perk catalog: nine hand-authored perks at the landmark
//! and midpoint angles, and two randomized tiers scattered inside the
//! outermost envelope the point budget ever allows.
//!
//! The randomized placement works on a fixed grid of positions per sector.
//! For a position `k` the best governing pair a player could ever reach is
//! approximated linearly across the sector — the opening value walks down
//! from the ceiling while the closing value walks up from the floor, the
//! third axis pinned at its floor. This linear envelope is a deliberate
//! simplification of the true budget frontier and is kept exactly as
//! stated so that generated content stays reproducible; the elliptical
//! radius of that pair bounds the perk's radius from above.

use crate::geometry::{
    ellipse_radius, lemma_radius_milli_between, radius_milli, ANG_DEXTERITY, ANG_INTELLIGENCE,
    ANG_STRENGTH, FULL_TURN, MAX_RADIUS_MILLI, MIN_STAT, STAT_SCALE,
};
use vstd::arithmetic::div_mod::lemma_fundamental_div_mod;
use vstd::prelude::*;

verus! {

/// Cost weight of the nine hand-authored perks.
pub const SUPERNOVA_COST: u32 = 10;

/// Cost weight of the mid randomized tier.
pub const RED_GIANT_COST: u32 = 5;

/// Cost weight of the large randomized tier.
pub const STAR_COST: u32 = 2;

/// Number of perks in the mid randomized tier.
pub const RED_GIANT_COUNT: u32 = 40;

/// Number of perks in the large randomized tier.
pub const STAR_COUNT: u32 = 300;

/// Radius floor of the mid tier, as a percentage of the envelope radius.
pub const RED_GIANT_MIN_PCT: u32 = 40;

/// Radius floor of the large tier, as a percentage of the envelope radius.
pub const STAR_MIN_PCT: u32 = 20;

/// Number of grid positions the randomized placement distinguishes within
/// one sector.
pub const PLACEMENT_STEPS: u32 = 45000;

/// A reward point at a fixed polar position. Created once during catalog
/// generation and never mutated; whether it is unlocked is derived from
/// the live build on every query, never stored.
pub struct PerkPoint {
    /// Display name.
    pub name: String,
    /// Flavor text shown with the perk.
    pub description: String,
    /// Angle, in thousandths of a degree, within `[0, FULL_TURN)`.
    pub angle: u32,
    /// Radius the blob must reach, in milli stat units.
    pub radius_val: u32,
    /// Cost weight, used by the presentation layer for emphasis.
    pub cost: u32,
}

impl PerkPoint {
    /// A perk sits on the plot: its angle inside one turn, its radius
    /// within the outermost reachable circle.
    pub open spec fn wf(self) -> bool {
        self.angle < FULL_TURN && self.radius_val <= MAX_RADIUS_MILLI
    }
}

/// Carrier of the thread-local generator of the rand crate, opaque to the
/// verified code.
#[verifier::external_type_specification]
#[verifier::external_body]
pub struct ExThreadRng(rand::rngs::ThreadRng);

/// Relies on rand::rng: hands out the thread-local generator. Nothing is
/// assumed of its state.
#[verifier::external_body]
fn fresh_rng() -> rand::rngs::ThreadRng {
    rand::rng()
}

/// Relies on rand::RngExt::random_range over `0..n`: the drawn value lies
/// in the half-open range, so strictly below `n`; `n >= 1` keeps the range
/// non-empty, which the call demands. Nothing is assumed about which value
/// comes out.
#[verifier::external_body]
fn draw_below(rng: &mut rand::rngs::ThreadRng, n: u32) -> (r: u32)
    requires
        1 <= n,
    ensures
        r < n,
{
    rand::RngExt::random_range(rng, 0..n)
}

/// Relies on std's format macro: joins a tier label and a decimal index
/// into a display name. Nothing is claimed of the text.
#[verifier::external_body]
fn numbered_name(prefix: &str, index: u32) -> String {
    format!("{} {}", prefix, index)
}

/// Opening governing value of the budget envelope at grid position `k`:
/// the linear approximation starts at the ceiling and gives up two milli
/// units per step across the sector.
pub open spec fn envelope_v1(k: int) -> int {
    MAX_RADIUS_MILLI - 2 * k
}

/// Closing governing value of the budget envelope at grid position `k`:
/// it climbs from the floor as the opening value falls.
pub open spec fn envelope_v2(k: int) -> int {
    MIN_STAT * STAT_SCALE + 2 * k
}

/// The outermost radius a perk placed at grid position `k` could ever need
/// to be reachable: the elliptical radius of the envelope pair there.
pub open spec fn envelope_limit(k: int) -> int {
    radius_milli(envelope_v1(k), envelope_v2(k), k, PLACEMENT_STEPS as int)
}

/// Opening landmark angle of generation sector `s`.
pub open spec fn gen_sector_start(s: int) -> int {
    if s == 0 {
        ANG_DEXTERITY as int
    } else if s == 1 {
        ANG_STRENGTH as int
    } else {
        ANG_INTELLIGENCE as int
    }
}

/// Thousandths of a degree per grid step in generation sector `s`: its
/// width divided by the number of grid positions.
pub open spec fn gen_sector_step(s: int) -> int {
    if s == 0 {
        2
    } else {
        3
    }
}

/// The perk sits at grid position `k` of sector `s` with a radius at least
/// the tier's floor share of the envelope radius there and strictly below
/// that envelope radius.
pub open spec fn placed_at(p: PerkPoint, min_ratio_pct: int, s: int, k: int) -> bool {
    &&& p.angle == (gen_sector_start(s) + k * gen_sector_step(s)) % (FULL_TURN as int)
    &&& envelope_limit(k) * min_ratio_pct / 100 <= p.radius_val
    &&& p.radius_val < envelope_limit(k)
}

/// Some sector and grid position place the perk: it is guaranteed
/// reachable under the budget (its radius stays below the envelope), and
/// never trivially close to the center (its radius stays at or above the
/// tier's floor share).
pub open spec fn placed_in_envelope(p: PerkPoint, min_ratio_pct: int) -> bool {
    exists|s: int, k: int|
        0 <= s < 3 && 0 <= k < PLACEMENT_STEPS && #[trigger] placed_at(p, min_ratio_pct, s, k)
}

/// Compute the envelope radius at grid position `k`, together with the
/// tier floor that a ratio of `min_ratio_pct` percent puts under it.
fn envelope_band(k: u32, min_ratio_pct: u32) -> (band: (u32, u32))
    requires
        k < PLACEMENT_STEPS,
        min_ratio_pct < 100,
    ensures
        band.0 == envelope_limit(k as int),
        band.1 == envelope_limit(k as int) * min_ratio_pct / 100,
        MIN_STAT * STAT_SCALE <= band.0 <= MAX_RADIUS_MILLI,
        band.1 < band.0,
{
    let v1: u32 = MAX_RADIUS_MILLI - 2 * k;
    let v2: u32 = MIN_STAT * STAT_SCALE + 2 * k;
    let limit: u32 = ellipse_radius(v1, v2, k, PLACEMENT_STEPS);
    proof {
        lemma_radius_milli_between(v1 as int, v2 as int, k as int, PLACEMENT_STEPS as int);
        assert((limit as int) * (min_ratio_pct as int) <= 100000 * 99) by (nonlinear_arith)
            requires
                limit <= 100000,
                min_ratio_pct <= 99,
        ;
    }
    let lo: u32 = limit * min_ratio_pct / 100;
    proof {
        assert((limit as int) * (min_ratio_pct as int) < (limit as int) * 100) by (nonlinear_arith)
            requires
                min_ratio_pct < 100,
                1 <= limit,
        ;
        lemma_fundamental_div_mod((limit as int) * (min_ratio_pct as int), 100);
    }
    (limit, lo)
}

/// Deterministic core of the randomized placement: put a perk at grid
/// position `step` of `sector`, its radius `radius_offset` milli units
/// above the tier floor there. The generator feeds this from a random
/// source; a fixed set of draws reproduces the same perk exactly.
pub fn place_perk(
    name: String,
    cost: u32,
    min_ratio_pct: u32,
    sector: u32,
    step: u32,
    radius_offset: u32,
) -> (p: PerkPoint)
    requires
        min_ratio_pct < 100,
        sector < 3,
        step < PLACEMENT_STEPS,
        envelope_limit(step as int) * min_ratio_pct / 100 + radius_offset < envelope_limit(
            step as int,
        ),
    ensures
        p.wf(),
        p.cost == cost,
        p.name == name,
        p.description@ == "Passive bonus"@,
        p.angle == (gen_sector_start(sector as int) + step * gen_sector_step(sector as int)) % (
        FULL_TURN as int),
        p.radius_val == envelope_limit(step as int) * min_ratio_pct / 100 + radius_offset,
        placed_at(p, min_ratio_pct as int, sector as int, step as int),
        placed_in_envelope(p, min_ratio_pct as int),
{
    let start: u32 = if sector == 0 {
        ANG_DEXTERITY
    } else if sector == 1 {
        ANG_STRENGTH
    } else {
        ANG_INTELLIGENCE
    };
    let per_step: u32 = if sector == 0 {
        2
    } else {
        3
    };
    let angle: u32 = (start + step * per_step) % FULL_TURN;
    let (limit, lo) = envelope_band(step, min_ratio_pct);
    let radius_val: u32 = lo + radius_offset;
    let p = PerkPoint {
        name,
        description: String::from_str("Passive bonus"),
        angle,
        radius_val,
        cost,
    };
    proof {
        assert(placed_at(p, min_ratio_pct as int, sector as int, step as int));
    }
    p
}

/// Place one randomized perk: draw a sector, a grid position inside it and
/// a radius between the tier's floor share and the envelope radius there.
fn random_perk(
    rng: &mut rand::rngs::ThreadRng,
    name: String,
    cost: u32,
    min_ratio_pct: u32,
) -> (p: PerkPoint)
    requires
        min_ratio_pct < 100,
    ensures
        p.wf(),
        p.cost == cost,
        p.name == name,
        p.description@ == "Passive bonus"@,
        placed_in_envelope(p, min_ratio_pct as int),
{
    let s: u32 = draw_below(rng, 3);
    let k: u32 = draw_below(rng, PLACEMENT_STEPS);
    let (limit, lo) = envelope_band(k, min_ratio_pct);
    let offset: u32 = draw_below(rng, limit - lo);
    place_perk(name, cost, min_ratio_pct, s, k, offset)
}

/// The angle of hand-authored perk `i`: one per axis landmark, then the
/// circular midpoints of the three sectors, each carrying two perks; the
/// wraparound midpoint averages across the top of the circle.
pub open spec fn supernova_angle(i: int) -> int {
    if i == 0 {
        ANG_STRENGTH as int
    } else if i == 1 {
        ANG_DEXTERITY as int
    } else if i == 2 {
        ANG_INTELLIGENCE as int
    } else if i == 3 || i == 4 {
        (ANG_STRENGTH + ANG_DEXTERITY) as int / 2
    } else if i == 5 || i == 6 {
        (ANG_DEXTERITY + ANG_INTELLIGENCE + FULL_TURN) as int / 2
    } else {
        (ANG_INTELLIGENCE + ANG_STRENGTH) as int / 2
    }
}

/// The radius of hand-authored perk `i`, in milli stat units: the three
/// landmark perks demand 80 stat units, the midpoint pairs 40 and 55.
pub open spec fn supernova_radius(i: int) -> int {
    if i < 3 {
        80 * STAT_SCALE as int
    } else if i == 3 || i == 5 || i == 7 {
        40 * STAT_SCALE as int
    } else {
        55 * STAT_SCALE as int
    }
}

/// Build the immutable catalog: the nine hand-authored perks in order,
/// then the mid randomized tier, then the large one.
pub fn generate_perk_catalog() -> (perks: Vec<PerkPoint>)
    ensures
        perks.len() == 9 + RED_GIANT_COUNT + STAR_COUNT,
        forall|i: int| 0 <= i < perks.len() ==> (#[trigger] perks@[i]).wf(),
        forall|i: int|
            0 <= i < 9 ==> (#[trigger] perks@[i]).cost == SUPERNOVA_COST && perks@[i].angle
                == supernova_angle(i) && perks@[i].radius_val == supernova_radius(i),
        forall|i: int|
            9 <= i < 9 + RED_GIANT_COUNT ==> (#[trigger] perks@[i]).cost == RED_GIANT_COST
                && placed_in_envelope(perks@[i], RED_GIANT_MIN_PCT as int),
        forall|i: int|
            9 + RED_GIANT_COUNT <= i < perks.len() ==> (#[trigger] perks@[i]).cost == STAR_COST
                && placed_in_envelope(perks@[i], STAR_MIN_PCT as int),
        perks@[0].name@ == "Warrior"@,
        perks@[1].name@ == "Ranger"@,
        perks@[2].name@ == "Mage"@,
        perks@[3].name@ == "Duelist"@,
        perks@[4].name@ == "Monk"@,
        perks@[5].name@ == "Ranger-Mage"@,
        perks@[6].name@ == "Arcane Trickster"@,
        perks@[7].name@ == "Battlemage"@,
        perks@[8].name@ == "Paladin"@,
{
    let mut perks: Vec<PerkPoint> = Vec::new();
    perks.push(PerkPoint {
        name: String::from_str("Warrior"),
        description: String::from_str("Increase area of effect by 30%"),
        angle: ANG_STRENGTH,
        radius_val: 80 * STAT_SCALE,
        cost: SUPERNOVA_COST,
    });
    perks.push(PerkPoint {
        name: String::from_str("Ranger"),
        description: String::from_str("+ 2 additional projectiles"),
        angle: ANG_DEXTERITY,
        radius_val: 80 * STAT_SCALE,
        cost: SUPERNOVA_COST,
    });
    perks.push(PerkPoint {
        name: String::from_str("Mage"),
        description: String::from_str("Spells chain to 2 additional targets"),
        angle: ANG_INTELLIGENCE,
        radius_val: 80 * STAT_SCALE,
        cost: SUPERNOVA_COST,
    });
    perks.push(PerkPoint {
        name: String::from_str("Duelist"),
        description: String::from_str("Attack speed scales with STR/DEX"),
        angle: (ANG_STRENGTH + ANG_DEXTERITY) / 2,
        radius_val: 40 * STAT_SCALE,
        cost: SUPERNOVA_COST,
    });
    perks.push(PerkPoint {
        name: String::from_str("Monk"),
        description: String::from_str("Unarmed strikes stun enemies"),
        angle: (ANG_STRENGTH + ANG_DEXTERITY) / 2,
        radius_val: 55 * STAT_SCALE,
        cost: SUPERNOVA_COST,
    });
    perks.push(PerkPoint {
        name: String::from_str("Ranger-Mage"),
        description: String::from_str("Arrows deal 5% more elemental damage"),
        angle: (ANG_DEXTERITY + ANG_INTELLIGENCE + FULL_TURN) / 2,
        radius_val: 40 * STAT_SCALE,
        cost: SUPERNOVA_COST,
    });
    perks.push(PerkPoint {
        name: String::from_str("Arcane Trickster"),
        description: String::from_str("Teleport on crit"),
        angle: (ANG_DEXTERITY + ANG_INTELLIGENCE + FULL_TURN) / 2,
        radius_val: 55 * STAT_SCALE,
        cost: SUPERNOVA_COST,
    });
    perks.push(PerkPoint {
        name: String::from_str("Battlemage"),
        description: String::from_str("Gain Energy Shield based on INT"),
        angle: (ANG_INTELLIGENCE + ANG_STRENGTH) / 2,
        radius_val: 40 * STAT_SCALE,
        cost: SUPERNOVA_COST,
    });
    perks.push(PerkPoint {
        name: String::from_str("Paladin"),
        description: String::from_str("Heal allies on hit"),
        angle: (ANG_INTELLIGENCE + ANG_STRENGTH) / 2,
        radius_val: 55 * STAT_SCALE,
        cost: SUPERNOVA_COST,
    });
    let mut rng = fresh_rng();
    let mut i: u32 = 0;
    while i < RED_GIANT_COUNT
        invariant
            i <= RED_GIANT_COUNT,
            perks.len() == 9 + i,
            forall|j: int| 0 <= j < perks.len() ==> (#[trigger] perks@[j]).wf(),
            forall|j: int|
                0 <= j < 9 ==> (#[trigger] perks@[j]).cost == SUPERNOVA_COST && perks@[j].angle
                    == supernova_angle(j) && perks@[j].radius_val == supernova_radius(j),
            forall|j: int|
                9 <= j < perks.len() ==> (#[trigger] perks@[j]).cost == RED_GIANT_COST
                    && placed_in_envelope(perks@[j], RED_GIANT_MIN_PCT as int),
            perks@[0].name@ == "Warrior"@,
            perks@[1].name@ == "Ranger"@,
            perks@[2].name@ == "Mage"@,
            perks@[3].name@ == "Duelist"@,
            perks@[4].name@ == "Monk"@,
            perks@[5].name@ == "Ranger-Mage"@,
            perks@[6].name@ == "Arcane Trickster"@,
            perks@[7].name@ == "Battlemage"@,
            perks@[8].name@ == "Paladin"@,
        decreases RED_GIANT_COUNT - i,
    {
        let name = numbered_name("Red Giant", i + 1);
        let p = random_perk(&mut rng, name, RED_GIANT_COST, RED_GIANT_MIN_PCT);
        perks.push(p);
        i = i + 1;
    }
    let mut j: u32 = 0;
    while j < STAR_COUNT
        invariant
            j <= STAR_COUNT,
            perks.len() == 9 + RED_GIANT_COUNT + j,
            forall|m: int| 0 <= m < perks.len() ==> (#[trigger] perks@[m]).wf(),
            forall|m: int|
                0 <= m < 9 ==> (#[trigger] perks@[m]).cost == SUPERNOVA_COST && perks@[m].angle
                    == supernova_angle(m) && perks@[m].radius_val == supernova_radius(m),
            forall|m: int|
                9 <= m < 9 + RED_GIANT_COUNT ==> (#[trigger] perks@[m]).cost == RED_GIANT_COST
                    && placed_in_envelope(perks@[m], RED_GIANT_MIN_PCT as int),
            forall|m: int|
                9 + RED_GIANT_COUNT <= m < perks.len() ==> (#[trigger] perks@[m]).cost == STAR_COST
                    && placed_in_envelope(perks@[m], STAR_MIN_PCT as int),
            perks@[0].name@ == "Warrior"@,
            perks@[1].name@ == "Ranger"@,
            perks@[2].name@ == "Mage"@,
            perks@[3].name@ == "Duelist"@,
            perks@[4].name@ == "Monk"@,
            perks@[5].name@ == "Ranger-Mage"@,
            perks@[6].name@ == "Arcane Trickster"@,
            perks@[7].name@ == "Battlemage"@,
            perks@[8].name@ == "Paladin"@,
        decreases STAR_COUNT - j,
    {
        let name = numbered_name("Star", j + 1);
        let p = random_perk(&mut rng, name, STAR_COST, STAR_MIN_PCT);
        perks.push(p);
        j = j + 1;
    }
    perks
}

} // verus!
