//! Pure geometry of the radial plot: the three landmark axes, the sector
//! decomposition of the circle, and the elliptical radius interpolation,
//! all in exact integer arithmetic.
//!
//! Angles are measured in thousandths of a degree, radii in thousandths of
//! a stat unit. The boundary radius between two governing axis values `v1`
//! (active at the sector's start) and `v2` (active at its end) follows the
//! quarter-ellipse law `1/r^2 == (1 - t)/v1^2 + t/v2^2`, where `t` in
//! `[0, 1]` is the position inside the sector; `r` is reported as the floor
//! of the exact real value in milli stat units.

use vstd::arithmetic::div_mod::{
    lemma_div_is_ordered, lemma_div_multiples_vanish, lemma_fundamental_div_mod,
};
use vstd::prelude::*;

verus! {

/// Floor of every axis value, in stat units.
pub const MIN_STAT: u32 = 10;

/// Ceiling of every axis value, in stat units.
pub const MAX_STAT: u32 = 100;

/// Global budget: the three axis values never sum to more.
pub const MAX_TOTAL_POINTS: u32 = 120;

/// Radii are measured in thousandths of a stat unit.
pub const STAT_SCALE: u32 = 1000;

/// The largest radius any point of the plot can have, in milli stat units.
pub const MAX_RADIUS_MILLI: u32 = MAX_STAT * STAT_SCALE;

/// Angles are measured in thousandths of a degree.
pub const DEG_SCALE: u32 = 1000;

/// One full turn of the plot.
pub const FULL_TURN: u32 = 360 * DEG_SCALE;

/// Landmark angle of the dexterity axis.
pub const ANG_DEXTERITY: u32 = 45 * DEG_SCALE;

/// Landmark angle of the strength axis.
pub const ANG_STRENGTH: u32 = 135 * DEG_SCALE;

/// Landmark angle of the intelligence axis.
pub const ANG_INTELLIGENCE: u32 = 270 * DEG_SCALE;

/// One of the three bounded attributes that define a build.
#[derive(Clone, Copy, PartialEq, Eq, Structural, Debug)]
pub enum Axis {
    Strength,
    Dexterity,
    Intelligence,
}

/// An arbitrary angle folded into `[0, FULL_TURN)`.
pub open spec fn norm_angle(a: int) -> int {
    a % (FULL_TURN as int)
}

/// Index of the sector holding the normalized angle `a`: sector 0 runs from
/// the dexterity landmark to the strength landmark, sector 1 from strength
/// to intelligence, and sector 2 wraps from intelligence back to dexterity
/// through the top of the circle.
pub open spec fn sector_index_at(a: int) -> int {
    if ANG_DEXTERITY <= a < ANG_STRENGTH {
        0
    } else if ANG_STRENGTH <= a < ANG_INTELLIGENCE {
        1
    } else {
        2
    }
}

/// The axis whose landmark opens the sector: its value governs at `t == 0`.
pub open spec fn sector_start_axis(s: int) -> Axis {
    if s == 0 {
        Axis::Dexterity
    } else if s == 1 {
        Axis::Strength
    } else {
        Axis::Intelligence
    }
}

/// The axis whose landmark closes the sector: its value governs at `t == 1`.
pub open spec fn sector_end_axis(s: int) -> Axis {
    if s == 0 {
        Axis::Strength
    } else if s == 1 {
        Axis::Intelligence
    } else {
        Axis::Dexterity
    }
}

/// Angular width of the sector, the denominator of the sector position:
/// 90 degrees for the first sector, 135 for the other two.
pub open spec fn sector_t_den(s: int) -> int {
    if s == 0 {
        ANG_STRENGTH - ANG_DEXTERITY
    } else if s == 1 {
        ANG_INTELLIGENCE - ANG_STRENGTH
    } else {
        FULL_TURN + ANG_DEXTERITY - ANG_INTELLIGENCE
    }
}

/// Offset of the normalized angle `a` past its sector's opening landmark,
/// the numerator of the sector position.
pub open spec fn sector_t_num_at(a: int) -> int {
    if ANG_DEXTERITY <= a < ANG_STRENGTH {
        a - ANG_DEXTERITY
    } else if ANG_STRENGTH <= a < ANG_INTELLIGENCE {
        a - ANG_STRENGTH
    } else if ANG_INTELLIGENCE <= a {
        a - ANG_INTELLIGENCE
    } else {
        a + (FULL_TURN - ANG_INTELLIGENCE)
    }
}

/// Membership of a normalized angle in a sector, half-open at the closing
/// landmark, with sector 2 wrapping through zero.
pub open spec fn in_sector(s: int, a: int) -> bool {
    if s == 0 {
        ANG_DEXTERITY <= a < ANG_STRENGTH
    } else if s == 1 {
        ANG_STRENGTH <= a < ANG_INTELLIGENCE
    } else {
        ANG_INTELLIGENCE <= a < FULL_TURN || 0 <= a < ANG_DEXTERITY
    }
}

/// The three sectors partition the circle: every angle of `[0, FULL_TURN)`
/// lies in exactly one sector, the sector position stays inside `[0, 1)`,
/// and the widths are exactly 90, 135 and 135 degrees.
pub proof fn lemma_sector_partition(a: int)
    requires
        0 <= a < FULL_TURN,
    ensures
        in_sector(sector_index_at(a), a),
        forall|s: int| 0 <= s < 3 && in_sector(s, a) ==> s == sector_index_at(a),
        0 <= sector_t_num_at(a) < sector_t_den(sector_index_at(a)),
        sector_t_den(0) == 90 * DEG_SCALE,
        sector_t_den(1) == 135 * DEG_SCALE,
        sector_t_den(2) == 135 * DEG_SCALE,
        sector_t_den(0) + sector_t_den(1) + sector_t_den(2) == FULL_TURN,
{
}

/// An angle resolved to its sector: the ordered pair of governing axes and
/// the position `t_num / t_den` between their landmarks.
pub struct SectorPos {
    /// Axis governing at the sector's opening landmark.
    pub start_axis: Axis,
    /// Axis governing at the sector's closing landmark.
    pub end_axis: Axis,
    /// Offset past the opening landmark, in thousandths of a degree.
    pub t_num: u32,
    /// Width of the sector, in thousandths of a degree.
    pub t_den: u32,
}

/// Resolve an angle (any number of thousandths of a degree; full turns are
/// folded away) to its sector and position.
pub fn sector_of(angle: u32) -> (s: SectorPos)
    ensures
        s.start_axis == sector_start_axis(sector_index_at(norm_angle(angle as int))),
        s.end_axis == sector_end_axis(sector_index_at(norm_angle(angle as int))),
        s.t_num == sector_t_num_at(norm_angle(angle as int)),
        s.t_den == sector_t_den(sector_index_at(norm_angle(angle as int))),
        s.t_num < s.t_den,
{
    let a: u32 = angle % FULL_TURN;
    if ANG_DEXTERITY <= a && a < ANG_STRENGTH {
        SectorPos {
            start_axis: Axis::Dexterity,
            end_axis: Axis::Strength,
            t_num: a - ANG_DEXTERITY,
            t_den: ANG_STRENGTH - ANG_DEXTERITY,
        }
    } else if ANG_STRENGTH <= a && a < ANG_INTELLIGENCE {
        SectorPos {
            start_axis: Axis::Strength,
            end_axis: Axis::Intelligence,
            t_num: a - ANG_STRENGTH,
            t_den: ANG_INTELLIGENCE - ANG_STRENGTH,
        }
    } else if ANG_INTELLIGENCE <= a {
        SectorPos {
            start_axis: Axis::Intelligence,
            end_axis: Axis::Dexterity,
            t_num: a - ANG_INTELLIGENCE,
            t_den: FULL_TURN + ANG_DEXTERITY - ANG_INTELLIGENCE,
        }
    } else {
        SectorPos {
            start_axis: Axis::Intelligence,
            end_axis: Axis::Dexterity,
            t_num: a + (FULL_TURN - ANG_INTELLIGENCE),
            t_den: FULL_TURN + ANG_DEXTERITY - ANG_INTELLIGENCE,
        }
    }
}

/// Floor of the real square root of `x`, as a mathematical definition.
pub open spec fn sqrt_floor(x: int) -> int
    decreases x,
{
    if x <= 0 {
        0
    } else {
        let s = sqrt_floor(x - 1);
        if (s + 1) * (s + 1) <= x {
            s + 1
        } else {
            s
        }
    }
}

/// `sqrt_floor(x)` is the unique `r >= 0` with `r^2 <= x < (r + 1)^2`.
pub proof fn lemma_sqrt_floor_bounds(x: int)
    requires
        0 <= x,
    ensures
        0 <= sqrt_floor(x),
        sqrt_floor(x) * sqrt_floor(x) <= x,
        x < (sqrt_floor(x) + 1) * (sqrt_floor(x) + 1),
    decreases x,
{
    if x == 0 {
    } else {
        lemma_sqrt_floor_bounds(x - 1);
        let s = sqrt_floor(x - 1);
        if (s + 1) * (s + 1) <= x {
            assert(x == (s + 1) * (s + 1));
            assert((s + 1) * (s + 1) < (s + 2) * (s + 2)) by (nonlinear_arith)
                requires
                    s >= 0,
            ;
        }
    }
}

/// Any `r >= 0` with `r^2 <= x < (r + 1)^2` is `sqrt_floor(x)`.
pub proof fn lemma_sqrt_floor_unique(x: int, r: int)
    requires
        0 <= x,
        0 <= r,
        r * r <= x,
        x < (r + 1) * (r + 1),
    ensures
        r == sqrt_floor(x),
{
    lemma_sqrt_floor_bounds(x);
    let s = sqrt_floor(x);
    assert(r == s) by (nonlinear_arith)
        requires
            0 <= r,
            0 <= s,
            r * r <= x,
            x < (r + 1) * (r + 1),
            s * s <= x,
            x < (s + 1) * (s + 1),
    ;
}

/// `sqrt_floor` never decreases.
pub proof fn lemma_sqrt_floor_monotone(x: int, y: int)
    requires
        0 <= x <= y,
    ensures
        sqrt_floor(x) <= sqrt_floor(y),
{
    lemma_sqrt_floor_bounds(x);
    lemma_sqrt_floor_bounds(y);
    let sx = sqrt_floor(x);
    let sy = sqrt_floor(y);
    assert(sx <= sy) by (nonlinear_arith)
        requires
            0 <= sx,
            0 <= sy,
            sx * sx <= x,
            x <= y,
            y < (sy + 1) * (sy + 1),
    ;
}

/// Floor of the square root of a machine integer.
pub fn isqrt(x: u64) -> (r: u64)
    ensures
        r == sqrt_floor(x as int),
{
    let mut lo: u64 = 0;
    let mut hi: u64 = 0x1_0000_0000;
    while hi - lo > 1
        invariant
            lo < hi <= 0x1_0000_0000u64,
            (lo as int) * (lo as int) <= x as int,
            (x as int) < (hi as int) * (hi as int),
        decreases hi - lo,
    {
        let mid: u64 = lo + (hi - lo) / 2;
        proof {
            assert((mid as int) * (mid as int) <= u64::MAX as int) by (nonlinear_arith)
                requires
                    mid < 0x1_0000_0000u64,
            ;
        }
        if mid * mid <= x {
            lo = mid;
        } else {
            hi = mid;
        }
    }
    proof {
        lemma_sqrt_floor_unique(x as int, lo as int);
    }
    lo
}

/// Numerator of the squared boundary radius, in milli stat units squared,
/// scaled by the common factor `t_den`.
pub open spec fn rsq_num(v1: int, v2: int, t_num: int, t_den: int) -> int {
    t_den * v1 * v1 * v2 * v2
}

/// Denominator of the squared boundary radius: the quarter-ellipse law
/// `1/r^2 == (1 - t)/v1^2 + t/v2^2` cleared of fractions, with
/// `t == t_num / t_den`.
pub open spec fn rsq_den(v1: int, v2: int, t_num: int, t_den: int) -> int {
    (t_den - t_num) * v2 * v2 + t_num * v1 * v1
}

/// The boundary radius, in milli stat units, between governing values `v1`
/// and `v2` (both in milli stat units) at sector position `t_num / t_den`.
///
/// When both governing values lie below one whole stat unit the pair is
/// treated as unset and the radius degenerates to zero, mirroring the
/// guard against numerically meaningless near-zero pairs; a vanishing
/// denominator (one value zero at the opposite landmark) also yields zero.
pub open spec fn radius_milli(v1: int, v2: int, t_num: int, t_den: int) -> int {
    if v1 < STAT_SCALE && v2 < STAT_SCALE {
        0
    } else if rsq_den(v1, v2, t_num, t_den) == 0 {
        0
    } else {
        sqrt_floor(rsq_num(v1, v2, t_num, t_den) / rsq_den(v1, v2, t_num, t_den))
    }
}

/// Ordering of two non-negative fractions follows from cross-multiplication,
/// also after taking floors.
proof fn lemma_frac_le(a: int, b: int, c: int, d: int)
    requires
        0 <= a,
        0 < b,
        0 < d,
        a * d <= c * b,
    ensures
        a / b <= c / d,
{
    let q = a / b;
    lemma_fundamental_div_mod(a, b);
    assert(q * b <= a) by (nonlinear_arith)
        requires
            a == b * (a / b) + a % b,
            q == a / b,
            0 <= a % b,
    ;
    assert(q * d <= c) by (nonlinear_arith)
        requires
            q * b <= a,
            a * d <= c * b,
            0 < b,
            0 < d,
    ;
    lemma_div_is_ordered(q * d, c, d);
    lemma_div_multiples_vanish(q, d);
    assert(q * d == d * q) by (nonlinear_arith);
}

/// The squared-radius quotient is bounded above by the square of the larger
/// governing value.
proof fn lemma_rsq_upper(v1: int, v2: int, t_num: int, t_den: int)
    requires
        1 <= t_den,
        0 <= t_num <= t_den,
        0 <= v1,
        0 <= v2,
        rsq_den(v1, v2, t_num, t_den) > 0,
    ensures
        0 <= rsq_num(v1, v2, t_num, t_den) / rsq_den(v1, v2, t_num, t_den),
        rsq_num(v1, v2, t_num, t_den) / rsq_den(v1, v2, t_num, t_den) <= (if v1 <= v2 {
            v2 * v2
        } else {
            v1 * v1
        }),
{
    let num = rsq_num(v1, v2, t_num, t_den);
    let den = rsq_den(v1, v2, t_num, t_den);
    let hi = if v1 <= v2 { v2 } else { v1 };
    let hi2 = hi * hi;
    assert(0 <= num && num <= den * hi2) by (nonlinear_arith)
        requires
            num == t_den * v1 * v1 * v2 * v2,
            den == (t_den - t_num) * v2 * v2 + t_num * v1 * v1,
            hi2 == hi * hi,
            0 <= v1 <= hi,
            0 <= v2 <= hi,
            0 <= t_num <= t_den,
    ;
    lemma_div_is_ordered(num, den * hi2, den);
    lemma_div_multiples_vanish(hi2, den);
    lemma_div_is_ordered(0, num, den);
}

/// With both governing values positive the denominator is positive and the
/// squared-radius quotient is bounded below by the square of the smaller
/// governing value.
proof fn lemma_rsq_lower(v1: int, v2: int, t_num: int, t_den: int)
    requires
        1 <= t_den,
        0 <= t_num <= t_den,
        1 <= v1,
        1 <= v2,
    ensures
        rsq_den(v1, v2, t_num, t_den) > 0,
        rsq_num(v1, v2, t_num, t_den) / rsq_den(v1, v2, t_num, t_den) >= (if v1 <= v2 {
            v1 * v1
        } else {
            v2 * v2
        }),
{
    let num = rsq_num(v1, v2, t_num, t_den);
    let den = rsq_den(v1, v2, t_num, t_den);
    let lo = if v1 <= v2 { v1 } else { v2 };
    let lo2 = lo * lo;
    assert(lo2 <= v1 * v1 && lo2 <= v2 * v2 && 1 <= lo2) by (nonlinear_arith)
        requires
            lo2 == lo * lo,
            1 <= lo <= v1,
            lo <= v2,
    ;
    assert(den > 0) by (nonlinear_arith)
        requires
            den == (t_den - t_num) * v2 * v2 + t_num * v1 * v1,
            1 <= v1,
            1 <= v2,
            0 <= t_num <= t_den,
            1 <= t_den,
    ;
    assert(den * lo2 <= num) by (nonlinear_arith)
        requires
            num == t_den * v1 * v1 * v2 * v2,
            den == (t_den - t_num) * v2 * v2 + t_num * v1 * v1,
            lo2 <= v1 * v1,
            lo2 <= v2 * v2,
            0 <= lo2,
            0 <= v1,
            0 <= v2,
            0 <= t_num <= t_den,
    ;
    lemma_div_is_ordered(den * lo2, num, den);
    lemma_div_multiples_vanish(lo2, den);
}

/// The radius interpolates: with both governing values at least one stat
/// unit, the boundary radius lies between the smaller and the larger value.
pub proof fn lemma_radius_milli_between(v1: int, v2: int, t_num: int, t_den: int)
    requires
        1 <= t_den,
        0 <= t_num <= t_den,
        STAT_SCALE <= v1,
        STAT_SCALE <= v2,
    ensures
        (if v1 <= v2 { v1 } else { v2 }) <= radius_milli(v1, v2, t_num, t_den),
        radius_milli(v1, v2, t_num, t_den) <= (if v1 <= v2 { v2 } else { v1 }),
{
    let num = rsq_num(v1, v2, t_num, t_den);
    let den = rsq_den(v1, v2, t_num, t_den);
    let lo = if v1 <= v2 { v1 } else { v2 };
    let hi = if v1 <= v2 { v2 } else { v1 };
    lemma_rsq_lower(v1, v2, t_num, t_den);
    lemma_rsq_upper(v1, v2, t_num, t_den);
    let q = num / den;
    assert(0 <= lo * lo && lo * lo < (lo + 1) * (lo + 1)) by (nonlinear_arith)
        requires
            0 <= lo,
    ;
    assert(0 <= hi * hi && hi * hi < (hi + 1) * (hi + 1)) by (nonlinear_arith)
        requires
            0 <= hi,
    ;
    lemma_sqrt_floor_monotone(lo * lo, q);
    lemma_sqrt_floor_monotone(q, hi * hi);
    lemma_sqrt_floor_unique(lo * lo, lo);
    lemma_sqrt_floor_unique(hi * hi, hi);
}

/// Regrouping of a five-factor product, used to expand cross-multiplied
/// fractions one summand at a time.
#[verifier::rlimit(100)]
proof fn lemma_regroup5(a: int, b: int, c: int, d: int, e: int)
    by (nonlinear_arith)
    ensures
        (a * b * c) * (d * e) == (a * d) * (b * c * e),
{
}

/// Raising either governing value never shrinks the boundary radius.
pub proof fn lemma_radius_milli_monotone(
    v1: int,
    v2: int,
    w1: int,
    w2: int,
    t_num: int,
    t_den: int,
)
    requires
        1 <= t_den,
        0 <= t_num <= t_den,
        STAT_SCALE <= v1 <= w1,
        STAT_SCALE <= v2 <= w2,
    ensures
        radius_milli(v1, v2, t_num, t_den) <= radius_milli(w1, w2, t_num, t_den),
{
    lemma_rsq_lower(v1, v2, t_num, t_den);
    lemma_rsq_lower(w1, w2, t_num, t_den);
    let a = rsq_num(v1, v2, t_num, t_den);
    let b = rsq_den(v1, v2, t_num, t_den);
    let c = rsq_num(w1, w2, t_num, t_den);
    let d = rsq_den(w1, w2, t_num, t_den);
    let p1 = v1 * v1;
    let p2 = v2 * v2;
    let q1 = w1 * w1;
    let q2 = w2 * w2;
    let x1 = t_den * (t_den - t_num);
    let x2 = t_den * t_num;
    assert(0 <= p1 <= q1 && 0 <= p2 <= q2) by (nonlinear_arith)
        requires
            p1 == v1 * v1,
            p2 == v2 * v2,
            q1 == w1 * w1,
            q2 == w2 * w2,
            0 <= v1 <= w1,
            0 <= v2 <= w2,
    ;
    assert(a == t_den * p1 * p2) by (nonlinear_arith)
        requires
            a == t_den * v1 * v1 * v2 * v2,
            p1 == v1 * v1,
            p2 == v2 * v2,
    ;
    assert(b == (t_den - t_num) * p2 + t_num * p1) by (nonlinear_arith)
        requires
            b == (t_den - t_num) * v2 * v2 + t_num * v1 * v1,
            p1 == v1 * v1,
            p2 == v2 * v2,
    ;
    assert(c == t_den * q1 * q2) by (nonlinear_arith)
        requires
            c == t_den * w1 * w1 * w2 * w2,
            q1 == w1 * w1,
            q2 == w2 * w2,
    ;
    assert(d == (t_den - t_num) * q2 + t_num * q1) by (nonlinear_arith)
        requires
            d == (t_den - t_num) * w2 * w2 + t_num * w1 * w1,
            q1 == w1 * w1,
            q2 == w2 * w2,
    ;
    lemma_regroup5(t_den, p1, p2, t_den - t_num, q2);
    lemma_regroup5(t_den, p1, p2, t_num, q1);
    lemma_regroup5(t_den, q1, q2, t_den - t_num, p2);
    lemma_regroup5(t_den, q1, q2, t_num, p1);
    assert(a * d == x1 * (p1 * p2 * q2) + x2 * (p1 * p2 * q1)) by (nonlinear_arith)
        requires
            a == t_den * p1 * p2,
            d == (t_den - t_num) * q2 + t_num * q1,
            x1 == t_den * (t_den - t_num),
            x2 == t_den * t_num,
            (t_den * p1 * p2) * ((t_den - t_num) * q2) == (t_den * (t_den - t_num)) * (p1 * p2
                * q2),
            (t_den * p1 * p2) * (t_num * q1) == (t_den * t_num) * (p1 * p2 * q1),
    ;
    assert(c * b == x1 * (q1 * q2 * p2) + x2 * (q1 * q2 * p1)) by (nonlinear_arith)
        requires
            c == t_den * q1 * q2,
            b == (t_den - t_num) * p2 + t_num * p1,
            x1 == t_den * (t_den - t_num),
            x2 == t_den * t_num,
            (t_den * q1 * q2) * ((t_den - t_num) * p2) == (t_den * (t_den - t_num)) * (q1 * q2
                * p2),
            (t_den * q1 * q2) * (t_num * p1) == (t_den * t_num) * (q1 * q2 * p1),
    ;
    assert(0 <= x1 && 0 <= x2) by (nonlinear_arith)
        requires
            x1 == t_den * (t_den - t_num),
            x2 == t_den * t_num,
            0 <= t_num <= t_den,
    ;
    assert(x1 * (p1 * p2 * q2) <= x1 * (q1 * q2 * p2)) by (nonlinear_arith)
        requires
            0 <= x1,
            0 <= p1 <= q1,
            0 <= p2 <= q2,
    ;
    assert(x2 * (p1 * p2 * q1) <= x2 * (q1 * q2 * p1)) by (nonlinear_arith)
        requires
            0 <= x2,
            0 <= p1 <= q1,
            0 <= p2 <= q2,
            0 <= q1,
    ;
    assert(0 <= a) by (nonlinear_arith)
        requires
            a == t_den * v1 * v1 * v2 * v2,
            0 <= v1,
            0 <= v2,
            0 <= t_den,
    ;
    lemma_frac_le(a, b, c, d);
    lemma_sqrt_floor_monotone(a / b, c / d);
}

/// Moving through the sector toward the larger governing value never
/// shrinks the boundary radius: the blob swells from the smaller landmark
/// to the larger one.
pub proof fn lemma_radius_milli_monotone_in_t(v1: int, v2: int, n1: int, n2: int, t_den: int)
    requires
        1 <= t_den,
        0 <= n1 <= n2 <= t_den,
        STAT_SCALE <= v1 <= v2,
    ensures
        radius_milli(v1, v2, n1, t_den) <= radius_milli(v1, v2, n2, t_den),
{
    lemma_rsq_lower(v1, v2, n1, t_den);
    lemma_rsq_lower(v1, v2, n2, t_den);
    let num = rsq_num(v1, v2, n1, t_den);
    let den1 = rsq_den(v1, v2, n1, t_den);
    let den2 = rsq_den(v1, v2, n2, t_den);
    assert(num == rsq_num(v1, v2, n2, t_den));
    assert(den2 <= den1) by (nonlinear_arith)
        requires
            den1 == (t_den - n1) * v2 * v2 + n1 * v1 * v1,
            den2 == (t_den - n2) * v2 * v2 + n2 * v1 * v1,
            n1 <= n2,
            0 <= v1 <= v2,
    ;
    assert(0 <= num && num * den2 <= num * den1) by (nonlinear_arith)
        requires
            num == t_den * v1 * v1 * v2 * v2,
            den2 <= den1,
            0 <= v1,
            0 <= v2,
            0 <= t_den,
    ;
    lemma_frac_le(num, den1, num, den2);
    lemma_sqrt_floor_monotone(num / den1, num / den2);
}

/// With both governing values equal the boundary is a circle: the radius is
/// that value at every sector position. Values strictly between zero and
/// one stat unit are excluded: the degeneracy guard maps them to zero.
pub proof fn lemma_radius_milli_circle(v: int, t_num: int, t_den: int)
    requires
        1 <= t_den,
        0 <= t_num <= t_den,
        v == 0 || STAT_SCALE <= v,
    ensures
        radius_milli(v, v, t_num, t_den) == v,
{
    if v == 0 {
    } else {
        let num = rsq_num(v, v, t_num, t_den);
        let den = rsq_den(v, v, t_num, t_den);
        let v2 = v * v;
        assert(den > 0 && num == den * v2) by (nonlinear_arith)
            requires
                num == t_den * v * v * v * v,
                den == (t_den - t_num) * v * v + t_num * v * v,
                v2 == v * v,
                1 <= v,
                0 <= t_num <= t_den,
                1 <= t_den,
        ;
        lemma_div_multiples_vanish(v2, den);
        assert(v * v <= v2 && v2 < (v + 1) * (v + 1)) by (nonlinear_arith)
            requires
                v2 == v * v,
                0 <= v,
        ;
        lemma_sqrt_floor_unique(v2, v);
    }
}

/// At the sector's start the radius is exactly `v1`; at its end exactly `v2`.
pub proof fn lemma_radius_milli_endpoints(v1: int, v2: int, t_den: int)
    requires
        1 <= t_den,
        STAT_SCALE <= v1,
        STAT_SCALE <= v2,
    ensures
        radius_milli(v1, v2, 0, t_den) == v1,
        radius_milli(v1, v2, t_den, t_den) == v2,
{
    let n0 = rsq_num(v1, v2, 0, t_den);
    let d0 = rsq_den(v1, v2, 0, t_den);
    let sq1 = v1 * v1;
    assert(d0 > 0 && n0 == d0 * sq1) by (nonlinear_arith)
        requires
            n0 == t_den * v1 * v1 * v2 * v2,
            d0 == t_den * v2 * v2 + 0 * v1 * v1,
            sq1 == v1 * v1,
            1 <= v1,
            1 <= v2,
            1 <= t_den,
    ;
    lemma_div_multiples_vanish(sq1, d0);
    assert(v1 * v1 <= sq1 && sq1 < (v1 + 1) * (v1 + 1)) by (nonlinear_arith)
        requires
            sq1 == v1 * v1,
            0 <= v1,
    ;
    lemma_sqrt_floor_unique(sq1, v1);
    let n1 = rsq_num(v1, v2, t_den, t_den);
    let d1 = rsq_den(v1, v2, t_den, t_den);
    let sq2 = v2 * v2;
    assert(d1 > 0 && n1 == d1 * sq2) by (nonlinear_arith)
        requires
            n1 == t_den * v1 * v1 * v2 * v2,
            d1 == 0 * v2 * v2 + t_den * v1 * v1,
            sq2 == v2 * v2,
            1 <= v1,
            1 <= v2,
            1 <= t_den,
    ;
    lemma_div_multiples_vanish(sq2, d1);
    assert(v2 * v2 <= sq2 && sq2 < (v2 + 1) * (v2 + 1)) by (nonlinear_arith)
        requires
            sq2 == v2 * v2,
            0 <= v2,
    ;
    lemma_sqrt_floor_unique(sq2, v2);
}

/// With both governing values unset the radius vanishes at every position.
pub proof fn lemma_radius_milli_zero(t_num: int, t_den: int)
    ensures
        radius_milli(0, 0, t_num, t_den) == 0,
{
}

/// Small-step multiplication bound used to discharge overflow obligations.
proof fn lemma_mul_le(a: int, b: int, amax: int, bmax: int)
    by (nonlinear_arith)
    requires
        0 <= a <= amax,
        0 <= b <= bmax,
    ensures
        a * b <= amax * bmax,
{
}

/// The boundary radius between governing values `v1` and `v2` (milli stat
/// units) at sector position `t_num / t_den`.
pub fn ellipse_radius(v1: u32, v2: u32, t_num: u32, t_den: u32) -> (r: u32)
    requires
        1 <= t_den,
        t_num <= t_den,
        v1 <= MAX_RADIUS_MILLI,
        v2 <= MAX_RADIUS_MILLI,
    ensures
        r == radius_milli(v1 as int, v2 as int, t_num as int, t_den as int),
        r <= MAX_RADIUS_MILLI,
{
    if v1 < STAT_SCALE && v2 < STAT_SCALE {
        0
    } else {
        proof {
            lemma_mul_le(t_den as int, v1 as int, 0xffff_ffffu64 as int, 100000);
            lemma_mul_le(t_den as int * v1 as int, v1 as int, 0xffff_ffffu64 as int * 100000, 100000);
            lemma_mul_le(
                t_den as int * v1 as int * v1 as int,
                v2 as int,
                0xffff_ffffu64 as int * 100000 * 100000,
                100000,
            );
            lemma_mul_le(
                t_den as int * v1 as int * v1 as int * v2 as int,
                v2 as int,
                0xffff_ffffu64 as int * 100000 * 100000 * 100000,
                100000,
            );
            lemma_mul_le(t_den as int - t_num as int, v2 as int, 0xffff_ffffu64 as int, 100000);
            lemma_mul_le(
                (t_den as int - t_num as int) * v2 as int,
                v2 as int,
                0xffff_ffffu64 as int * 100000,
                100000,
            );
            lemma_mul_le(t_num as int, v1 as int, 0xffff_ffffu64 as int, 100000);
            lemma_mul_le(t_num as int * v1 as int, v1 as int, 0xffff_ffffu64 as int * 100000, 100000);
        }
        let num: u128 = (t_den as u128) * (v1 as u128) * (v1 as u128) * (v2 as u128) * (v2
            as u128);
        let den: u128 = ((t_den - t_num) as u128) * (v2 as u128) * (v2 as u128) + (t_num as u128)
            * (v1 as u128) * (v1 as u128);
        if den == 0 {
            0
        } else {
            let q: u128 = num / den;
            let ghost gn = rsq_num(v1 as int, v2 as int, t_num as int, t_den as int);
            let ghost gd = rsq_den(v1 as int, v2 as int, t_num as int, t_den as int);
            proof {
                assert(num as int == gn);
                assert(den as int == gd);
                lemma_rsq_upper(v1 as int, v2 as int, t_num as int, t_den as int);
                let hi: int = if v1 <= v2 { v2 as int } else { v1 as int };
                assert(hi * hi <= 100000 * 100000) by (nonlinear_arith)
                    requires
                        0 <= hi <= 100000,
                ;
                assert(q as int == gn / gd);
            }
            let r64: u64 = isqrt(q as u64);
            proof {
                let hi: int = if v1 <= v2 { v2 as int } else { v1 as int };
                lemma_sqrt_floor_monotone(q as int, hi * hi);
                assert(hi * hi <= hi * hi && hi * hi < (hi + 1) * (hi + 1)) by (nonlinear_arith)
                    requires
                        0 <= hi,
                ;
                lemma_sqrt_floor_unique(hi * hi, hi);
            }
            r64 as u32
        }
    }
}

} // verus!
