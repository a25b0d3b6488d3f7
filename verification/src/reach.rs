//! Reachability: the live boundary radius of a build at any angle, and the
//! unlock test that gates each perk.
//!
//! Both are pure reads of the build: nothing is cached, so unlock state
//! can never go stale.

use crate::build_state::BuildState;
use crate::catalog::PerkPoint;
use crate::geometry::{
    ellipse_radius, lemma_radius_milli_circle, lemma_radius_milli_monotone,
    lemma_sector_partition, norm_angle, radius_milli, sector_end_axis, sector_index_at,
    sector_of, sector_start_axis, sector_t_den, sector_t_num_at, FULL_TURN, MAX_RADIUS_MILLI,
    STAT_SCALE,
};
use vstd::arithmetic::div_mod::lemma_mod_bound;
use vstd::prelude::*;

verus! {

/// Tolerance of the unlock test, in milli stat units: half a stat unit,
/// absorbing boundary effects at exact landmark positions.
pub const UNLOCK_EPSILON_MILLI: u32 = 500;

/// The boundary radius of the blob of build `b` at `angle`, in milli stat
/// units: the elliptical interpolation between the values of the two axes
/// governing the angle's sector.
pub open spec fn blob_radius_at(b: BuildState, angle: int) -> int {
    let a = norm_angle(angle);
    let s = sector_index_at(a);
    radius_milli(
        b.spec_value(sector_start_axis(s)) * STAT_SCALE,
        b.spec_value(sector_end_axis(s)) * STAT_SCALE,
        sector_t_num_at(a),
        sector_t_den(s),
    )
}

/// A perk is unlocked when the blob's boundary reaches its radius, up to
/// the fixed tolerance.
pub open spec fn unlocked_at(b: BuildState, p: PerkPoint) -> bool {
    p.radius_val <= blob_radius_at(b, p.angle as int) + UNLOCK_EPSILON_MILLI
}

/// The live boundary radius at `angle` (thousandths of a degree; whole
/// turns are folded away), in milli stat units.
pub fn current_radius(b: &BuildState, angle: u32) -> (r: u32)
    requires
        b.wf(),
    ensures
        r == blob_radius_at(*b, angle as int),
        r <= MAX_RADIUS_MILLI,
{
    let s = sector_of(angle);
    let v1: u32 = b.value_of(s.start_axis) * STAT_SCALE;
    let v2: u32 = b.value_of(s.end_axis) * STAT_SCALE;
    ellipse_radius(v1, v2, s.t_num, s.t_den)
}

/// Unlock test for one perk against the live build.
pub fn is_unlocked(b: &BuildState, p: &PerkPoint) -> (u: bool)
    requires
        b.wf(),
    ensures
        u == unlocked_at(*b, *p),
{
    let r: u32 = current_radius(b, p.angle);
    p.radius_val <= r + UNLOCK_EPSILON_MILLI
}

/// Unlocking is monotone: raising the values of the two axes governing a
/// perk's sector, both builds well formed, never locks a perk that was
/// unlocked.
pub proof fn lemma_unlocked_monotone(b1: BuildState, b2: BuildState, p: PerkPoint)
    requires
        b1.wf(),
        b2.wf(),
        b1.spec_value(sector_start_axis(sector_index_at(norm_angle(p.angle as int))))
            <= b2.spec_value(sector_start_axis(sector_index_at(norm_angle(p.angle as int)))),
        b1.spec_value(sector_end_axis(sector_index_at(norm_angle(p.angle as int))))
            <= b2.spec_value(sector_end_axis(sector_index_at(norm_angle(p.angle as int)))),
        unlocked_at(b1, p),
    ensures
        unlocked_at(b2, p),
{
    let a = norm_angle(p.angle as int);
    lemma_mod_bound(p.angle as int, FULL_TURN as int);
    lemma_sector_partition(a);
    let s = sector_index_at(a);
    lemma_radius_milli_monotone(
        b1.spec_value(sector_start_axis(s)) * STAT_SCALE,
        b1.spec_value(sector_end_axis(s)) * STAT_SCALE,
        b2.spec_value(sector_start_axis(s)) * STAT_SCALE,
        b2.spec_value(sector_end_axis(s)) * STAT_SCALE,
        sector_t_num_at(a),
        sector_t_den(s),
    );
}

/// With the three axis values equal the blob is a perfect circle: the
/// boundary radius equals that common value at every angle.
pub proof fn lemma_uniform_build_circle(b: BuildState, angle: int)
    requires
        b.wf(),
        b.strength == b.dexterity,
        b.dexterity == b.intelligence,
    ensures
        blob_radius_at(b, angle) == b.strength * STAT_SCALE,
{
    let a = norm_angle(angle);
    lemma_mod_bound(angle, FULL_TURN as int);
    lemma_sector_partition(a);
    let s = sector_index_at(a);
    lemma_radius_milli_circle(
        b.strength * STAT_SCALE,
        sector_t_num_at(a),
        sector_t_den(s),
    );
}

} // verus!
