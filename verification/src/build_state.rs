//! The live build: the three current axis values under the global budget.
//!
//! Every mutation clamps internally, so a well-formed build can never leave
//! the per-axis bounds or exceed the budget — callers need no checks of
//! their own.

use crate::geometry::{Axis, MAX_STAT, MAX_TOTAL_POINTS, MIN_STAT};
use vstd::prelude::*;

verus! {

/// The three current axis values, the single source of truth the rest of
/// the plot reads.
#[derive(Clone, Copy, PartialEq, Eq, Structural, Debug)]
pub struct BuildState {
    /// Current strength, in stat units.
    pub strength: u32,
    /// Current dexterity, in stat units.
    pub dexterity: u32,
    /// Current intelligence, in stat units.
    pub intelligence: u32,
}

impl BuildState {
    /// The value of one axis, as a mathematical integer.
    pub open spec fn spec_value(self, axis: Axis) -> int {
        match axis {
            Axis::Strength => self.strength as int,
            Axis::Dexterity => self.dexterity as int,
            Axis::Intelligence => self.intelligence as int,
        }
    }

    /// Points spent so far: the sum of the three axis values.
    pub open spec fn total(self) -> int {
        self.strength + self.dexterity + self.intelligence
    }

    /// Well-formedness: every axis within its bounds, and the sum within
    /// the global budget.
    pub open spec fn wf(self) -> bool {
        &&& MIN_STAT <= self.strength <= MAX_STAT
        &&& MIN_STAT <= self.dexterity <= MAX_STAT
        &&& MIN_STAT <= self.intelligence <= MAX_STAT
        &&& self.total() <= MAX_TOTAL_POINTS
    }

    /// A fresh build: every axis at its floor.
    pub fn new() -> (b: BuildState)
        ensures
            b.wf(),
            b.strength == MIN_STAT,
            b.dexterity == MIN_STAT,
            b.intelligence == MIN_STAT,
    {
        BuildState { strength: MIN_STAT, dexterity: MIN_STAT, intelligence: MIN_STAT }
    }

    /// Read one axis value.
    pub fn value_of(&self, axis: Axis) -> (v: u32)
        ensures
            v == self.spec_value(axis),
    {
        match axis {
            Axis::Strength => self.strength,
            Axis::Dexterity => self.dexterity,
            Axis::Intelligence => self.intelligence,
        }
    }

    /// Points spent so far.
    pub fn total_points(&self) -> (t: u32)
        requires
            self.wf(),
        ensures
            t == self.total(),
    {
        self.strength + self.dexterity + self.intelligence
    }

    /// Apply a signed adjustment to one axis, clamped so that the axis
    /// stays in `[MIN_STAT, MAX_STAT]` and the total stays within
    /// `MAX_TOTAL_POINTS`: a decrement is always legal down to the floor,
    /// an increment only up to the smaller of the axis headroom and the
    /// remaining budget.
    pub fn adjust_axis(&mut self, axis: Axis, delta: i32)
        requires
            old(self).wf(),
        ensures
            final(self).wf(),
            final(self).spec_value(axis) == adjusted_value(*old(self), axis, delta as int),
            axis != Axis::Strength ==> final(self).strength == old(self).strength,
            axis != Axis::Dexterity ==> final(self).dexterity == old(self).dexterity,
            axis != Axis::Intelligence ==> final(self).intelligence == old(self).intelligence,
    {
        let v: u32 = self.value_of(axis);
        let total: u32 = self.total_points();
        let nv: u32 = if delta >= 0 {
            let room_axis: u32 = MAX_STAT - v;
            let room_budget: u32 = MAX_TOTAL_POINTS - total;
            let room: u32 = if room_axis <= room_budget {
                room_axis
            } else {
                room_budget
            };
            let want: u32 = delta as u32;
            v + (if want <= room {
                want
            } else {
                room
            })
        } else {
            let magnitude: i64 = -(delta as i64);
            let room: u32 = v - MIN_STAT;
            let cut: u32 = if magnitude <= room as i64 {
                magnitude as u32
            } else {
                room
            };
            v - cut
        };
        match axis {
            Axis::Strength => self.strength = nv,
            Axis::Dexterity => self.dexterity = nv,
            Axis::Intelligence => self.intelligence = nv,
        }
    }

    /// Restore every axis to its floor.
    pub fn reset(&mut self)
        ensures
            final(self).wf(),
            final(self).strength == MIN_STAT,
            final(self).dexterity == MIN_STAT,
            final(self).intelligence == MIN_STAT,
    {
        self.strength = MIN_STAT;
        self.dexterity = MIN_STAT;
        self.intelligence = MIN_STAT;
    }
}

/// The axis value that a clamped adjustment of `delta` produces: for a raise
/// the smaller of the request, the axis headroom and the remaining budget is
/// added; for a cut the smaller of the request and the distance to the floor
/// is removed.
pub open spec fn adjusted_value(b: BuildState, axis: Axis, delta: int) -> int {
    let v = b.spec_value(axis);
    if delta >= 0 {
        let room_axis = MAX_STAT - v;
        let room_budget = MAX_TOTAL_POINTS - b.total();
        let room = if room_axis <= room_budget {
            room_axis
        } else {
            room_budget
        };
        v + (if delta <= room {
            delta
        } else {
            room
        })
    } else {
        let room = v - MIN_STAT;
        v - (if -delta <= room {
            -delta
        } else {
            room
        })
    }
}

} // verus!
