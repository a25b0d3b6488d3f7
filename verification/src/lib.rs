//! Geometric core of a three-axis character build plotter.
//!
//! A build is three bounded attribute values under a global point budget.
//! The build is drawn as a radial "blob" on a polar plot: every angle of the
//! circle is governed by an ordered pair of axes, and the boundary radius at
//! that angle interpolates elliptically between the two governing values.
//! Reward points ("perks") sit at fixed polar positions and unlock once the
//! blob reaches them; a generator scatters a catalog of random perks inside
//! the outermost envelope the budget ever allows.
//!
//! All quantities are exact integers: angles in thousandths of a degree,
//! radii in thousandths of a stat unit. The presentation layer converts to
//! and from screen coordinates.

pub mod build_state;
pub mod catalog;
pub mod geometry;
pub mod reach;
