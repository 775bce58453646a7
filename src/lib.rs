//! Scene data and control rules for a small 2D billiards table.
//!
//! Lengths are integers in sub-units: one world unit is `SUBUNITS_PER_UNIT`
//! sub-units. Durations are integers in time units: one second is
//! `TIME_UNITS_PER_SECOND` time units (so one fixed physics step, a sixtieth of
//! a second, is a whole number of them).
pub mod rack;
pub mod scene;
pub mod movement;
pub mod control;
