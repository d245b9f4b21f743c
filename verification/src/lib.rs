//! Button remapping for a cheap drawing tablet.
//!
//! The library decides what the tablet's buttons do: it tracks the state of
//! each physical button, turns raw key reports into clicks and holds, maps
//! them to drawing-application actions, and spells each action out as the
//! key presses and releases that a virtual keyboard has to emit for the
//! selected application preset.

pub mod keys;
pub mod executor;
pub mod controller;
pub mod driver;
pub mod icon;
