//! Camera overrides for a running game: which settings a configuration
//! document may hold, how they become the values applied to the camera, and
//! what one per-frame pass does to the camera record.
//!
//! Every scalar here is a single-precision IEEE-754 value carried as its bit
//! pattern (`u32`), the form in which the host stores it.
use vstd::prelude::*;

pub mod camera;
pub mod config;
pub mod settings;

verus! {

} // verus!
