//! Decision logic of a first-person puzzle game in which devices pass power
//! to one another: pressure plates, charge pads, doors, buttons, weighted
//! cubes, spitters and gates.
//!
//! The engine owns entities, physics and rendering. This library owns the
//! rules: each function takes a snapshot of what the engine knows (sets of
//! entities, relations between them, elapsed time) and returns the new
//! device state together with the commands the engine has to carry out.
//! Entities are identified by their 64-bit index.

pub mod entity_set;
pub mod timer;
pub mod command;
pub mod layers;
pub mod hierarchy;
pub mod glow;
pub mod signals;
pub mod pressure_plate;
pub mod door;
pub mod button;
pub mod weighted_cube;
pub mod cube_spitter;
pub mod standing_cube_spitter;
pub mod signal_spitter;
pub mod inert;
pub mod player;
pub mod interaction;
pub mod dissolve_gate;
pub mod discharge_gate;
pub mod signal_preview;
pub mod crosshair;
pub mod audio;
pub mod distance;
pub mod asset_loading;
pub mod unity;
