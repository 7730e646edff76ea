//! Core of a 2D side-view platformer: axis-aligned rectangle collision
//! resolution with penetration-depth tie-breaking, and the player's motion
//! state machine that gates how input intents become velocity changes.
//!
//! All quantities are integers in units chosen by the caller (a fixed-point
//! convention): positions, sizes and velocities share one spatial unit, and
//! durations share one time unit. Tuning values such as the landing snap
//! tolerance and the idle dwell duration are configuration, not constants.
//!
//! The per-tick driver is external. It is expected to call, once per fixed
//! simulation step and in this order: `move_player`,
//! `player_state_trigger_timer`, `apply_gravity`, `check_for_collisions`,
//! `apply_velocity`.

pub mod collision;
pub mod common;
pub mod geom;
pub mod player;
pub mod state_machine;
