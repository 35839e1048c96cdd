//! Control core for a cable-suspended flying camera rig.
//!
//! A central controller coordinates several winch nodes and a flying
//! payload. Once per control tick it fuses manual operator intent,
//! staleness-bounded computer-vision detections and per-winch mechanical
//! telemetry into a tracked image region, one velocity command per winch,
//! and a derived lighting state.
//!
//! All physical quantities are carried as fixed-point integers (see
//! [`fixed`]); the transport layer converts at the boundary.

pub mod config;
pub mod fixed;
pub mod laws;
pub mod geometry;
pub mod lighting;
pub mod manual;
pub mod message;
pub mod state;
pub mod winch;

pub use fixed::{UNIT, SCALAR_LIMIT, TIME_STEP_LIMIT};
