//! The derived lighting state.
//!
//! Recomputed in full every lighting tick from the winches' own state
//! and the configuration; nothing here keeps memory between ticks. Any
//! animation smoothing is the light animator's business, outside this
//! core.

use vstd::prelude::*;
use crate::config::Color;

verus! {

/// One winch's own contribution to the lighting: how hard it is being
/// driven, how much motion its encoder saw (in calibrated units), and
/// whether its mechanics are in a fault state.
#[derive(Clone, Copy, PartialEq, Eq, Structural, Debug)]
pub struct WinchLightState {
    pub command_intensity: i64,
    pub motion_intensity: i64,
    pub fault: bool,
}

/// The full lighting snapshot handed to the light animator: per-winch
/// contributions plus the global parameters copied from the
/// configuration.
pub struct LightEnvironment {
    pub winches: Vec<WinchLightState>,
    pub winch_wavelength: i64,
    pub winch_wave_window_length: i64,
    pub winch_wave_exponent: i64,
    pub winch_command_color: Color,
    pub winch_motion_color: Color,
    pub flash_exponent: i64,
    pub flash_rate_hz: i64,
    pub brightness: i64,
}

} // verus!
