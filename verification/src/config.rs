//! The per-tick configuration snapshot.
//!
//! A fully populated, immutable `Config` is handed to the controller on
//! every call; the core never mutates it. Scalars are fixed-point
//! thousandths (see [`crate::fixed`]); probabilities run from `0` to
//! [`crate::fixed::UNIT`].

use vstd::prelude::*;
use crate::fixed::{SCALAR_LIMIT, in_scalar_range};
use crate::geometry::Rect;

verus! {

/// The controller's operating mode.
#[derive(Clone, Copy, PartialEq, Eq, Structural, Debug)]
pub enum ControllerMode {
    /// All automatic activity suspended; every winch is commanded to rest.
    Halted,
    /// Normal closed-loop operation.
    Normal,
    /// The operator is flying the payload directly.
    ManualFlyer,
    /// The operator drives the single winch with this ordinal id.
    ManualWinch(usize),
}

/// One label the tracked region may snap to, with the least detection
/// probability that qualifies.
#[derive(Clone, Copy, PartialEq, Eq, Structural, Debug)]
pub struct SnapRule {
    pub label: u64,
    pub min_prob: i64,
}

/// Computer-vision and manual-tracking parameters.
pub struct VisionConfig {
    /// Hard clamp for the tracked region.
    pub border_rect: Rect,
    /// Least area a detection box may have to qualify for snapping.
    pub tracking_min_area: i64,
    /// Greatest area a detection box may have to qualify for snapping.
    pub tracking_max_area: i64,
    /// Area of the square rebuilt around the manually steered centre.
    pub tracking_default_area: i64,
    /// Gain from the operator's camera vector to tracked-region velocity.
    pub manual_control_speed: i64,
    /// Gain of the restoring pull toward the image centre.
    pub manual_control_restoring_force: i64,
    /// Radius under which the camera vector is treated as zero.
    pub manual_control_deadzone_radius: i64,
    /// Labels that the tracked region may snap to.
    pub snap_tracked_region_to: Vec<SnapRule>,
}

/// A colour with fixed-point channels in `[0, UNIT]`.
#[derive(Clone, Copy, PartialEq, Eq, Structural, Debug)]
pub struct Color {
    pub red: i64,
    pub green: i64,
    pub blue: i64,
}

/// Per-winch lighting parameters.
#[derive(Clone, Copy, PartialEq, Eq, Structural, Debug)]
pub struct WinchLightingConfig {
    pub wavelength_m: i64,
    pub wave_window_length_m: i64,
    pub wave_exponent: i64,
    pub command_color: Color,
    pub motion_color: Color,
}

/// One lighting scheme: per-winch wave parameters plus global flash
/// and brightness settings.
#[derive(Clone, Copy, PartialEq, Eq, Structural, Debug)]
pub struct LightingScheme {
    pub winch: WinchLightingConfig,
    pub flash_exponent: i64,
    pub flash_rate_hz: i64,
    pub brightness: i64,
}

/// Lighting configuration; `current` is the scheme in force this tick.
#[derive(Clone, Copy, PartialEq, Eq, Structural, Debug)]
pub struct LightingConfig {
    pub current: LightingScheme,
}

/// Calibration of one winch's mechanics.
#[derive(Clone, Copy, PartialEq, Eq, Structural, Debug)]
pub struct WinchCalibration {
    /// Fixed-point units of travel per encoder count.
    pub unit_per_count: i64,
}

/// Static description of one winch (its network place is the transport
/// layer's business and not carried here).
#[derive(Clone, Copy, PartialEq, Eq, Structural, Debug)]
pub struct WinchConfig {
    pub calibration: WinchCalibration,
}

/// The whole configuration snapshot read once per tick.
pub struct Config {
    pub mode: ControllerMode,
    pub vision: VisionConfig,
    pub winches: Vec<WinchConfig>,
    pub lighting: LightingConfig,
}

impl VisionConfig {
    pub open spec fn well_formed(&self) -> bool {
        &&& self.border_rect.well_formed()
        &&& self.border_rect.in_range()
        &&& 0 <= self.tracking_default_area <= SCALAR_LIMIT * SCALAR_LIMIT
        &&& in_scalar_range(self.manual_control_speed as int)
        &&& in_scalar_range(self.manual_control_restoring_force as int)
        &&& 0 <= self.manual_control_deadzone_radius <= SCALAR_LIMIT
    }
}

impl Config {
    /// What a validated configuration guarantees: the clamp border is a
    /// proper in-range rectangle and every gain is a representable scalar.
    pub open spec fn well_formed(&self) -> bool {
        &&& self.vision.well_formed()
        &&& forall|i: int|
            0 <= i < self.winches@.len() ==> in_scalar_range(
                #[trigger] self.winches@[i].calibration.unit_per_count as int,
            )
    }
}

} // verus!
