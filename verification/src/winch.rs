//! Per-winch state and the safety interlock.
//!
//! One `WinchController` exists per physical winch, created at
//! controller construction and mutated once per tick by that winch's
//! own status report. The interlock in [`safe_velocity`] is the single
//! place where a requested velocity meets the winch's mechanical
//! condition.

use vstd::prelude::*;
use crate::config::{Config, WinchCalibration};
use crate::fixed::{abs_spec, clamp_spec, fix_mul, in_scalar_range, SCALAR_LIMIT};
use crate::fixed::{abs64, clamp64, fixmul, lemma_mul_bound};
use crate::lighting::WinchLightState;
use crate::message::{WinchCommand, WinchStatus};

verus! {

/// Mechanical condition of one winch's actuator.
#[derive(Clone, Copy, PartialEq, Eq, Structural, Debug)]
pub enum MechStatus {
    /// Free to move as commanded.
    Normal,
    /// Stalled: no commanded motion may pass.
    Stuck,
    /// Loaded to its force bound; only motion that relieves the load
    /// (opposite in sign to the recorded force) may pass.
    ForceLimited(i64),
}

impl MechStatus {
    pub open spec fn in_range(self) -> bool {
        match self {
            MechStatus::ForceLimited(f) => in_scalar_range(f as int),
            _ => true,
        }
    }
}

/// The safety interlock: what remains of a requested velocity once the
/// winch's mechanical condition has its say.
pub open spec fn safe_velocity(requested: int, mech: MechStatus) -> int {
    match mech {
        MechStatus::Normal => requested,
        MechStatus::Stuck => 0,
        MechStatus::ForceLimited(f) => if requested * f < 0 {
            requested
        } else {
            0
        },
    }
}

/// State the controller keeps for one winch.
#[derive(Clone, Copy, PartialEq, Eq, Structural, Debug)]
pub struct WinchController {
    /// Ordinal id, fixed at construction.
    pub id: usize,
    /// Mechanical condition recomputed from the latest status report.
    pub mech_status: MechStatus,
    /// Velocity most recently passed through the interlock and applied.
    pub commanded_velocity: i64,
    /// Motion the winch's encoder saw last tick, in calibrated units.
    pub sensed_motion: i64,
}

impl WinchController {
    pub open spec fn well_formed(&self) -> bool {
        &&& self.mech_status.in_range()
        &&& in_scalar_range(self.commanded_velocity as int)
        &&& in_scalar_range(self.sensed_motion as int)
    }

    /// This winch's own lighting contribution.
    pub open spec fn light_state_spec(&self) -> WinchLightState {
        WinchLightState {
            command_intensity: abs_spec(self.commanded_velocity as int) as i64,
            motion_intensity: abs_spec(self.sensed_motion as int) as i64,
            fault: !(self.mech_status is Normal),
        }
    }

    pub fn new(id: usize) -> (w: WinchController)
        ensures
            w == (WinchController {
                id,
                mech_status: MechStatus::Normal,
                commanded_velocity: 0,
                sensed_motion: 0,
            }),
            w.well_formed(),
    {
        WinchController { id, mech_status: MechStatus::Normal, commanded_velocity: 0, sensed_motion: 0 }
    }

    /// Fold one status report in: adopt the reported mechanical
    /// condition and convert the encoder motion to units through the
    /// calibration, saturated into the representable scalar range.
    pub fn update(&mut self, _config: &Config, cal: &WinchCalibration, status: &WinchStatus)
        requires
            status.well_formed(),
            in_scalar_range(cal.unit_per_count as int),
        ensures
            final(self).id == old(self).id,
            final(self).commanded_velocity == old(self).commanded_velocity,
            final(self).mech_status == status.mech,
            final(self).sensed_motion == clamp_spec(
                fix_mul(status.motion_counts as int, cal.unit_per_count as int),
                -SCALAR_LIMIT as int,
                SCALAR_LIMIT as int,
            ),
            old(self).well_formed() ==> final(self).well_formed(),
    {
        proof {
            lemma_mul_bound(
                status.motion_counts as int,
                cal.unit_per_count as int,
                SCALAR_LIMIT as int,
                SCALAR_LIMIT as int,
            );
        }
        self.mech_status = status.mech;
        self.sensed_motion = clamp64(
            fixmul(status.motion_counts, cal.unit_per_count),
            -SCALAR_LIMIT,
            SCALAR_LIMIT,
        );
    }

    /// Integrate the safety-checked velocity for this tick.
    pub fn velocity_tick(&mut self, _config: &Config, _cal: &WinchCalibration, velocity: i64)
        requires
            in_scalar_range(velocity as int),
        ensures
            *final(self) == (WinchController { commanded_velocity: velocity, ..*old(self) }),
            old(self).well_formed() ==> final(self).well_formed(),
    {
        self.commanded_velocity = velocity;
    }

    /// The outbound command for this winch, pure in the current state.
    pub fn make_command(&self, _config: &Config, _cal: &WinchCalibration, _status: &WinchStatus) -> (c:
        WinchCommand)
        ensures
            c.velocity == self.commanded_velocity,
    {
        WinchCommand { velocity: self.commanded_velocity }
    }

    /// This winch's lighting contribution, from its own state alone.
    pub fn light_state(&self) -> (l: WinchLightState)
        requires
            self.well_formed(),
        ensures
            l == self.light_state_spec(),
    {
        let fault = match self.mech_status {
            MechStatus::Normal => false,
            _ => true,
        };
        WinchLightState {
            command_intensity: abs64(self.commanded_velocity),
            motion_intensity: abs64(self.sensed_motion),
            fault,
        }
    }

    /// Run the requested velocity through the interlock against the
    /// current mechanical condition.
    pub fn apply_interlock(&self, requested: i64) -> (v: i64)
        requires
            self.well_formed(),
            in_scalar_range(requested as int),
        ensures
            v == safe_velocity(requested as int, self.mech_status),
            in_scalar_range(v as int),
    {
        match self.mech_status {
            MechStatus::Normal => requested,
            MechStatus::Stuck => 0,
            MechStatus::ForceLimited(f) => {
                proof {
                    lemma_mul_bound(requested as int, f as int, SCALAR_LIMIT as int, SCALAR_LIMIT as int);
                }
                if requested * f < 0 {
                    requested
                } else {
                    0
                }
            },
        }
    }
}

} // verus!
