//! Latched operator intent.
//!
//! The transport layer feeds joystick input in through the `*_input`
//! methods; the controller reads the latched values once per tick.
//! Camera control counts as active for a bounded number of ticks after
//! the last camera input; `full_reset` drops every latched value so
//! nothing leaks across a mode change.

use vstd::prelude::*;
use crate::config::Config;
use crate::fixed::{clamp_spec, in_scalar_range, SCALAR_LIMIT};
use crate::fixed::{clamp64, lemma_mul_bound};
use crate::geometry::{Vec2, vec2_in_range};

verus! {

/// Operator intent, as last received.
pub struct ManualControls {
    /// Latched camera joystick vector.
    pub camera: Vec2,
    /// Latched per-axis velocity request, already limited at input.
    pub velocity: Vec2,
    /// Ticks of camera-control activity left; camera control is active
    /// while this is positive.
    pub camera_hold_ticks: u32,
}

impl ManualControls {
    pub open spec fn well_formed(&self) -> bool {
        vec2_in_range(self.camera) && vec2_in_range(self.velocity)
    }

    /// The state `full_reset` leaves behind: nothing latched.
    pub open spec fn reset_spec() -> ManualControls {
        ManualControls {
            camera: Vec2 { x: 0, y: 0 },
            velocity: Vec2 { x: 0, y: 0 },
            camera_hold_ticks: 0,
        }
    }

    pub open spec fn camera_control_active_spec(&self) -> bool {
        self.camera_hold_ticks > 0
    }

    /// The camera vector lies in the deadzone: its length is at most
    /// the configured radius.
    pub open spec fn in_deadzone_spec(v: Vec2, config: &Config) -> bool {
        v.x * v.x + v.y * v.y <= config.vision.manual_control_deadzone_radius
            * config.vision.manual_control_deadzone_radius
    }

    pub fn new() -> (m: ManualControls)
        ensures
            m == ManualControls::reset_spec(),
            m.well_formed(),
    {
        ManualControls {
            camera: Vec2 { x: 0, y: 0 },
            velocity: Vec2 { x: 0, y: 0 },
            camera_hold_ticks: 0,
        }
    }

    /// Drop every latched value; called on any mode change.
    pub fn full_reset(&mut self)
        ensures
            *final(self) == ManualControls::reset_spec(),
            final(self).well_formed(),
    {
        self.camera = Vec2 { x: 0, y: 0 };
        self.velocity = Vec2 { x: 0, y: 0 };
        self.camera_hold_ticks = 0;
    }

    pub fn camera_control_active(&self) -> (r: bool)
        ensures
            r == self.camera_control_active_spec(),
    {
        self.camera_hold_ticks > 0
    }

    pub fn camera_vector(&self) -> (v: Vec2)
        ensures
            v == self.camera,
    {
        self.camera
    }

    pub fn limited_velocity(&self) -> (v: Vec2)
        ensures
            v == self.velocity,
    {
        self.velocity
    }

    /// Whether a camera vector falls inside the configured deadzone.
    pub fn camera_vector_in_deadzone(v: Vec2, config: &Config) -> (r: bool)
        requires
            vec2_in_range(v),
            config.well_formed(),
        ensures
            r == ManualControls::in_deadzone_spec(v, config),
    {
        proof {
            lemma_mul_bound(v.x as int, v.x as int, SCALAR_LIMIT as int, SCALAR_LIMIT as int);
            lemma_mul_bound(v.y as int, v.y as int, SCALAR_LIMIT as int, SCALAR_LIMIT as int);
            let dz = config.vision.manual_control_deadzone_radius as int;
            lemma_mul_bound(dz, dz, SCALAR_LIMIT as int, SCALAR_LIMIT as int);
        }
        let dz = config.vision.manual_control_deadzone_radius;
        v.x * v.x + v.y * v.y <= dz * dz
    }

    /// Latch a camera joystick vector (clamped into the representable
    /// range) and arm camera control for `hold_ticks` ticks.
    pub fn camera_input(&mut self, v: Vec2, hold_ticks: u32)
        ensures
            final(self).camera.x == clamp_spec(v.x as int, -SCALAR_LIMIT as int, SCALAR_LIMIT as int),
            final(self).camera.y == clamp_spec(v.y as int, -SCALAR_LIMIT as int, SCALAR_LIMIT as int),
            final(self).camera_hold_ticks == hold_ticks,
            final(self).velocity == old(self).velocity,
            old(self).well_formed() ==> final(self).well_formed(),
    {
        self.camera = Vec2 {
            x: clamp64(v.x, -SCALAR_LIMIT, SCALAR_LIMIT),
            y: clamp64(v.y, -SCALAR_LIMIT, SCALAR_LIMIT),
        };
        self.camera_hold_ticks = hold_ticks;
    }

    /// Latch a velocity request, limited per axis to `limit`.
    pub fn velocity_input(&mut self, v: Vec2, limit: i64)
        requires
            0 <= limit <= SCALAR_LIMIT,
        ensures
            final(self).velocity.x == clamp_spec(v.x as int, -limit as int, limit as int),
            final(self).velocity.y == clamp_spec(v.y as int, -limit as int, limit as int),
            final(self).camera == old(self).camera,
            final(self).camera_hold_ticks == old(self).camera_hold_ticks,
            old(self).well_formed() ==> final(self).well_formed(),
    {
        self.velocity = Vec2 { x: clamp64(v.x, -limit, limit), y: clamp64(v.y, -limit, limit) };
    }

    /// Advance manual-control timing by one tick: camera-control
    /// activity runs down; the latched vectors stay.
    pub fn control_tick(&mut self, _config: &Config)
        ensures
            final(self).camera == old(self).camera,
            final(self).velocity == old(self).velocity,
            final(self).camera_hold_ticks == if old(self).camera_hold_ticks > 0 {
                (old(self).camera_hold_ticks - 1) as u32
            } else {
                0u32
            },
            old(self).well_formed() ==> final(self).well_formed(),
    {
        if self.camera_hold_ticks > 0 {
            self.camera_hold_ticks = self.camera_hold_ticks - 1;
        }
    }
}

} // verus!
