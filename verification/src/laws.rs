//! The arbitration core's stated guarantees, proved once for all
//! inputs. Each law is phrased over the same spec functions the
//! entry-point contracts use, so it speaks about exactly what those
//! functions promise.

use vstd::prelude::*;
use crate::config::{Config, ControllerMode};
use crate::fixed::abs_spec;
use crate::geometry::{Rect, Vec2, rect_constrain_spec, vec2_add_spec, vec2_mul_spec};
use crate::manual::ManualControls;
use crate::message::CameraDetectedObject;
use crate::state::{ControllerState, requested_velocity_spec, object_qualifies, selected_object_at};
use crate::winch::{MechStatus, safe_velocity};

verus! {

/// A manual camera vector inside the deadzone contributes no drive
/// velocity: the integrated velocity is exactly the restoring pull,
/// whatever the rest of the configuration says.
pub proof fn lemma_deadzone_zero_contribution(m: ManualControls, config: &Config, center: Vec2)
    requires
        ManualControls::in_deadzone_spec(m.camera, config),
    ensures
        ControllerState::manual_velocity_spec(m, config, center) == vec2_mul_spec(
            center,
            Vec2 {
                x: (-(config.vision.manual_control_restoring_force as int)) as i64,
                y: (-(config.vision.manual_control_restoring_force as int)) as i64,
            },
        ),
{
    let speed = config.vision.manual_control_speed;
    let drive = vec2_mul_spec(Vec2 { x: 0, y: 0 }, Vec2 { x: speed, y: (-(speed as int)) as i64 });
    assert(drive.x == 0 && drive.y == 0);
    let gain = config.vision.manual_control_restoring_force;
    let restore = vec2_mul_spec(
        center,
        Vec2 { x: (-(gain as int)) as i64, y: (-(gain as int)) as i64 },
    );
    assert(vec2_add_spec(drive, restore) == restore);
}

/// The border clamp really clamps: a rectangle no larger than the
/// border ends up entirely inside it, at its original size. Every
/// rectangle the tracking logic stores passes through this clamp.
pub proof fn lemma_constrain_never_exceeds_border(r: Rect, b: Rect)
    requires
        r.well_formed(),
        b.well_formed(),
        b.in_range(),
        abs_spec(r.min_x as int) <= i64::MAX / 4,
        abs_spec(r.min_y as int) <= i64::MAX / 4,
        abs_spec(r.max_x as int) <= i64::MAX / 4,
        abs_spec(r.max_y as int) <= i64::MAX / 4,
        r.width() <= b.width(),
        r.height() <= b.height(),
    ensures
        rect_constrain_spec(r, b).contained_in(b),
        rect_constrain_spec(r, b).width() == r.width(),
        rect_constrain_spec(r, b).height() == r.height(),
{
}

/// Automatic snapping never fires while the controller is halted,
/// whatever is pending and whatever the batch holds.
pub proof fn lemma_no_snap_while_halted(s: ControllerState, config: &Config, now_millis: u64)
    requires
        config.mode is Halted,
    ensures
        !s.snap_enabled(config, now_millis),
{
}

/// A detection batch older than the staleness bound at call time is
/// never used for snapping.
pub proof fn lemma_no_snap_when_stale(s: ControllerState, config: &Config, now_millis: u64)
    requires
        now_millis > s.detected_at_millis + crate::state::SNAP_STALENESS_MILLIS,
    ensures
        !s.snap_enabled(config, now_millis),
{
}

/// The selected detection object is at least as probable as every
/// qualifying object in the batch, and strictly more probable than
/// every qualifying object seen before it — ties keep the earliest.
pub proof fn lemma_selected_is_most_probable(
    objs: Seq<CameraDetectedObject>,
    config: &Config,
    i: int,
    j: int,
)
    requires
        selected_object_at(objs, config, i),
        0 <= j < objs.len(),
        object_qualifies(objs[j], config),
    ensures
        objs[j].prob <= objs[i].prob,
        j < i ==> objs[j].prob < objs[i].prob,
{
}

/// In every mode other than manual-winch for exactly this winch, the
/// requested velocity is zero.
pub proof fn lemma_exclusive_manual_velocity(config: &Config, manual: ManualControls, id: int)
    requires
        !(config.mode matches ControllerMode::ManualWinch(m) && m == id),
    ensures
        requested_velocity_spec(config, manual, id) == 0,
{
}

/// A stuck winch never moves: the interlock zeroes every requested
/// velocity.
pub proof fn lemma_stuck_zeroes_velocity(requested: int)
    ensures
        safe_velocity(requested, MechStatus::Stuck) == 0,
{
}

/// Under force limiting, motion that opposes the recorded force passes
/// through unchanged and motion that would add to it is zeroed, on
/// either sign of the force.
pub proof fn lemma_force_limited_relief_only(requested: int, f: i64)
    ensures
        f > 0 && requested < 0 ==> safe_velocity(requested, MechStatus::ForceLimited(f))
            == requested,
        f > 0 && requested >= 0 ==> safe_velocity(requested, MechStatus::ForceLimited(f)) == 0,
        f < 0 && requested > 0 ==> safe_velocity(requested, MechStatus::ForceLimited(f))
            == requested,
        f < 0 && requested <= 0 ==> safe_velocity(requested, MechStatus::ForceLimited(f)) == 0,
{
    assert((f > 0 && requested < 0 ==> requested * f < 0) && (f > 0 && requested >= 0 ==> requested
        * f >= 0) && (f < 0 && requested > 0 ==> requested * f < 0) && (f < 0 && requested <= 0
        ==> requested * f >= 0)) by (nonlinear_arith);
}

} // verus!
