//! The controller's per-tick decision core.
//!
//! A single `ControllerState` owns all mutable state: operator intent,
//! the tracked camera region, the latest detection batch, one
//! [`WinchController`] per configured winch, and the last-seen mode.
//! Callers serialize the per-tick entry points; the core performs no
//! synchronization of its own. Time enters only as a millisecond clock
//! value supplied by the caller, so staleness decisions are a pure
//! function of their inputs.

use vstd::prelude::*;
use crate::config::{Config, ControllerMode, SnapRule};
use crate::fixed::{clamp_spec, fix_mul, in_scalar_range, is_sqrt_floor, sqrt_floor};
use crate::fixed::{SCALAR_LIMIT, TIME_STEP_LIMIT};
use crate::fixed::{isqrt, lemma_fix_mul_bound, lemma_mul_bound};
use crate::geometry::{Rect, Vec2};
use crate::geometry::{
    rect_area_spec, rect_center_spec, rect_centered_on_origin_spec, rect_constrain_spec,
    rect_translate_spec, vec2_add_spec, vec2_mul_spec, vec2_scale_spec,
};
use crate::geometry::{rect_area, rect_center, rect_centered_on_origin, rect_constrain, rect_translate, vec2_add, vec2_mul, vec2_scale};
use crate::lighting::{LightEnvironment, WinchLightState};
use crate::manual::ManualControls;
use crate::message::{
    CameraDetectedObject, CameraDetectedObjects, CameraTrackedRegion, FlyerSensors, WinchCommand,
    WinchStatus,
};
use crate::winch::{MechStatus, WinchController, safe_velocity};

verus! {

/// Detection batches older than this many milliseconds are never used
/// for snapping.
pub const SNAP_STALENESS_MILLIS: u64 = 500;

/// All controller-owned state.
pub struct ControllerState {
    /// Latched operator intent.
    pub manual: ManualControls,
    /// What the system is currently looking at.
    pub tracked_region: CameraTrackedRegion,
    /// The latest detection batch from the vision pipeline.
    pub detected: CameraDetectedObjects,
    /// Millisecond clock reading when `detected` arrived.
    pub detected_at_millis: u64,
    /// One controller per configured winch, indexed by ordinal id.
    pub winches: Vec<WinchController>,
    /// Last-known telemetry from the flying payload, kept for other layers.
    pub flyer_sensors: Option<FlyerSensors>,
    /// A detection batch is waiting to be considered for snapping.
    pub pending_snap: bool,
    /// The mode the controller last acted under, for change detection.
    pub last_mode: ControllerMode,
}

/// A detection object satisfies one snap rule: right label, probable
/// enough.
pub open spec fn rule_matches(obj: CameraDetectedObject, rule: SnapRule) -> bool {
    obj.prob >= rule.min_prob && obj.label == rule.label
}

/// A detection object qualifies for snapping: its box's area lies
/// within the configured bounds and some snap rule matches it.
pub open spec fn object_qualifies(obj: CameraDetectedObject, config: &Config) -> bool {
    &&& config.vision.tracking_min_area <= rect_area_spec(obj.rect)
    &&& rect_area_spec(obj.rect) <= config.vision.tracking_max_area
    &&& exists|r: int|
        0 <= r < config.vision.snap_tracked_region_to@.len() && rule_matches(
            obj,
            #[trigger] config.vision.snap_tracked_region_to@[r],
        )
}

/// Position `i` holds the object the snap logic selects: it qualifies,
/// no qualifying object is more probable, and every earlier qualifying
/// object is strictly less probable (ties keep the earliest seen).
pub open spec fn selected_object_at(objs: Seq<CameraDetectedObject>, config: &Config, i: int) -> bool {
    &&& 0 <= i < objs.len()
    &&& object_qualifies(objs[i], config)
    &&& forall|j: int|
        0 <= j < objs.len() && object_qualifies(#[trigger] objs[j], config) ==> objs[j].prob
            <= objs[i].prob
    &&& forall|j: int|
        0 <= j < i && object_qualifies(#[trigger] objs[j], config) ==> objs[j].prob < objs[i].prob
}

/// The velocity the operator's intent requests for winch `id`: nonzero
/// only in manual-winch mode for exactly that winch.
pub open spec fn requested_velocity_spec(config: &Config, manual: ManualControls, id: int) -> int {
    if config.mode matches ControllerMode::ManualWinch(m) && m == id {
        manual.velocity.y as int
    } else {
        0
    }
}

impl ControllerState {
    pub open spec fn winches_well_formed(&self) -> bool {
        forall|i: int|
            0 <= i < self.winches@.len() ==> ((#[trigger] self.winches@[i]).well_formed()
                && self.winches@[i].id == i)
    }

    pub open spec fn well_formed(&self) -> bool {
        &&& self.manual.well_formed()
        &&& self.tracked_region.well_formed()
        &&& self.detected.well_formed()
        &&& self.winches_well_formed()
    }

    /// The latest detection batch is not older than the staleness bound.
    pub open spec fn detections_fresh(&self, now_millis: u64) -> bool {
        now_millis <= self.detected_at_millis + SNAP_STALENESS_MILLIS
    }

    /// Automatic snapping may run at all: a batch is pending, it is
    /// fresh, and the controller is not halted.
    pub open spec fn snap_enabled(&self, config: &Config, now_millis: u64) -> bool {
        &&& self.pending_snap
        &&& self.detections_fresh(now_millis)
        &&& !(config.mode is Halted)
    }

    /// Some detection object in the current batch qualifies.
    pub open spec fn has_qualifying_object(&self, config: &Config) -> bool {
        exists|i: int|
            0 <= i < self.detected.objects@.len() && object_qualifies(
                #[trigger] self.detected.objects@[i],
                config,
            )
    }

    /// Build one winch controller per configured winch; nothing latched,
    /// nothing pending, the initial mode recorded as last seen.
    pub fn new(initial_config: &Config) -> (s: ControllerState)
        ensures
            s.well_formed(),
            s.manual == ManualControls::reset_spec(),
            s.tracked_region.rect == (Rect { min_x: 0, min_y: 0, max_x: 0, max_y: 0 }),
            s.tracked_region.frame == 0,
            s.detected.frame == 0,
            s.detected.objects@.len() == 0,
            s.detected_at_millis == 0,
            s.flyer_sensors is None,
            !s.pending_snap,
            s.last_mode == initial_config.mode,
            s.winches@.len() == initial_config.winches@.len(),
            forall|i: int|
                0 <= i < s.winches@.len() ==> #[trigger] s.winches@[i] == (WinchController {
                    id: i as usize,
                    mech_status: MechStatus::Normal,
                    commanded_velocity: 0,
                    sensed_motion: 0,
                }),
    {
        let n = initial_config.winches.len();
        let mut winches: Vec<WinchController> = Vec::new();
        let mut id: usize = 0;
        while id < n
            invariant
                id <= n,
                winches@.len() == id,
                forall|i: int|
                    0 <= i < id ==> #[trigger] winches@[i] == (WinchController {
                        id: i as usize,
                        mech_status: MechStatus::Normal,
                        commanded_velocity: 0,
                        sensed_motion: 0,
                    }),
            decreases n - id,
        {
            winches.push(WinchController::new(id));
            id = id + 1;
        }
        ControllerState {
            manual: ManualControls::new(),
            tracked_region: CameraTrackedRegion::new(),
            detected: CameraDetectedObjects::new(),
            detected_at_millis: 0,
            winches,
            flyer_sensors: None,
            pending_snap: false,
            last_mode: initial_config.mode,
        }
    }

    /// Detect a mode change by comparing to the last-seen mode; on a
    /// change, halt all motion and record the new mode. Handled exactly
    /// once per distinct mode value.
    pub fn config_changed(&mut self, config: &Config)
        ensures
            final(self).last_mode == config.mode,
            final(self).manual == if config.mode == old(self).last_mode {
                old(self).manual
            } else {
                ManualControls::reset_spec()
            },
            final(self).tracked_region == old(self).tracked_region,
            final(self).detected == old(self).detected,
            final(self).detected_at_millis == old(self).detected_at_millis,
            final(self).winches == old(self).winches,
            final(self).flyer_sensors == old(self).flyer_sensors,
            final(self).pending_snap == old(self).pending_snap,
            old(self).well_formed() ==> final(self).well_formed(),
    {
        if !(config.mode == self.last_mode) {
            self.mode_changed(&config.mode);
            self.last_mode = config.mode;
        }
    }

    /// What a mode change triggers: all motion halts.
    fn mode_changed(&mut self, _mode: &ControllerMode)
        ensures
            *final(self) == (ControllerState { manual: ManualControls::reset_spec(), ..*old(self) }),
    {
        self.halt_motion();
    }

    /// Clear any in-flight operator velocity or camera vector.
    fn halt_motion(&mut self)
        ensures
            *final(self) == (ControllerState { manual: ManualControls::reset_spec(), ..*old(self) }),
    {
        self.manual.full_reset();
    }

    /// Store a fresh detection batch and raise the pending-snap flag —
    /// the only place the flag becomes true.
    pub fn camera_object_detection_update(&mut self, det: CameraDetectedObjects, now_millis: u64)
        requires
            det.well_formed(),
        ensures
            final(self).detected == det,
            final(self).detected_at_millis == now_millis,
            final(self).pending_snap,
            final(self).manual == old(self).manual,
            final(self).tracked_region == old(self).tracked_region,
            final(self).winches == old(self).winches,
            final(self).flyer_sensors == old(self).flyer_sensors,
            final(self).last_mode == old(self).last_mode,
            old(self).well_formed() ==> final(self).well_formed(),
    {
        self.detected = det;
        self.detected_at_millis = now_millis;
        self.pending_snap = true;
    }

    /// Adopt an externally computed tracked region — unless the
    /// operator's camera control is active, in which case manual input
    /// wins and nothing changes.
    pub fn camera_region_tracking_update(&mut self, tr: CameraTrackedRegion)
        requires
            tr.well_formed(),
        ensures
            old(self).manual.camera_control_active_spec() ==> *final(self) == *old(self),
            !old(self).manual.camera_control_active_spec() ==> *final(self) == (ControllerState {
                tracked_region: tr,
                ..*old(self)
            }),
            old(self).well_formed() ==> final(self).well_formed(),
    {
        if !self.manual.camera_control_active() {
            self.tracked_region = tr;
        }
    }

    /// The camera vector the manual branch acts on: zero inside the
    /// deadzone, the latched vector outside it.
    pub open spec fn effective_camera_vec(m: ManualControls, config: &Config) -> Vec2 {
        if ManualControls::in_deadzone_spec(m.camera, config) {
            Vec2 { x: 0, y: 0 }
        } else {
            m.camera
        }
    }

    /// The velocity the manual branch integrates: the filtered camera
    /// vector scaled by the control speed (screen Y inverted to world),
    /// plus a restoring pull opposite the current centre.
    pub open spec fn manual_velocity_spec(m: ManualControls, config: &Config, center: Vec2) -> Vec2 {
        let speed = config.vision.manual_control_speed;
        let gain = config.vision.manual_control_restoring_force;
        let drive = vec2_mul_spec(
            Self::effective_camera_vec(m, config),
            Vec2 { x: speed, y: (-(speed as int)) as i64 },
        );
        let restore = vec2_mul_spec(
            center,
            Vec2 { x: (-(gain as int)) as i64, y: (-(gain as int)) as i64 },
        );
        vec2_add_spec(drive, restore)
    }

    /// Where the centre of the tracked region moves in one manual step.
    pub open spec fn manual_new_center_spec(pre: ControllerState, config: &Config, dt: int) -> Vec2 {
        let center = rect_center_spec(pre.tracked_region.rect);
        let vel = Self::manual_velocity_spec(pre.manual, config, center);
        vec2_add_spec(center, vec2_scale_spec(vel, dt))
    }

    /// The default-size square (side the square root of the configured
    /// default area) centred on the origin.
    pub open spec fn default_tracking_rect_spec(config: &Config) -> Rect {
        let side = sqrt_floor(config.vision.tracking_default_area as int);
        rect_centered_on_origin_spec(side, side)
    }

    /// The manual branch's result: the default square carried to the
    /// integrated centre, clamped into the border.
    pub open spec fn manual_tracked_rect_spec(pre: ControllerState, config: &Config, dt: int) -> Rect {
        rect_constrain_spec(
            rect_translate_spec(
                Self::default_tracking_rect_spec(config),
                Self::manual_new_center_spec(pre, config, dt),
            ),
            config.vision.border_rect,
        )
    }

    /// The default-size tracking square, built around the origin.
    fn default_tracking_rect(config: &Config) -> (r: Rect)
        requires
            config.well_formed(),
        ensures
            r == Self::default_tracking_rect_spec(config),
            r.well_formed(),
            r.in_range(),
            0 <= r.width() <= SCALAR_LIMIT,
            r.height() == r.width(),
    {
        let side_len = isqrt(config.vision.tracking_default_area);
        proof {
            assert(side_len <= SCALAR_LIMIT) by (nonlinear_arith)
                requires
                    is_sqrt_floor(config.vision.tracking_default_area as int, side_len as int),
                    config.vision.tracking_default_area <= SCALAR_LIMIT * SCALAR_LIMIT,
                    SCALAR_LIMIT > 0,
            ;
        }
        rect_centered_on_origin(side_len, side_len)
    }

    /// Whether some configured snap rule matches the object. The scan
    /// stops at the first matching rule, which decides eligibility only.
    fn object_matches_rules(obj: &CameraDetectedObject, config: &Config) -> (r: bool)
        ensures
            r == exists|i: int|
                0 <= i < config.vision.snap_tracked_region_to@.len() && rule_matches(
                    *obj,
                    #[trigger] config.vision.snap_tracked_region_to@[i],
                ),
    {
        let mut m: usize = 0;
        while m < config.vision.snap_tracked_region_to.len()
            invariant
                m <= config.vision.snap_tracked_region_to@.len(),
                forall|j: int|
                    0 <= j < m ==> !rule_matches(
                        *obj,
                        #[trigger] config.vision.snap_tracked_region_to@[j],
                    ),
            decreases config.vision.snap_tracked_region_to@.len() - m,
        {
            let rule = config.vision.snap_tracked_region_to[m];
            if obj.prob >= rule.min_prob && obj.label == rule.label {
                assert(rule_matches(*obj, config.vision.snap_tracked_region_to@[m as int]));
                return true;
            }
            m = m + 1;
        }
        false
    }

    /// Scan the pending detection batch for the object to snap to:
    /// `Some` exactly when snapping is enabled and some object
    /// qualifies, and then the returned object is the most probable
    /// qualifying one, ties keeping the earliest seen.
    fn find_best_snap_object(&self, config: &Config, now_millis: u64) -> (r: Option<
        CameraDetectedObject,
    >)
        requires
            self.well_formed(),
        ensures
            (r is Some) == (self.snap_enabled(config, now_millis) && self.has_qualifying_object(
                config,
            )),
            r matches Some(obj) ==> exists|i: int|
                #[trigger] selected_object_at(self.detected.objects@, config, i) && obj
                    == self.detected.objects@[i],
    {
        if !self.pending_snap {
            // No data from the vision pipeline yet, or the latest batch
            // was already considered.
            return None;
        }
        if now_millis > self.detected_at_millis && now_millis - self.detected_at_millis
            > SNAP_STALENESS_MILLIS {
            // The latest batch is too old to act on.
            return None;
        }
        if config.mode == ControllerMode::Halted {
            // No automatic activity during halt.
            return None;
        }
        let ghost gobjs = self.detected.objects@;
        let mut best: Option<CameraDetectedObject> = None;
        let ghost mut best_i: int = 0int;
        let mut k: usize = 0;
        while k < self.detected.objects.len()
            invariant
                self.well_formed(),
                gobjs == self.detected.objects@,
                k <= gobjs.len(),
                match best {
                    None => forall|j: int|
                        0 <= j < k ==> !object_qualifies(#[trigger] gobjs[j], config),
                    Some(b) => {
                        &&& 0 <= best_i < k
                        &&& gobjs[best_i] == b
                        &&& object_qualifies(b, config)
                        &&& forall|j: int|
                            0 <= j < k && object_qualifies(#[trigger] gobjs[j], config)
                                ==> gobjs[j].prob <= b.prob
                        &&& forall|j: int|
                            0 <= j < best_i && object_qualifies(#[trigger] gobjs[j], config)
                                ==> gobjs[j].prob < b.prob
                    },
                },
            decreases gobjs.len() - k,
        {
            let obj = self.detected.objects[k];
            let area = rect_area(obj.rect);
            let mut qual: bool = false;
            if area >= config.vision.tracking_min_area && area <= config.vision.tracking_max_area {
                qual = Self::object_matches_rules(&obj, config);
            }
            assert(qual == object_qualifies(gobjs[k as int], config));
            if qual {
                let replace: bool = match &best {
                    None => true,
                    Some(prev) => obj.prob > prev.prob,
                };
                if replace {
                    best = Some(obj);
                    proof {
                        best_i = k as int;
                    }
                }
            }
            k = k + 1;
        }
        proof {
            if best is Some {
                assert(selected_object_at(gobjs, config, best_i));
            }
        }
        best
    }

    /// Move the tracked region one step, by the first source that
    /// claims it: the operator's camera control when active; else a
    /// snap to the best fresh detection; else nothing. Returns the new
    /// rectangle when it changed.
    pub fn tracking_update(&mut self, config: &Config, time_step: i64, now_millis: u64) -> (r:
        Option<Rect>)
        requires
            old(self).well_formed(),
            config.well_formed(),
            0 <= time_step <= TIME_STEP_LIMIT,
        ensures
            final(self).well_formed(),
            final(self).manual == old(self).manual,
            final(self).winches == old(self).winches,
            final(self).flyer_sensors == old(self).flyer_sensors,
            final(self).last_mode == old(self).last_mode,
            final(self).detected == old(self).detected,
            final(self).detected_at_millis == old(self).detected_at_millis,
            old(self).manual.camera_control_active_spec() ==> {
                &&& final(self).tracked_region.rect == Self::manual_tracked_rect_spec(
                    *old(self),
                    config,
                    time_step as int,
                )
                &&& final(self).tracked_region.frame == old(self).tracked_region.frame
                &&& final(self).pending_snap == old(self).pending_snap
                &&& r == Some(final(self).tracked_region.rect)
                &&& (Self::default_tracking_rect_spec(config).width()
                    <= config.vision.border_rect.width()
                    && Self::default_tracking_rect_spec(config).height()
                    <= config.vision.border_rect.height())
                    ==> final(self).tracked_region.rect.contained_in(config.vision.border_rect)
            },
            (!old(self).manual.camera_control_active_spec() && old(self).snap_enabled(
                config,
                now_millis,
            ) && old(self).has_qualifying_object(config)) ==> {
                &&& !final(self).pending_snap
                &&& exists|i: int|
                    #[trigger] selected_object_at(old(self).detected.objects@, config, i)
                        && final(self).tracked_region.rect == rect_constrain_spec(
                        old(self).detected.objects@[i].rect,
                        config.vision.border_rect,
                    )
                &&& final(self).tracked_region.frame == old(self).detected.frame
                &&& r == Some(final(self).tracked_region.rect)
            },
            (!old(self).manual.camera_control_active_spec() && !(old(self).snap_enabled(
                config,
                now_millis,
            ) && old(self).has_qualifying_object(config))) ==> {
                &&& r is None
                &&& *final(self) == *old(self)
            },
    {
        if self.manual.camera_control_active() {
            // Manual tracking control temporarily overrides other sources.
            let camera_vec = self.manual.camera_vector();
            let deadzone = ManualControls::camera_vector_in_deadzone(camera_vec, config);
            let camera_vec = if deadzone {
                Vec2 { x: 0, y: 0 }
            } else {
                camera_vec
            };
            let speed = config.vision.manual_control_speed;
            let gain = config.vision.manual_control_restoring_force;
            proof {
                lemma_mul_bound(camera_vec.x as int, speed as int, SCALAR_LIMIT as int, SCALAR_LIMIT as int);
                lemma_mul_bound(camera_vec.y as int, -(speed as int), SCALAR_LIMIT as int, SCALAR_LIMIT as int);
                lemma_fix_mul_bound(camera_vec.x as int, speed as int, SCALAR_LIMIT as int, SCALAR_LIMIT as int);
                lemma_fix_mul_bound(camera_vec.y as int, -(speed as int), SCALAR_LIMIT as int, SCALAR_LIMIT as int);
            }
            let velocity = vec2_mul(camera_vec, Vec2 { x: speed, y: -speed });
            let center = rect_center(self.tracked_region.rect);
            proof {
                lemma_mul_bound(center.x as int, -(gain as int), 3 * SCALAR_LIMIT as int, SCALAR_LIMIT as int);
                lemma_mul_bound(center.y as int, -(gain as int), 3 * SCALAR_LIMIT as int, SCALAR_LIMIT as int);
                lemma_fix_mul_bound(center.x as int, -(gain as int), 3 * SCALAR_LIMIT as int, SCALAR_LIMIT as int);
                lemma_fix_mul_bound(center.y as int, -(gain as int), 3 * SCALAR_LIMIT as int, SCALAR_LIMIT as int);
            }
            let restoring = vec2_mul(center, Vec2 { x: -gain, y: -gain });
            let velocity = vec2_add(velocity, restoring);
            proof {
                lemma_mul_bound(
                    velocity.x as int,
                    time_step as int,
                    40_000_000_000_000,
                    TIME_STEP_LIMIT as int,
                );
                lemma_mul_bound(
                    velocity.y as int,
                    time_step as int,
                    40_000_000_000_000,
                    TIME_STEP_LIMIT as int,
                );
                lemma_fix_mul_bound(
                    velocity.x as int,
                    time_step as int,
                    40_000_000_000_000,
                    TIME_STEP_LIMIT as int,
                );
                lemma_fix_mul_bound(
                    velocity.y as int,
                    time_step as int,
                    40_000_000_000_000,
                    TIME_STEP_LIMIT as int,
                );
            }
            let step = vec2_scale(velocity, time_step);
            let center = vec2_add(center, step);
            let default_rect = Self::default_tracking_rect(config);
            let translated = rect_translate(default_rect, center);
            let constrained = rect_constrain(translated, config.vision.border_rect);
            self.tracked_region.rect = constrained;
            Some(constrained)
        } else {
            let snap = self.find_best_snap_object(config, now_millis);
            match snap {
                Some(obj) => {
                    // Snap to the selected detected object.
                    self.pending_snap = false;
                    self.tracked_region.rect = rect_constrain(obj.rect, config.vision.border_rect);
                    self.tracked_region.frame = self.detected.frame;
                    Some(self.tracked_region.rect)
                },
                None => None,
            }
        }
    }

    /// Retain the latest flyer telemetry.
    pub fn flyer_sensor_update(&mut self, sensors: FlyerSensors)
        ensures
            *final(self) == (ControllerState { flyer_sensors: Some(sensors), ..*old(self) }),
            old(self).well_formed() ==> final(self).well_formed(),
    {
        self.flyer_sensors = Some(sensors);
    }

    /// One winch's control step: fold its status report in, arbitrate
    /// the requested velocity by mode (only the manually driven winch
    /// may move), pass it through the safety interlock against the
    /// just-updated mechanical condition, and emit the outbound
    /// command. No other winch's state is touched.
    pub fn winch_control_loop(&mut self, config: &Config, id: usize, status: WinchStatus) -> (cmd:
        WinchCommand)
        requires
            old(self).well_formed(),
            config.well_formed(),
            id < old(self).winches@.len(),
            id < config.winches@.len(),
            status.well_formed(),
        ensures
            final(self).well_formed(),
            final(self).winches@.len() == old(self).winches@.len(),
            forall|j: int|
                0 <= j < old(self).winches@.len() && j != id ==> #[trigger] final(self).winches@[j]
                    == old(self).winches@[j],
            final(self).winches@[id as int].id == id,
            final(self).winches@[id as int].mech_status == status.mech,
            final(self).winches@[id as int].sensed_motion == clamp_spec(
                fix_mul(
                    status.motion_counts as int,
                    config.winches@[id as int].calibration.unit_per_count as int,
                ),
                -SCALAR_LIMIT as int,
                SCALAR_LIMIT as int,
            ),
            final(self).winches@[id as int].commanded_velocity == safe_velocity(
                requested_velocity_spec(config, old(self).manual, id as int),
                status.mech,
            ),
            cmd.velocity == final(self).winches@[id as int].commanded_velocity,
            final(self).manual == old(self).manual,
            final(self).tracked_region == old(self).tracked_region,
            final(self).detected == old(self).detected,
            final(self).detected_at_millis == old(self).detected_at_millis,
            final(self).flyer_sensors == old(self).flyer_sensors,
            final(self).pending_snap == old(self).pending_snap,
            final(self).last_mode == old(self).last_mode,
    {
        let cal = config.winches[id].calibration;
        proof {
            assert(old(self).winches@[id as int].well_formed());
            assert(in_scalar_range(config.winches@[id as int].calibration.unit_per_count as int));
        }
        let w = &mut self.winches[id];
        w.update(config, &cal, &status);

        let velocity: i64 = match config.mode {
            ControllerMode::ManualWinch(manual_id) => {
                if manual_id == id {
                    let v = self.manual.limited_velocity().y;
                    self.winches[id].apply_interlock(v)
                } else {
                    0
                }
            },
            _ => 0,
        };

        let w = &mut self.winches[id];
        w.velocity_tick(config, &cal, velocity);
        self.winches[id].make_command(config, &cal, &status)
    }

    /// The per-winch sequence of lighting contributions.
    pub open spec fn light_env_winches_spec(&self) -> Seq<WinchLightState> {
        Seq::new(self.winches@.len(), |i: int| self.winches@[i].light_state_spec())
    }

    /// Derive the lighting snapshot: every winch's own contribution in
    /// id order, and the global parameters copied from the
    /// configuration. Pure and fully recomputed on every call.
    pub fn light_environment(&self, config: &Config) -> (env: LightEnvironment)
        requires
            self.well_formed(),
        ensures
            env.winches@ == self.light_env_winches_spec(),
            env.winches@.len() == self.winches@.len(),
            forall|i: int|
                0 <= i < self.winches@.len() ==> #[trigger] env.winches@[i]
                    == self.winches@[i].light_state_spec(),
            env.winch_wavelength == config.lighting.current.winch.wavelength_m,
            env.winch_wave_window_length == config.lighting.current.winch.wave_window_length_m,
            env.winch_wave_exponent == config.lighting.current.winch.wave_exponent,
            env.winch_command_color == config.lighting.current.winch.command_color,
            env.winch_motion_color == config.lighting.current.winch.motion_color,
            env.flash_exponent == config.lighting.current.flash_exponent,
            env.flash_rate_hz == config.lighting.current.flash_rate_hz,
            env.brightness == config.lighting.current.brightness,
    {
        let mut winches: Vec<WinchLightState> = Vec::new();
        let mut i: usize = 0;
        while i < self.winches.len()
            invariant
                self.well_formed(),
                i <= self.winches@.len(),
                winches@.len() == i,
                forall|j: int|
                    0 <= j < i ==> #[trigger] winches@[j] == self.winches@[j].light_state_spec(),
            decreases self.winches@.len() - i,
        {
            proof {
                assert(self.winches@[i as int].well_formed());
            }
            winches.push(self.winches[i].light_state());
            i = i + 1;
        }
        proof {
            assert(winches@ =~= self.light_env_winches_spec());
        }
        LightEnvironment {
            winches,
            winch_wavelength: config.lighting.current.winch.wavelength_m,
            winch_wave_window_length: config.lighting.current.winch.wave_window_length_m,
            winch_wave_exponent: config.lighting.current.winch.wave_exponent,
            winch_command_color: config.lighting.current.winch.command_color,
            winch_motion_color: config.lighting.current.winch.motion_color,
            flash_exponent: config.lighting.current.flash_exponent,
            flash_rate_hz: config.lighting.current.flash_rate_hz,
            brightness: config.lighting.current.brightness,
        }
    }

    /// The unconditional per-tick work: advance manual-control timing
    /// and recompute the lighting snapshot for the caller to push to
    /// the light animator. The snapshot reflects the winch state from
    /// before this tick's velocity decisions are applied, by design.
    pub fn every_tick(&mut self, config: &Config) -> (env: LightEnvironment)
        requires
            old(self).well_formed(),
        ensures
            final(self).well_formed(),
            final(self).manual.camera == old(self).manual.camera,
            final(self).manual.velocity == old(self).manual.velocity,
            final(self).manual.camera_hold_ticks == if old(self).manual.camera_hold_ticks > 0 {
                (old(self).manual.camera_hold_ticks - 1) as u32
            } else {
                0u32
            },
            final(self).tracked_region == old(self).tracked_region,
            final(self).detected == old(self).detected,
            final(self).detected_at_millis == old(self).detected_at_millis,
            final(self).winches == old(self).winches,
            final(self).flyer_sensors == old(self).flyer_sensors,
            final(self).pending_snap == old(self).pending_snap,
            final(self).last_mode == old(self).last_mode,
            env.winches@ == old(self).light_env_winches_spec(),
            env.winch_wavelength == config.lighting.current.winch.wavelength_m,
            env.winch_wave_window_length == config.lighting.current.winch.wave_window_length_m,
            env.winch_wave_exponent == config.lighting.current.winch.wave_exponent,
            env.winch_command_color == config.lighting.current.winch.command_color,
            env.winch_motion_color == config.lighting.current.winch.motion_color,
            env.flash_exponent == config.lighting.current.flash_exponent,
            env.flash_rate_hz == config.lighting.current.flash_rate_hz,
            env.brightness == config.lighting.current.brightness,
    {
        self.manual.control_tick(config);
        self.light_environment(config)
    }
}

} // verus!
