//! Values exchanged with the winch nodes, the flyer and the vision
//! pipeline, already decoded by the transport layer into plain
//! fixed-point form.

use vstd::prelude::*;
use crate::fixed::in_scalar_range;
use crate::geometry::Rect;
use crate::winch::MechStatus;

verus! {

/// One object the vision pipeline detected: its bounding box, its
/// classification label (an id agreed with the pipeline), and its
/// detection probability in `[0, UNIT]`.
#[derive(Clone, Copy, PartialEq, Eq, Structural, Debug)]
pub struct CameraDetectedObject {
    pub rect: Rect,
    pub label: u64,
    pub prob: i64,
}

impl CameraDetectedObject {
    pub open spec fn well_formed(self) -> bool {
        self.rect.well_formed() && self.rect.in_range()
    }
}

/// A timestamped batch of detected objects; each batch supersedes the
/// previous one.
pub struct CameraDetectedObjects {
    /// Identifier of the camera frame the batch came from.
    pub frame: u64,
    pub objects: Vec<CameraDetectedObject>,
}

impl CameraDetectedObjects {
    pub open spec fn well_formed(&self) -> bool {
        forall|i: int| 0 <= i < self.objects@.len() ==> (#[trigger] self.objects@[i]).well_formed()
    }

    pub fn new() -> (d: CameraDetectedObjects)
        ensures
            d.frame == 0,
            d.objects@.len() == 0,
            d.well_formed(),
    {
        CameraDetectedObjects { frame: 0, objects: Vec::new() }
    }
}

/// The rectangle the system is currently looking at, with the
/// detection frame it originated from.
#[derive(Clone, Copy, PartialEq, Eq, Structural, Debug)]
pub struct CameraTrackedRegion {
    pub rect: Rect,
    pub frame: u64,
}

impl CameraTrackedRegion {
    pub open spec fn well_formed(self) -> bool {
        self.rect.well_formed() && self.rect.in_ext_range()
    }

    pub fn new() -> (t: CameraTrackedRegion)
        ensures
            t.rect == (Rect { min_x: 0, min_y: 0, max_x: 0, max_y: 0 }),
            t.frame == 0,
            t.well_formed(),
    {
        CameraTrackedRegion { rect: Rect { min_x: 0, min_y: 0, max_x: 0, max_y: 0 }, frame: 0 }
    }
}

/// One winch's status report: the mechanical condition its firmware
/// derived from its sensors, and the raw encoder motion since the last
/// report.
#[derive(Clone, Copy, PartialEq, Eq, Structural, Debug)]
pub struct WinchStatus {
    pub mech: MechStatus,
    pub motion_counts: i64,
}

impl WinchStatus {
    pub open spec fn well_formed(self) -> bool {
        self.mech.in_range() && in_scalar_range(self.motion_counts as int)
    }
}

/// The outbound command for one winch this tick.
#[derive(Clone, Copy, PartialEq, Eq, Structural, Debug)]
pub struct WinchCommand {
    pub velocity: i64,
}

/// Last-known telemetry snapshot from the flying payload; retained for
/// layers outside this core.
#[derive(Clone, Copy, PartialEq, Eq, Structural, Debug)]
pub struct FlyerSensors {
    pub lidar_range: i64,
    pub battery_millivolts: i64,
}

} // verus!
