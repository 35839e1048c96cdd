use tucoflyer::config::{
    Color, Config, ControllerMode, LightingConfig, LightingScheme, SnapRule, VisionConfig,
    WinchCalibration, WinchConfig, WinchLightingConfig,
};
use tucoflyer::geometry::{Rect, Vec2};
use tucoflyer::lighting::WinchLightState;
use tucoflyer::message::{
    CameraDetectedObject, CameraDetectedObjects, CameraTrackedRegion, FlyerSensors, WinchStatus,
};
use tucoflyer::state::ControllerState;
use tucoflyer::winch::MechStatus;

fn base_config(mode: ControllerMode, winch_count: usize) -> Config {
    Config {
        mode,
        vision: VisionConfig {
            border_rect: Rect { min_x: -20_000, min_y: -20_000, max_x: 20_000, max_y: 20_000 },
            tracking_min_area: 0,
            tracking_max_area: 1_000_000_000,
            tracking_default_area: 16_000_000, // a 4 x 4 unit square
            manual_control_speed: 1_000,
            manual_control_restoring_force: 100,
            manual_control_deadzone_radius: 100,
            snap_tracked_region_to: vec![SnapRule { label: 1, min_prob: 500 }],
        },
        winches: vec![WinchConfig { calibration: WinchCalibration { unit_per_count: 1_000 } }; winch_count],
        lighting: LightingConfig {
            current: LightingScheme {
                winch: WinchLightingConfig {
                    wavelength_m: 1_500,
                    wave_window_length_m: 2_500,
                    wave_exponent: 2_000,
                    command_color: Color { red: 1_000, green: 0, blue: 0 },
                    motion_color: Color { red: 0, green: 1_000, blue: 0 },
                },
                flash_exponent: 3_000,
                flash_rate_hz: 2_000,
                brightness: 1_000,
            },
        },
    }
}

fn normal_status() -> WinchStatus {
    WinchStatus { mech: MechStatus::Normal, motion_counts: 0 }
}

#[test]
fn new_controller_defaults() {
    let config = base_config(ControllerMode::Halted, 4);
    let s = ControllerState::new(&config);
    assert_eq!(s.winches.len(), 4);
    for (i, w) in s.winches.iter().enumerate() {
        assert_eq!(w.id, i);
        assert!(matches!(w.mech_status, MechStatus::Normal));
        assert_eq!(w.commanded_velocity, 0);
    }
    assert!(!s.pending_snap);
    assert_eq!(s.tracked_region.rect, Rect { min_x: 0, min_y: 0, max_x: 0, max_y: 0 });
    assert!(!s.manual.camera_control_active());
}

#[test]
fn halted_winches_all_zero() {
    // Four winches under Halted: every command carries zero velocity,
    // whatever the reported status.
    let config = base_config(ControllerMode::Halted, 4);
    let mut s = ControllerState::new(&config);
    s.manual.velocity_input(Vec2 { x: 0, y: 5_000 }, 10_000);
    let statuses = [
        WinchStatus { mech: MechStatus::Normal, motion_counts: 10 },
        WinchStatus { mech: MechStatus::Stuck, motion_counts: -4 },
        WinchStatus { mech: MechStatus::ForceLimited(2_000), motion_counts: 0 },
        WinchStatus { mech: MechStatus::ForceLimited(-2_000), motion_counts: 7 },
    ];
    for id in 0..4 {
        let cmd = s.winch_control_loop(&config, id, statuses[id]);
        assert_eq!(cmd.velocity, 0);
    }
}

#[test]
fn manual_winch_exclusive() {
    // Mode ManualWinch(2), velocity request [0, 5.0]: winch 2 moves at
    // 5.0, every other winch is commanded to rest.
    let config = base_config(ControllerMode::ManualWinch(2), 4);
    let mut s = ControllerState::new(&config);
    s.manual.velocity_input(Vec2 { x: 0, y: 5_000 }, 10_000);
    for id in 0..4 {
        let cmd = s.winch_control_loop(&config, id, normal_status());
        if id == 2 {
            assert_eq!(cmd.velocity, 5_000);
        } else {
            assert_eq!(cmd.velocity, 0);
        }
    }
}

#[test]
fn stuck_zeroes_any_request() {
    let config = base_config(ControllerMode::ManualWinch(0), 1);
    let mut s = ControllerState::new(&config);
    s.manual.velocity_input(Vec2 { x: 0, y: 5_000 }, 10_000);
    let cmd = s.winch_control_loop(
        &config,
        0,
        WinchStatus { mech: MechStatus::Stuck, motion_counts: 0 },
    );
    assert_eq!(cmd.velocity, 0);
}

#[test]
fn force_limited_lets_only_relief_through() {
    let config = base_config(ControllerMode::ManualWinch(0), 1);

    // Positive limiting force: only negative velocity may pass.
    let mut s = ControllerState::new(&config);
    s.manual.velocity_input(Vec2 { x: 0, y: -3_000 }, 10_000);
    let cmd = s.winch_control_loop(
        &config,
        0,
        WinchStatus { mech: MechStatus::ForceLimited(2_000), motion_counts: 0 },
    );
    assert_eq!(cmd.velocity, -3_000);

    s.manual.velocity_input(Vec2 { x: 0, y: 3_000 }, 10_000);
    let cmd = s.winch_control_loop(
        &config,
        0,
        WinchStatus { mech: MechStatus::ForceLimited(2_000), motion_counts: 0 },
    );
    assert_eq!(cmd.velocity, 0);

    // Negative limiting force: the mirror image.
    s.manual.velocity_input(Vec2 { x: 0, y: 3_000 }, 10_000);
    let cmd = s.winch_control_loop(
        &config,
        0,
        WinchStatus { mech: MechStatus::ForceLimited(-2_000), motion_counts: 0 },
    );
    assert_eq!(cmd.velocity, 3_000);

    s.manual.velocity_input(Vec2 { x: 0, y: -3_000 }, 10_000);
    let cmd = s.winch_control_loop(
        &config,
        0,
        WinchStatus { mech: MechStatus::ForceLimited(-2_000), motion_counts: 0 },
    );
    assert_eq!(cmd.velocity, 0);
}

fn detection(label: u64, prob: i64, rect: Rect) -> CameraDetectedObject {
    CameraDetectedObject { rect, label, prob }
}

#[test]
fn higher_probability_wins() {
    // Two detections under the same snap rule: the 0.9 object is
    // selected over the 0.6 one.
    let config = base_config(ControllerMode::Normal, 1);
    let mut s = ControllerState::new(&config);
    let low = detection(1, 600, Rect { min_x: 0, min_y: 0, max_x: 2_000, max_y: 2_000 });
    let high = detection(1, 900, Rect { min_x: 5_000, min_y: 5_000, max_x: 7_000, max_y: 7_000 });
    s.camera_object_detection_update(
        CameraDetectedObjects { frame: 7, objects: vec![low, high] },
        1_000,
    );
    assert!(s.pending_snap);
    let r = s.tracking_update(&config, 100, 1_200);
    assert_eq!(r, Some(high.rect));
    assert_eq!(s.tracked_region.rect, high.rect);
    assert_eq!(s.tracked_region.frame, 7);
    assert!(!s.pending_snap);
}

#[test]
fn equal_probability_keeps_first() {
    let config = base_config(ControllerMode::Normal, 1);
    let mut s = ControllerState::new(&config);
    let first = detection(1, 700, Rect { min_x: 0, min_y: 0, max_x: 2_000, max_y: 2_000 });
    let second = detection(1, 700, Rect { min_x: 5_000, min_y: 5_000, max_x: 7_000, max_y: 7_000 });
    s.camera_object_detection_update(
        CameraDetectedObjects { frame: 3, objects: vec![first, second] },
        0,
    );
    let r = s.tracking_update(&config, 100, 100);
    assert_eq!(r, Some(first.rect));
    assert_eq!(s.tracked_region.rect, first.rect);
}

#[test]
fn area_bounds_filter_objects() {
    // Only the object within the configured area bounds qualifies,
    // even against a more probable one outside them.
    let mut config = base_config(ControllerMode::Normal, 1);
    config.vision.tracking_min_area = 1_000_000;
    config.vision.tracking_max_area = 10_000_000;
    let mut s = ControllerState::new(&config);
    let too_small = detection(1, 990, Rect { min_x: 0, min_y: 0, max_x: 100, max_y: 100 });
    let too_big = detection(1, 980, Rect { min_x: 0, min_y: 0, max_x: 10_000, max_y: 10_000 });
    let fits = detection(1, 600, Rect { min_x: 0, min_y: 0, max_x: 2_000, max_y: 2_000 });
    s.camera_object_detection_update(
        CameraDetectedObjects { frame: 1, objects: vec![too_small, too_big, fits] },
        0,
    );
    let r = s.tracking_update(&config, 100, 0);
    assert_eq!(r, Some(fits.rect));
}

#[test]
fn rule_threshold_filters_objects() {
    // An object under its rule's probability floor, or with a foreign
    // label, never snaps.
    let config = base_config(ControllerMode::Normal, 1);
    let mut s = ControllerState::new(&config);
    let improbable = detection(1, 400, Rect { min_x: 0, min_y: 0, max_x: 2_000, max_y: 2_000 });
    let wrong_label = detection(2, 990, Rect { min_x: 0, min_y: 0, max_x: 2_000, max_y: 2_000 });
    s.camera_object_detection_update(
        CameraDetectedObjects { frame: 1, objects: vec![improbable, wrong_label] },
        0,
    );
    let r = s.tracking_update(&config, 100, 0);
    assert_eq!(r, None);
    // The flag is independent of whether a match was found: with no
    // qualifying object it stays raised.
    assert!(s.pending_snap);
}

#[test]
fn stale_batch_never_snaps() {
    // A batch older than 500 ms at call time is ignored; at exactly
    // 500 ms it is still fresh.
    let config = base_config(ControllerMode::Normal, 1);
    let obj = detection(1, 900, Rect { min_x: 0, min_y: 0, max_x: 2_000, max_y: 2_000 });

    let mut s = ControllerState::new(&config);
    s.camera_object_detection_update(
        CameraDetectedObjects { frame: 1, objects: vec![obj] },
        1_000,
    );
    assert_eq!(s.tracking_update(&config, 100, 1_501), None);
    assert!(s.pending_snap);

    assert_eq!(s.tracking_update(&config, 100, 1_500), Some(obj.rect));
    assert!(!s.pending_snap);
}

#[test]
fn no_snap_while_halted() {
    let config = base_config(ControllerMode::Halted, 1);
    let obj = detection(1, 900, Rect { min_x: 0, min_y: 0, max_x: 2_000, max_y: 2_000 });
    let mut s = ControllerState::new(&config);
    s.camera_object_detection_update(CameraDetectedObjects { frame: 1, objects: vec![obj] }, 0);
    assert_eq!(s.tracking_update(&config, 100, 0), None);
    assert!(s.pending_snap);
}

#[test]
fn pending_snap_consumed_once() {
    // A successful snap clears the flag; the next tick finds nothing.
    let config = base_config(ControllerMode::Normal, 1);
    let obj = detection(1, 900, Rect { min_x: 0, min_y: 0, max_x: 2_000, max_y: 2_000 });
    let mut s = ControllerState::new(&config);
    s.camera_object_detection_update(CameraDetectedObjects { frame: 1, objects: vec![obj] }, 0);
    assert!(s.tracking_update(&config, 100, 0).is_some());
    assert_eq!(s.tracking_update(&config, 100, 0), None);
}

#[test]
fn snap_rect_clamped_to_border() {
    // A detection box partly outside the border is shifted inside it.
    let config = base_config(ControllerMode::Normal, 1);
    let obj = detection(
        1,
        900,
        Rect { min_x: 19_000, min_y: 0, max_x: 23_000, max_y: 2_000 },
    );
    let mut s = ControllerState::new(&config);
    s.camera_object_detection_update(CameraDetectedObjects { frame: 1, objects: vec![obj] }, 0);
    let r = s.tracking_update(&config, 100, 0);
    let expected = Rect { min_x: 16_000, min_y: 0, max_x: 20_000, max_y: 2_000 };
    assert_eq!(r, Some(expected));
    assert_eq!(s.tracked_region.rect, expected);
}

#[test]
fn deadzone_vector_contributes_nothing() {
    // A camera vector inside the deadzone adds no drive velocity: the
    // result equals the pure restoring step from the same start.
    let config = base_config(ControllerMode::Normal, 1);
    let start = CameraTrackedRegion {
        rect: Rect { min_x: 8_000, min_y: -2_000, max_x: 12_000, max_y: 2_000 },
        frame: 0,
    };

    let mut inside = ControllerState::new(&config);
    inside.camera_region_tracking_update(start);
    // length 50 <= deadzone radius 100
    inside.manual.camera_input(Vec2 { x: 50, y: 0 }, 10);
    let r_inside = inside.tracking_update(&config, 1_000, 0);

    let mut zero = ControllerState::new(&config);
    zero.camera_region_tracking_update(start);
    zero.manual.camera_input(Vec2 { x: 0, y: 0 }, 10);
    let r_zero = zero.tracking_update(&config, 1_000, 0);

    assert_eq!(r_inside, r_zero);
    // Restoring force alone: centre (10000, 0) pulled by -centre/10
    // for one full second, so the centre lands at (9000, 0) and the
    // default 4 x 4 square is rebuilt around it.
    assert_eq!(
        inside.tracked_region.rect,
        Rect { min_x: 7_000, min_y: -2_000, max_x: 11_000, max_y: 2_000 },
    );
}

#[test]
fn manual_override_blocks_region_update() {
    let config = base_config(ControllerMode::Normal, 1);
    let tr = CameraTrackedRegion {
        rect: Rect { min_x: 1_000, min_y: 1_000, max_x: 3_000, max_y: 3_000 },
        frame: 9,
    };

    let mut s = ControllerState::new(&config);
    s.manual.camera_input(Vec2 { x: 500, y: 0 }, 10);
    s.camera_region_tracking_update(tr);
    assert_eq!(s.tracked_region.frame, 0);
    assert_eq!(s.tracked_region.rect, Rect { min_x: 0, min_y: 0, max_x: 0, max_y: 0 });

    let mut s = ControllerState::new(&config);
    s.camera_region_tracking_update(tr);
    assert_eq!(s.tracked_region.frame, 9);
    assert_eq!(s.tracked_region.rect, tr.rect);
}

#[test]
fn manual_drive_stabilizes_inside_border() {
    // A sustained full-right camera vector drives the centre toward
    // +X, the restoring force balances it short of the border, and the
    // clamp never lets the rect leave the border.
    let config = base_config(ControllerMode::Normal, 1);
    let border = config.vision.border_rect;
    let mut s = ControllerState::new(&config);
    let mut last_center_x = 0i64;
    for _ in 0..500 {
        s.manual.camera_input(Vec2 { x: 1_000, y: 0 }, 10);
        let r = s.tracking_update(&config, 100, 0);
        let rect = r.expect("manual branch always returns a rect");
        assert!(rect.min_x >= border.min_x && rect.max_x <= border.max_x);
        assert!(rect.min_y >= border.min_y && rect.max_y <= border.max_y);
        let center_x = (rect.min_x + rect.max_x) / 2;
        assert!(center_x >= last_center_x, "centre slides back: {center_x} < {last_center_x}");
        last_center_x = center_x;
    }
    // The balance point of drive 1.0 against gain 0.1 sits at 10.0
    // units, well short of the border at 20.0.
    assert!(last_center_x > 9_000 && last_center_x <= 10_000, "stalled at {last_center_x}");
}

#[test]
fn config_changed_resets_manual_on_mode_change() {
    let halted = base_config(ControllerMode::Halted, 1);
    let manual2 = base_config(ControllerMode::ManualWinch(2), 1);
    let mut s = ControllerState::new(&halted);
    s.manual.velocity_input(Vec2 { x: 0, y: 5_000 }, 10_000);
    s.manual.camera_input(Vec2 { x: 700, y: 0 }, 10);

    // Same mode as last seen: nothing is dropped.
    s.config_changed(&halted);
    assert_eq!(s.manual.limited_velocity(), Vec2 { x: 0, y: 5_000 });
    assert!(s.manual.camera_control_active());

    // A distinct mode: all latched intent is dropped, once.
    s.config_changed(&manual2);
    assert_eq!(s.manual.limited_velocity(), Vec2 { x: 0, y: 0 });
    assert!(!s.manual.camera_control_active());
    assert_eq!(s.last_mode, ControllerMode::ManualWinch(2));
}

#[test]
fn velocity_input_is_limited_per_axis() {
    let config = base_config(ControllerMode::Halted, 1);
    let mut s = ControllerState::new(&config);
    s.manual.velocity_input(Vec2 { x: -9_000, y: 9_000 }, 5_000);
    assert_eq!(s.manual.limited_velocity(), Vec2 { x: -5_000, y: 5_000 });
}

#[test]
fn every_tick_runs_down_camera_hold() {
    let config = base_config(ControllerMode::Normal, 1);
    let mut s = ControllerState::new(&config);
    s.manual.camera_input(Vec2 { x: 100, y: 0 }, 2);
    assert!(s.manual.camera_control_active());
    s.every_tick(&config);
    assert!(s.manual.camera_control_active());
    s.every_tick(&config);
    assert!(!s.manual.camera_control_active());
}

#[test]
fn lighting_reflects_winch_state() {
    let config = base_config(ControllerMode::ManualWinch(0), 2);
    let mut s = ControllerState::new(&config);
    s.manual.velocity_input(Vec2 { x: 0, y: -3_000 }, 10_000);
    s.winch_control_loop(
        &config,
        0,
        WinchStatus { mech: MechStatus::Normal, motion_counts: 2_000 },
    );
    s.winch_control_loop(
        &config,
        1,
        WinchStatus { mech: MechStatus::Stuck, motion_counts: 0 },
    );
    let env = s.light_environment(&config);
    assert_eq!(env.winches.len(), 2);
    assert_eq!(
        env.winches[0],
        WinchLightState { command_intensity: 3_000, motion_intensity: 2_000, fault: false },
    );
    assert_eq!(
        env.winches[1],
        WinchLightState { command_intensity: 0, motion_intensity: 0, fault: true },
    );
    assert_eq!(env.winch_wavelength, 1_500);
    assert_eq!(env.winch_wave_window_length, 2_500);
    assert_eq!(env.winch_wave_exponent, 2_000);
    assert_eq!(env.winch_command_color, Color { red: 1_000, green: 0, blue: 0 });
    assert_eq!(env.winch_motion_color, Color { red: 0, green: 1_000, blue: 0 });
    assert_eq!(env.flash_exponent, 3_000);
    assert_eq!(env.flash_rate_hz, 2_000);
    assert_eq!(env.brightness, 1_000);
}

#[test]
fn lighting_lags_velocity_by_one_tick() {
    // every_tick's snapshot reflects the winch state before this
    // tick's velocity decisions are applied.
    let config = base_config(ControllerMode::ManualWinch(0), 1);
    let mut s = ControllerState::new(&config);
    s.manual.velocity_input(Vec2 { x: 0, y: 4_000 }, 10_000);
    let env = s.every_tick(&config);
    assert_eq!(env.winches[0].command_intensity, 0);
    s.winch_control_loop(&config, 0, normal_status());
    let env = s.every_tick(&config);
    assert_eq!(env.winches[0].command_intensity, 4_000);
}

#[test]
fn flyer_sensors_retained() {
    let config = base_config(ControllerMode::Normal, 1);
    let mut s = ControllerState::new(&config);
    assert!(s.flyer_sensors.is_none());
    let sensors = FlyerSensors { lidar_range: 12_000, battery_millivolts: 11_100 };
    s.flyer_sensor_update(sensors);
    assert_eq!(s.flyer_sensors, Some(sensors));
}
