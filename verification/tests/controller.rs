use gaze_fusion::inputs::Input;
use gaze_fusion::pipeline::{
    decide_gaze, denormalize, elapsed_between, euclidean_distance, head_delta, is_handled, rotate,
    settle_threshold, CursorCommand, FusionConfig, FusionState, GazeVerdict, Outcome, Point,
    DEFAULT_DISTANCE, MOUNT_COS, MOUNT_SIN,
};

const MILLI: u64 = 1_000_000;
const HALF: i32 = 32768;
const FULL: i32 = 65536;

fn desk() -> FusionConfig {
    FusionConfig::new(2560, 1440, 0, 0)
}

fn at(anchor: Point, last_head_move: u64) -> FusionState {
    let mut state = FusionState::new(last_head_move);
    state.anchor = anchor;
    state
}

fn gaze(x: i32, y: i32) -> Input {
    Input::TobiiGaze { x: Some(x), y: Some(y) }
}

#[test]
fn new_state_has_no_anchor_and_half_a_meter() {
    let state = FusionState::new(17);
    assert_eq!(state.anchor, Point { x: 0, y: 0 });
    assert_eq!(state.distance_to_screen, DEFAULT_DISTANCE);
    assert_eq!(state.distance_to_screen as f32 / 65536.0, 0.5);
    assert_eq!(state.last_head_move, 17);
}

#[test]
fn config_holds_the_mounting_angle_of_13_degrees() {
    let config = FusionConfig::new(1920, 1080, 320, 1440);
    assert_eq!(config.display_width, 1920);
    assert_eq!(config.display_height, 1080);
    assert_eq!(config.offset_x, 320);
    assert_eq!(config.offset_y, 1440);
    assert_eq!(config.mount_cos, MOUNT_COS);
    assert_eq!(config.mount_sin, MOUNT_SIN);
    let unit = (1u64 << 30) as f64;
    assert!((MOUNT_COS as f64 / unit - 13f64.to_radians().cos()).abs() < 1e-9);
    assert!((MOUNT_SIN as f64 / unit - 13f64.to_radians().sin()).abs() < 1e-9);
}

#[test]
fn rotation_is_the_standard_one() {
    assert_eq!(rotate(3, 4, 5, 7), (3 * 5 - 4 * 7, 3 * 7 + 4 * 5));
    assert_eq!(
        rotate(FULL, 0, MOUNT_COS, MOUNT_SIN),
        (68_565_197_848_576, 15_829_523_169_280)
    );
    let far = rotate(i32::MIN, i32::MIN, i32::MIN, i32::MAX);
    let m = i32::MIN as i128;
    let p = i32::MAX as i128;
    assert_eq!(far, (m * m - m * p, m * p + m * m));
}

#[test]
fn head_delta_scales_by_distance_and_gain() {
    let config = desk();
    assert_eq!(head_delta(&config, HALF as u32, 1000 * FULL, 0), Point { x: 828, y: 112 });
    assert_eq!(head_delta(&config, HALF as u32, -1000 * FULL, 500 * FULL), Point { x: -923, y: 131 });
    assert_eq!(head_delta(&config, HALF as u32, 0, 0), Point { x: 0, y: 0 });
    assert_eq!(head_delta(&config, 0, 1000 * FULL, 1000 * FULL), Point { x: 0, y: 0 });
    assert_eq!(
        head_delta(&config, u32::MAX, i32::MAX, i32::MIN),
        Point { x: i32::MAX, y: -1_609_365_071 }
    );
}

#[test]
fn slow_head_movement_moves_the_cursor_without_boost() {
    let config = desk();
    let mut state = at(Point { x: 100, y: 200 }, 0);
    let outcome = state.handle(&config, Input::Gyro { x: 1000 * FULL, y: 0 }, 100 * MILLI);
    assert_eq!(outcome, Outcome::Move(CursorCommand::MoveBy { dx: 828, dy: 112 }));
    assert_eq!(state.anchor, Point { x: 928, y: 312 });
    assert_eq!(state.last_head_move, 100 * MILLI);
    assert_eq!(state.raw_head_angular_velocity, (1000 * FULL, 0));
}

#[test]
fn burst_of_head_movement_is_boosted() {
    let config = desk();
    let mut state = at(Point { x: 100, y: 200 }, 0);
    let outcome = state.handle(&config, Input::Gyro { x: 1000 * FULL, y: 0 }, 100 * MILLI - 1);
    assert_eq!(outcome, Outcome::Move(CursorCommand::MoveBy { dx: 1242, dy: 168 }));
    assert_eq!(state.anchor, Point { x: 1342, y: 368 });
    assert_eq!(state.last_head_move, 100 * MILLI - 1);
}

#[test]
fn boost_rounds_toward_zero() {
    let config = desk();
    let mut state = at(Point { x: 0, y: 0 }, 0);
    // a rate of -1000, 500 gives the displacement -923, 131
    let outcome = state.on_head_rate(&config, -1000 * FULL, 500 * FULL, 5);
    assert_eq!(outcome, Some(CursorCommand::MoveBy { dx: -1384, dy: 196 }));
    assert_eq!(state.anchor, Point { x: -1384, y: 196 });
}

#[test]
fn small_head_movement_does_not_count_as_a_move() {
    let config = desk();
    let mut state = at(Point { x: 10, y: 10 }, 7);
    // 3 degrees per second give 2 pixels: moved, but not noticed
    let outcome = state.handle(&config, Input::Gyro { x: 3 * FULL, y: 0 }, 50 * MILLI);
    assert_eq!(outcome, Outcome::Move(CursorCommand::MoveBy { dx: 2, dy: 0 }));
    assert_eq!(state.anchor, Point { x: 12, y: 10 });
    assert_eq!(state.last_head_move, 7);
    // 5 degrees per second give 4 pixels: noticed, but no burst
    let outcome = state.handle(&config, Input::Gyro { x: 5 * FULL, y: 0 }, 50 * MILLI);
    assert_eq!(outcome, Outcome::Move(CursorCommand::MoveBy { dx: 4, dy: 0 }));
    assert_eq!(state.last_head_move, 50 * MILLI);
}

#[test]
fn resting_head_has_no_effect() {
    let config = desk();
    let mut state = at(Point { x: 10, y: 10 }, 7);
    let outcome = state.handle(&config, Input::Gyro { x: FULL, y: 0 }, 50 * MILLI);
    assert_eq!(outcome, Outcome::Idle);
    assert_eq!(state.anchor, Point { x: 10, y: 10 });
    assert_eq!(state.last_head_move, 7);
}

#[test]
fn anchor_stops_at_the_bounds() {
    let config = desk();
    let mut state = at(Point { x: i32::MAX - 1, y: i32::MIN + 1 }, 0);
    state.distance_to_screen = u32::MAX;
    let outcome = state.on_head_rate(&config, i32::MAX, i32::MIN, 1);
    assert_eq!(outcome, Some(CursorCommand::MoveBy { dx: i32::MAX, dy: i32::MIN }));
    assert_eq!(state.anchor, Point { x: i32::MAX, y: i32::MIN });
}

#[test]
fn denormalize_maps_to_pixels() {
    let config = desk();
    assert_eq!(denormalize(&config, Some(HALF), Some(HALF)), Point { x: 1280, y: 720 });
    assert_eq!(denormalize(&config, Some(FULL / 4), Some(FULL)), Point { x: 640, y: 1440 });
    assert_eq!(denormalize(&config, Some(-1), Some(-FULL)), Point { x: 0, y: -1440 });
    assert_eq!(denormalize(&config, Some(0), Some(0)), Point { x: 0, y: 0 });
}

#[test]
fn denormalize_replaces_what_is_not_a_number() {
    let config = desk();
    let origin = Point { x: 0, y: 0 };
    assert_eq!(denormalize(&config, None, Some(HALF)), origin);
    assert_eq!(denormalize(&config, Some(HALF), None), origin);
    assert_eq!(denormalize(&config, None, None), origin);
    let from_tracker = |v: f32| if v.is_nan() { None } else { Some((v * 65536.0) as i32) };
    assert_eq!(denormalize(&config, from_tracker(f32::NAN), from_tracker(0.5)), origin);
    assert_eq!(
        denormalize(&config, from_tracker(0.25), from_tracker(0.5)),
        Point { x: 640, y: 720 }
    );
}

#[test]
fn euclidean_distance_is_rounded_down() {
    assert_eq!(euclidean_distance(0, 0, 3, 4), 5);
    assert_eq!(euclidean_distance(3, 4, 0, 0), 5);
    assert_eq!(euclidean_distance(-1, -1, 1, 1), 2);
    assert_eq!(euclidean_distance(7, 7, 7, 7), 0);
    assert_eq!(euclidean_distance(0, 0, 1, 1), 1);
    assert_eq!(euclidean_distance(1280, 720, 1000, 700), 280);
    assert_eq!(euclidean_distance(0, 0, i32::MAX, 0), i32::MAX);
    assert_eq!(euclidean_distance(i32::MIN, i32::MIN, i32::MAX, i32::MAX), i32::MAX);
}

#[test]
fn settle_threshold_shrinks_with_distance_and_eccentricity() {
    let config = desk();
    assert_eq!(settle_threshold(&config, Point { x: 1280, y: 720 }, 100), 1200);
    assert_eq!(settle_threshold(&config, Point { x: 1300, y: 730 }, 31), 1196);
    assert_eq!(settle_threshold(&config, Point { x: 100, y: 100 }, 10), 1125);
    assert_eq!(settle_threshold(&config, Point { x: 100, y: 100 }, 31), 970);
    assert_eq!(settle_threshold(&config, Point { x: 2000, y: 1000 }, 6), 1174);
    assert_eq!(settle_threshold(&config, Point { x: 2560, y: 1440 }, 30), 954);
    assert_eq!(settle_threshold(&config, Point { x: 1000, y: 700 }, 280), 762);
    assert_eq!(settle_threshold(&config, Point { x: 0, y: 0 }, 100), 600);
    assert_eq!(settle_threshold(&config, Point { x: i32::MIN, y: i32::MAX }, u32::MAX), 600);
    assert_eq!(settle_threshold(&config, Point { x: 0, y: 0 }, 0), 1200);
}

#[test]
fn settle_threshold_matches_the_formula_in_reals() {
    let config = desk();
    let diagonal = ((2560.0f64).powi(2) + (1440.0f64).powi(2)).sqrt();
    for &(ax, ay, d) in &[(100, 100, 10u32), (2000, 1000, 25), (1000, 700, 280), (1300, 730, 31)] {
        let to_center = ((ax as f64 - 1280.0).powi(2) + (ay as f64 - 720.0).powi(2)).sqrt();
        let near = (d as f64 / diagonal).min(1.0);
        let far = (to_center / (diagonal / 2.0)).min(1.0);
        let expected = (1200.0 - (near * far * 24000.0).min(600.0)) as u64;
        assert_eq!(settle_threshold(&config, Point { x: ax, y: ay }, d), expected);
    }
}

#[test]
fn ladder_takes_the_first_rule_that_applies() {
    assert_eq!(decide_gaze(4, 10_000 * MILLI, 600, true), GazeVerdict::Debounced);
    assert_eq!(decide_gaze(5, 599 * MILLI, 600, true), GazeVerdict::Settling);
    assert_eq!(decide_gaze(500, 600 * MILLI - 1, 600, false), GazeVerdict::Settling);
    assert_eq!(decide_gaze(31, 600 * MILLI, 600, false), GazeVerdict::Jump);
    assert_eq!(decide_gaze(5, 600 * MILLI, 600, true), GazeVerdict::Jump);
    assert_eq!(decide_gaze(30, 1000 * MILLI, 600, false), GazeVerdict::Hold);
    assert_eq!(decide_gaze(30, 1000 * MILLI + 1, 600, false), GazeVerdict::Jump);
    assert_eq!(decide_gaze(21, 1000 * MILLI + 1, 600, false), GazeVerdict::Jump);
    assert_eq!(decide_gaze(20, 1000 * MILLI + 1, 600, false), GazeVerdict::Halfway);
    assert_eq!(decide_gaze(5, u64::MAX, 1200, false), GazeVerdict::Halfway);
    assert_eq!(decide_gaze(0, 0, 0, false), GazeVerdict::Debounced);
}

#[test]
fn gaze_near_the_anchor_is_debounced() {
    let config = desk();
    let before = at(Point { x: 1278, y: 718 }, 0);
    for now in [0, 600 * MILLI, 1200 * MILLI, 5000 * MILLI, u64::MAX] {
        let mut state = before;
        let outcome = state.handle(&config, gaze(HALF, HALF), now);
        assert_eq!(outcome, Outcome::Idle);
        assert_eq!(state.anchor, before.anchor);
        assert_eq!(state.last_head_move, before.last_head_move);
        assert_eq!(state.raw_gaze, (Some(HALF), Some(HALF)));
    }
}

#[test]
fn gaze_far_from_the_anchor_makes_the_cursor_jump() {
    let config = desk();
    // 280 pixels from the anchor: the settle threshold is 762 ms
    let mut state = at(Point { x: 1000, y: 700 }, 1000);
    let outcome = state.handle(&config, gaze(HALF, HALF), 1000 + 762 * MILLI);
    assert_eq!(outcome, Outcome::Move(CursorCommand::MoveTo { x: 1280, y: 720 }));
    assert_eq!(state.anchor, Point { x: 1280, y: 720 });
    assert_eq!(state.last_head_move, 1000);
}

#[test]
fn gaze_is_suppressed_until_the_head_has_settled() {
    let config = desk();
    let mut state = at(Point { x: 1000, y: 700 }, 1000);
    let outcome = state.handle(&config, gaze(HALF, HALF), 1000 + 762 * MILLI - 1);
    assert_eq!(outcome, Outcome::Idle);
    assert_eq!(state.anchor, Point { x: 1000, y: 700 });
    let mut state = at(Point { x: 1000, y: 700 }, 1000);
    assert_eq!(state.handle(&config, gaze(HALF, HALF), 0), Outcome::Idle);
}

#[test]
fn jump_goes_to_the_offset_adjusted_point() {
    let config = FusionConfig::new(1920, 1080, 320, 1440);
    let mut state = at(Point { x: 400, y: 1500 }, 0);
    let outcome = state.handle(&config, gaze(HALF, HALF), 5000 * MILLI);
    assert_eq!(outcome, Outcome::Move(CursorCommand::MoveTo { x: 1280, y: 1980 }));
    assert_eq!(state.anchor, Point { x: 1280, y: 1980 });
}

#[test]
fn unset_anchor_jumps_on_a_small_distance() {
    let config = desk();
    // 10 pixels from the origin, settle threshold 1118 ms
    let mut state = FusionState::new(0);
    assert_eq!(state.handle(&config, gaze(256, 0), 1118 * MILLI - 1), Outcome::Idle);
    assert_eq!(state.anchor, Point { x: 0, y: 0 });
    let outcome = state.handle(&config, gaze(256, 0), 1118 * MILLI);
    assert_eq!(outcome, Outcome::Move(CursorCommand::MoveTo { x: 10, y: 0 }));
    assert_eq!(state.anchor, Point { x: 10, y: 0 });
}

#[test]
fn stale_gaze_beyond_20_pixels_jumps() {
    let config = desk();
    let mut state = at(Point { x: 1255, y: 720 }, 0);
    let outcome = state.handle(&config, gaze(HALF, HALF), 1196 * MILLI);
    assert_eq!(outcome, Outcome::Move(CursorCommand::MoveTo { x: 1280, y: 720 }));
    assert_eq!(state.anchor, Point { x: 1280, y: 720 });
}

#[test]
fn stale_gaze_within_20_pixels_moves_halfway_and_keeps_the_anchor() {
    let config = desk();
    let mut state = at(Point { x: 1260, y: 720 }, 0);
    let outcome = state.handle(&config, gaze(HALF, HALF), 1197 * MILLI);
    assert_eq!(outcome, Outcome::Move(CursorCommand::MoveTo { x: 1270, y: 720 }));
    assert_eq!(state.anchor, Point { x: 1260, y: 720 });
    let mut state = at(Point { x: 1270, y: 715 }, 0);
    let outcome = state.on_gaze_point(&config, Some(HALF), Some(HALF), 1199 * MILLI);
    assert_eq!(outcome, Some(CursorCommand::MoveTo { x: 1275, y: 717 }));
    assert_eq!(state.anchor, Point { x: 1270, y: 715 });
}

#[test]
fn gaze_inside_the_window_is_held() {
    let config = desk();
    // 30 pixels from an anchor in the corner: the settle threshold is 954 ms
    let mut state = at(Point { x: 2560, y: 1440 }, 0);
    let outcome = state.handle(&config, gaze(64768, FULL), 980 * MILLI);
    assert_eq!(outcome, Outcome::Idle);
    assert_eq!(state.anchor, Point { x: 2560, y: 1440 });
    assert_eq!(state.handle(&config, gaze(64768, FULL), 953 * MILLI), Outcome::Idle);
    let outcome = state.handle(&config, gaze(64768, FULL), 1000 * MILLI + 1);
    assert_eq!(outcome, Outcome::Move(CursorCommand::MoveTo { x: 2530, y: 1440 }));
}

#[test]
fn gaze_that_is_not_a_number_points_at_the_origin() {
    let config = desk();
    let mut state = at(Point { x: 500, y: 500 }, 0);
    let outcome = state.handle(&config, Input::TobiiGaze { x: None, y: Some(HALF) }, 5000 * MILLI);
    assert_eq!(outcome, Outcome::Move(CursorCommand::MoveTo { x: 0, y: 0 }));
    assert_eq!(state.anchor, Point { x: 0, y: 0 });
    assert_eq!(state.raw_gaze, (None, Some(HALF)));
}

#[test]
fn gaze_origin_sets_the_distance_to_the_screen() {
    let config = desk();
    let mut state = at(Point { x: 5, y: 6 }, 9);
    let event = Input::TobiiGazeOrigin {
        rx: 0,
        ry: 0,
        rz: 700 * FULL,
        lx: 0,
        ly: 0,
        lz: 600 * FULL,
    };
    assert_eq!(state.handle(&config, event, 100), Outcome::Idle);
    assert_eq!(state.distance_to_screen, 42598);
    assert!((state.distance_to_screen as f32 / 65536.0 - 0.65).abs() < 1e-4);
    assert_eq!(state.anchor, Point { x: 5, y: 6 });
    assert_eq!(state.last_head_move, 9);
}

#[test]
fn repeated_gaze_origin_leaves_the_distance_stable() {
    let config = desk();
    let mut state = FusionState::new(0);
    let event = Input::TobiiGazeOrigin {
        rx: 30 * FULL,
        ry: 40 * FULL,
        rz: 600 * FULL,
        lx: -30 * FULL,
        ly: 40 * FULL,
        lz: 600 * FULL,
    };
    state.handle(&config, event, 1);
    let first = state;
    assert_eq!(first.distance_to_screen, 39457);
    for now in 2..50u64 {
        state.handle(&config, event, now);
        assert_eq!(state, first);
    }
}

#[test]
fn gaze_origin_takes_extreme_positions() {
    let mut state = FusionState::new(0);
    state.on_gaze_origin(i32::MIN, i32::MIN, i32::MIN, i32::MIN, i32::MIN, i32::MIN);
    assert_eq!(state.distance_to_screen, 3_719_550);
    state.on_gaze_origin(0, 0, 0, 0, 0, 0);
    assert_eq!(state.distance_to_screen, 0);
}

#[test]
fn distance_changes_the_head_gain() {
    let config = desk();
    let mut state = FusionState::new(0);
    state.on_gaze_origin(0, 0, 1000 * FULL, 0, 0, 1000 * FULL);
    assert_eq!(state.distance_to_screen, 65536);
    let outcome = state.handle(&config, Input::Gyro { x: 1000 * FULL, y: 0 }, 200 * MILLI);
    assert_eq!(outcome, Outcome::Move(CursorCommand::MoveBy { dx: 1656, dy: 224 }));
}

#[test]
fn shutdown_stops_the_loop() {
    let config = desk();
    let before = at(Point { x: 3, y: 4 }, 5);
    let mut state = before;
    assert_eq!(state.handle(&config, Input::Shutdown, 10), Outcome::Stop);
    assert_eq!(state, before);
}

#[test]
fn head_pose_passes_through() {
    let config = desk();
    let before = at(Point { x: 3, y: 4 }, 5);
    let mut state = before;
    let event = Input::TobiiHead { px: 1, py: 2, pz: 3, rx: 4, ry: 5, rz: 6 };
    assert!(is_handled(&event));
    assert_eq!(state.handle(&config, event, 10), Outcome::Idle);
    assert_eq!(state, before);
}

#[test]
fn head_angle_is_not_handled() {
    assert!(!is_handled(&Input::HeadAngle { yaw: 0, pitch: 0, roll: 0 }));
    assert!(is_handled(&Input::Shutdown));
    assert!(is_handled(&Input::Gyro { x: 0, y: 0 }));
    assert!(is_handled(&gaze(0, 0)));
}

#[test]
fn elapsed_time_never_goes_negative() {
    assert_eq!(elapsed_between(10, 25), 15);
    assert_eq!(elapsed_between(25, 10), 0);
    assert_eq!(elapsed_between(0, u64::MAX), u64::MAX);
}
