//! The controller: it takes one event at a time, keeps the fusion state, and says
//! which cursor movement, if any, the event calls for.
//!
//! Units: pixels for screen positions, nanoseconds for time, 16.16 fixed point for
//! angular rates (degrees per second), for normalized gaze coordinates, for eye
//! positions (millimeters) and for the distance to the screen (meters).

use vstd::prelude::*;
use crate::fixed::{clamp_i32, div_toward_zero, floor_sqrt, isqrt, saturate, trunc_div, ONE};
use crate::inputs::Input;

verus! {

/// Cosine of the angle of 13 degrees by which the inertial sensor is mounted askew,
/// in units of 2^-30.
pub const MOUNT_COS: i32 = 1046221891;

/// Sine of the mounting angle of 13 degrees, in units of 2^-30.
pub const MOUNT_SIN: i32 = 241539355;

/// Distance between the eyes and the screen that is assumed until the eye tracker
/// reports one: half a meter.
pub const DEFAULT_DISTANCE: u32 = 32768;

/// Gaze samples nearer than this many pixels to the anchor move nothing.
pub const DEBOUNCE_PIXELS: i32 = 5;

/// Gaze samples farther than this many pixels from the anchor make the cursor jump.
pub const JUMP_PIXELS: i32 = 30;

/// Once the head has rested, gaze samples farther than this many pixels from the
/// anchor make the cursor jump.
pub const STALE_JUMP_PIXELS: i32 = 20;

/// How long the head must have rested before a small gaze correction is followed: one second.
pub const REST_NANOS: u64 = 1_000_000_000;

/// Two head movements closer together than this form a burst: a tenth of a second.
pub const BURST_NANOS: u64 = 100_000_000;

/// A position on the screen or a displacement, in pixels.
#[derive(Clone, Copy, Debug, PartialEq, Eq)]
pub struct Point {
    pub x: i32,
    pub y: i32,
}

/// What the controller is told once, when it starts.
#[derive(Clone, Copy, Debug, PartialEq, Eq)]
pub struct FusionConfig {
    /// Width of the display in pixels.
    pub display_width: u16,
    /// Height of the display in pixels.
    pub display_height: u16,
    /// Where the display's left edge lies among all displays, in pixels.
    pub offset_x: i32,
    /// Where the display's top edge lies among all displays, in pixels.
    pub offset_y: i32,
    /// Cosine of the sensor's mounting angle, in units of 2^-30.
    pub mount_cos: i32,
    /// Sine of the sensor's mounting angle, in units of 2^-30.
    pub mount_sin: i32,
}

impl FusionConfig {
    /// The configuration for one display, with the sensor mounted at 13 degrees.
    pub fn new(display_width: u16, display_height: u16, offset_x: i32, offset_y: i32) -> (config:
        FusionConfig)
        ensures
            config == (FusionConfig {
                display_width,
                display_height,
                offset_x,
                offset_y,
                mount_cos: MOUNT_COS,
                mount_sin: MOUNT_SIN,
            }),
    {
        FusionConfig {
            display_width,
            display_height,
            offset_x,
            offset_y,
            mount_cos: MOUNT_COS,
            mount_sin: MOUNT_SIN,
        }
    }
}

/// The vector `(x, y)` turned by the angle whose cosine and sine are `cos` and `sin`:
/// both coordinates of the result, in the units of `x` and `y` times those of `cos`.
pub open spec fn rotated(x: int, y: int, cos: int, sin: int) -> (int, int) {
    (x * cos - y * sin, x * sin + y * cos)
}

/// Standard rotation of a vector in the plane. No rounding takes place: the result
/// counts units of the product of the two units.
pub fn rotate(x: i32, y: i32, cos: i32, sin: i32) -> (r: (i128, i128))
    ensures
        (r.0 as int, r.1 as int) == rotated(x as int, y as int, cos as int, sin as int),
{
    let xw: i128 = x as i128;
    let yw: i128 = y as i128;
    let cw: i128 = cos as i128;
    let sw: i128 = sin as i128;
    proof {
        lemma_product_bound(xw as int, cw as int);
        lemma_product_bound(yw as int, sw as int);
        lemma_product_bound(xw as int, sw as int);
        lemma_product_bound(yw as int, cw as int);
    }
    (xw * cw - yw * sw, xw * sw + yw * cw)
}

/// The product of two numbers of at most 2^31 in magnitude is at most 2^62 in magnitude.
proof fn lemma_product_bound(a: int, b: int)
    requires
        -0x8000_0000 <= a <= 0x8000_0000,
        -0x8000_0000 <= b <= 0x8000_0000,
    ensures
        -0x4000_0000_0000_0000 <= a * b <= 0x4000_0000_0000_0000,
{
    assert(-0x4000_0000_0000_0000 <= a * b <= 0x4000_0000_0000_0000) by (nonlinear_arith)
        requires
            -0x8000_0000 <= a <= 0x8000_0000,
            -0x8000_0000 <= b <= 0x8000_0000,
    ;
}

/// The distance between two points, rounded down to whole pixels; `i32::MAX` where
/// that is too large for an `i32`.
pub open spec fn pixel_distance(x1: int, y1: int, x2: int, y2: int) -> int {
    clamp_i32(floor_sqrt(((x1 - x2) * (x1 - x2) + (y1 - y2) * (y1 - y2)) as nat) as int)
}

/// Distance between the points `(x1, y1)` and `(x2, y2)` in whole pixels.
pub fn euclidean_distance(x1: i32, y1: i32, x2: i32, y2: i32) -> (d: i32)
    ensures
        d == pixel_distance(x1 as int, y1 as int, x2 as int, y2 as int),
        d >= 0,
{
    let dx: i128 = x1 as i128 - x2 as i128;
    let dy: i128 = y1 as i128 - y2 as i128;
    proof {
        lemma_square_bound(dx as int);
        lemma_square_bound(dy as int);
    }
    let sum: i128 = dx * dx + dy * dy;
    let root: u64 = isqrt(sum as u128);
    saturate(root as i128)
}

/// The square of a difference of two `i32` numbers lies between 0 and 2^64.
proof fn lemma_square_bound(a: int)
    requires
        -0x1_0000_0000 <= a <= 0x1_0000_0000,
    ensures
        0 <= a * a <= 0x1_0000_0000_0000_0000,
{
    assert(0 <= a * a <= 0x1_0000_0000_0000_0000) by (nonlinear_arith)
        requires
            -0x1_0000_0000 <= a <= 0x1_0000_0000,
    ;
}

/// A movement of the cursor that the controller asks for.
#[derive(Clone, Copy, Debug, PartialEq, Eq)]
pub enum CursorCommand {
    /// Put the cursor at this position of the screen.
    MoveTo { x: i32, y: i32 },
    /// Move the cursor by this much from where it is.
    MoveBy { dx: i32, dy: i32 },
}

/// What the controller remembers from one event to the next.
#[derive(Clone, Copy, Debug, PartialEq, Eq)]
pub struct FusionState {
    /// The angular rate of the head as the last head event gave it.
    pub raw_head_angular_velocity: (i32, i32),
    /// The normalized gaze point as the last gaze event gave it.
    pub raw_gaze: (Option<i32>, Option<i32>),
    /// Distance between the eyes and the screen, in meters (16.16 fixed point).
    pub distance_to_screen: u32,
    /// Where the cursor was last put, in pixels. The origin stands for "nowhere yet".
    pub anchor: Point,
    /// When the head last moved noticeably, in nanoseconds.
    pub last_head_move: u64,
}

/// The absolute value.
pub open spec fn magnitude(v: int) -> int {
    if v < 0 {
        -v
    } else {
        v
    }
}

/// Time from `last` to `now`; zero where `now` is the earlier one.
pub open spec fn elapsed_nanos(last: u64, now: u64) -> int {
    if now >= last {
        now - last
    } else {
        0
    }
}

/// The cursor displacement that a head rate of `(x, y)` degrees per second calls for
/// at `distance` meters from the screen: the rate is turned by the mounting angle,
/// multiplied by the distance, and by 1.7 horizontally; what is left of a pixel is
/// dropped. With the rate and the distance in 16.16 fixed point and the cosine and
/// sine in units of 2^-30, the product counts units of 2^-62: the divisors are 2^62,
/// and ten times that where the numerator holds 17 for 1.7.
pub open spec fn head_displacement(config: FusionConfig, distance: u32, x: i32, y: i32) -> Point {
    let r = rotated(x as int, y as int, config.mount_cos as int, config.mount_sin as int);
    Point {
        x: clamp_i32(trunc_div(r.0 * distance * 17, 46116860184273879040)) as i32,
        y: clamp_i32(trunc_div(r.1 * distance, 4611686018427387904)) as i32,
    }
}

/// Whether a displacement belongs to a burst of head movements: it follows the
/// last noticeable one within a tenth of a second and spans more than 5 pixels.
pub open spec fn is_burst(elapsed: int, delta: Point) -> bool {
    elapsed < BURST_NANOS && magnitude(delta.x as int) + magnitude(delta.y as int) > 5
}

/// Whether a displacement is a noticeable head movement: part of a burst, or
/// spanning more than 2 pixels.
pub open spec fn is_noticeable(elapsed: int, delta: Point) -> bool {
    is_burst(elapsed, delta) || magnitude(delta.x as int) + magnitude(delta.y as int) > 2
}

/// A displacement made one and a half times as long, rounded toward zero.
pub open spec fn boosted(delta: Point) -> Point {
    Point {
        x: clamp_i32(trunc_div(delta.x * 3, 2)) as i32,
        y: clamp_i32(trunc_div(delta.y * 3, 2)) as i32,
    }
}

/// The displacement by which a head event moves the cursor.
pub open spec fn head_move(state: FusionState, config: FusionConfig, x: i32, y: i32, now: u64)
    -> Point {
    let delta = head_displacement(config, state.distance_to_screen, x, y);
    if is_burst(elapsed_nanos(state.last_head_move, now), delta) {
        boosted(delta)
    } else {
        delta
    }
}

/// A point moved by a displacement, each coordinate stopping at the bounds of `i32`.
pub open spec fn shifted(p: Point, dx: int, dy: int) -> Point {
    Point { x: clamp_i32(p.x + dx) as i32, y: clamp_i32(p.y + dy) as i32 }
}

/// The state after a head event.
pub open spec fn after_head(state: FusionState, config: FusionConfig, x: i32, y: i32, now: u64)
    -> FusionState {
    let delta = head_displacement(config, state.distance_to_screen, x, y);
    let by = head_move(state, config, x, y, now);
    FusionState {
        raw_head_angular_velocity: (x, y),
        last_head_move: if is_noticeable(elapsed_nanos(state.last_head_move, now), delta) {
            now
        } else {
            state.last_head_move
        },
        anchor: shifted(state.anchor, by.x as int, by.y as int),
        ..state
    }
}

/// The command that a head event gives rise to: a relative move by `head_move`,
/// unless that is zero.
pub open spec fn head_command(
    state: FusionState,
    config: FusionConfig,
    x: i32,
    y: i32,
    now: u64,
) -> Option<CursorCommand> {
    let by = head_move(state, config, x, y, now);
    if by.x != 0 || by.y != 0 {
        Some(CursorCommand::MoveBy { dx: by.x, dy: by.y })
    } else {
        None
    }
}

/// The displacement of the cursor for a head rate of `(x, y)`, seen from `distance`.
pub fn head_delta(config: &FusionConfig, distance: u32, x: i32, y: i32) -> (delta: Point)
    ensures
        delta == head_displacement(*config, distance, x, y),
{
    let (rx, ry) = rotate(x, y, config.mount_cos, config.mount_sin);
    let dist: i128 = distance as i128;
    proof {
        lemma_product_bound(x as int, config.mount_cos as int);
        lemma_product_bound(y as int, config.mount_sin as int);
        lemma_product_bound(x as int, config.mount_sin as int);
        lemma_product_bound(y as int, config.mount_cos as int);
        lemma_scaled_bound(rx as int, dist as int);
        lemma_scaled_bound(ry as int, dist as int);
    }
    let sx: i128 = rx * dist * 17;
    let sy: i128 = ry * dist;
    Point {
        x: saturate(div_toward_zero(sx, 46116860184273879040)),
        y: saturate(div_toward_zero(sy, 4611686018427387904)),
    }
}

/// A rotated rate times a distance stays far inside the range of `i128`.
proof fn lemma_scaled_bound(r: int, dist: int)
    requires
        -0x8000_0000_0000_0000 <= r <= 0x8000_0000_0000_0000,
        0 <= dist <= 0xffff_ffff,
    ensures
        -0x8000_0000_0000_0000_0000_0000 <= r * dist <= 0x8000_0000_0000_0000_0000_0000,
{
    assert(-0x8000_0000_0000_0000_0000_0000 <= r * dist <= 0x8000_0000_0000_0000_0000_0000)
        by (nonlinear_arith)
        requires
            -0x8000_0000_0000_0000 <= r <= 0x8000_0000_0000_0000,
            0 <= dist <= 0xffff_ffff,
    ;
}

/// The time from `last` to `now`, zero where the clock seems to have gone back.
pub fn elapsed_between(last: u64, now: u64) -> (elapsed: u64)
    ensures
        elapsed == elapsed_nanos(last, now),
{
    if now >= last {
        now - last
    } else {
        0
    }
}

/// The sum of the absolute values of the two coordinates.
fn span(delta: Point) -> (s: i64)
    ensures
        s == magnitude(delta.x as int) + magnitude(delta.y as int),
{
    let ax: i64 = if delta.x < 0 { -(delta.x as i64) } else { delta.x as i64 };
    let ay: i64 = if delta.y < 0 { -(delta.y as i64) } else { delta.y as i64 };
    ax + ay
}

/// One and a half times a displacement.
fn boost(delta: Point) -> (b: Point)
    ensures
        b == boosted(delta),
{
    Point {
        x: saturate(div_toward_zero(delta.x as i128 * 3, 2)),
        y: saturate(div_toward_zero(delta.y as i128 * 3, 2)),
    }
}

/// A point moved by a displacement.
fn shift(p: Point, dx: i32, dy: i32) -> (q: Point)
    ensures
        q == shifted(p, dx as int, dy as int),
{
    Point { x: saturate(p.x as i128 + dx as i128), y: saturate(p.y as i128 + dy as i128) }
}

/// The pixel that a normalized gaze point falls on: each coordinate times the
/// display's extent, with what is left of a pixel dropped. The origin where either
/// coordinate is not a number.
pub open spec fn denormalized(config: FusionConfig, x: Option<i32>, y: Option<i32>) -> Point {
    match (x, y) {
        (Some(x), Some(y)) => Point {
            x: trunc_div(x * config.display_width, ONE as int) as i32,
            y: trunc_div(y * config.display_height, ONE as int) as i32,
        },
        _ => Point { x: 0, y: 0 },
    }
}

/// The pixel on the display that a normalized gaze point stands for.
pub fn denormalize(config: &FusionConfig, x: Option<i32>, y: Option<i32>) -> (p: Point)
    ensures
        p == denormalized(*config, x, y),
{
    match (x, y) {
        (Some(x), Some(y)) => Point {
            x: scale(x, config.display_width),
            y: scale(y, config.display_height),
        },
        _ => Point { x: 0, y: 0 },
    }
}

/// A normalized coordinate times the extent of the display, in whole pixels.
fn scale(v: i32, extent: u16) -> (p: i32)
    ensures
        p == trunc_div(v * extent, ONE as int),
{
    let vw: i128 = v as i128;
    let ew: i128 = extent as i128;
    assert(-0x8000_0000 * 0xffff <= vw * ew <= 0x8000_0000 * 0xffff) by (nonlinear_arith)
        requires
            -0x8000_0000 <= vw <= 0x8000_0000,
            0 <= ew <= 0xffff,
    ;
    let p: i128 = div_toward_zero(vw * ew, ONE as i128);
    p as i32
}

/// The smaller of two numbers.
pub open spec fn smaller(a: nat, b: nat) -> nat {
    if a <= b {
        a
    } else {
        b
    }
}

/// The square of the display's diagonal, in pixels.
pub open spec fn diagonal_squared(config: FusionConfig) -> nat {
    (config.display_width * config.display_width + config.display_height
        * config.display_height) as nat
}

/// The square of twice the distance between a point and the center of the display.
pub open spec fn center_offset_squared(config: FusionConfig, p: Point) -> nat {
    ((2 * p.x - config.display_width) * (2 * p.x - config.display_width) + (2 * p.y
        - config.display_height) * (2 * p.y - config.display_height)) as nat
}

/// The square of `24000 * min(1, d / diagonal) * min(1, c / half_diagonal)` times the
/// fourth power of the diagonal, for a gaze sample `d` pixels from an anchor that
/// lies `c` pixels from the center of the display.
pub open spec fn settle_weight(config: FusionConfig, anchor: Point, d: nat) -> nat {
    576_000_000 * smaller(d * d, diagonal_squared(config)) * smaller(
        center_offset_squared(config, anchor),
        diagonal_squared(config),
    )
}

/// Whether `n` is at least `24000 * min(1, d / diagonal) * min(1, c / half_diagonal)`:
/// the two sides are compared by their squares, times the fourth power of the diagonal.
pub open spec fn covers(n: nat, weight: nat, diagonal2: nat) -> bool {
    n * n * diagonal2 * diagonal2 >= weight
}

/// `n` is what the settle threshold is reduced by: the smallest whole number that
/// `covers` the weight, and 600 where that would be more.
pub open spec fn is_settle_reduction(n: nat, weight: nat, diagonal2: nat) -> bool {
    &&& n <= 600
    &&& n < 600 ==> covers(n, weight, diagonal2)
    &&& n > 0 ==> !covers((n - 1) as nat, weight, diagonal2)
}

/// For how many milliseconds after a noticeable head movement a gaze sample is
/// taken for a passing correction: `1200 - min(600, 24000 * min(1, d / diagonal) *
/// min(1, c / half_diagonal))`, rounded down to a whole number. It is the shorter
/// the farther the sample lies from the anchor, and the farther the anchor lies
/// from the center of the display.
pub open spec fn settle_threshold_millis(config: FusionConfig, anchor: Point, d: nat) -> int {
    1200 - (choose|n: nat|
        is_settle_reduction(n, settle_weight(config, anchor, d), diagonal_squared(config)))
}

/// Where a gaze sample points once the display's offset is added.
pub open spec fn gaze_target(config: FusionConfig, x: Option<i32>, y: Option<i32>) -> Point {
    let p = denormalized(config, x, y);
    shifted(p, config.offset_x as int, config.offset_y as int)
}

/// The point halfway between two points, rounded toward zero.
pub open spec fn midpoint(a: Point, b: Point) -> Point {
    Point { x: trunc_div(a.x + b.x, 2) as i32, y: trunc_div(a.y + b.y, 2) as i32 }
}

/// What the controller makes of a gaze sample.
#[derive(Clone, Copy, Debug, PartialEq, Eq)]
pub enum GazeVerdict {
    /// The sample is so near the anchor that the user still looks at it.
    Debounced,
    /// The head moved too recently: the sample counts as a passing correction.
    Settling,
    /// The cursor jumps to the sample and the anchor with it.
    Jump,
    /// The cursor moves halfway from the anchor to the sample; the anchor stays.
    Halfway,
    /// The sample is near the anchor and the head has not rested long: nothing moves.
    Hold,
}

/// The decision on a gaze sample that lies `d` pixels from the anchor and comes
/// `elapsed` nanoseconds after the last noticeable head movement, where the settle
/// threshold is `threshold_millis` and `anchor_unset` says that no anchor was set yet.
/// The first rule that applies decides.
pub open spec fn gaze_verdict(d: int, elapsed: int, threshold_millis: int, anchor_unset: bool)
    -> GazeVerdict {
    if d < DEBOUNCE_PIXELS {
        GazeVerdict::Debounced
    } else if elapsed < threshold_millis * 1_000_000 {
        GazeVerdict::Settling
    } else if d > JUMP_PIXELS || anchor_unset {
        GazeVerdict::Jump
    } else if elapsed > REST_NANOS {
        if d > STALE_JUMP_PIXELS {
            GazeVerdict::Jump
        } else {
            GazeVerdict::Halfway
        }
    } else {
        GazeVerdict::Hold
    }
}

/// The distance in pixels between a gaze sample and the anchor.
pub open spec fn gaze_distance(state: FusionState, config: FusionConfig, x: Option<i32>, y: Option<i32>)
    -> int {
    let p = denormalized(config, x, y);
    pixel_distance(p.x as int, p.y as int, state.anchor.x as int, state.anchor.y as int)
}

/// Whether, at the time `now`, the settle threshold for the gaze sample `(x, y)` has
/// passed since the last noticeable head movement.
pub open spec fn has_settled(
    state: FusionState,
    config: FusionConfig,
    x: Option<i32>,
    y: Option<i32>,
    now: u64,
) -> bool {
    elapsed_nanos(state.last_head_move, now) >= 1_000_000 * settle_threshold_millis(
        config,
        state.anchor,
        gaze_distance(state, config, x, y) as nat,
    )
}

/// The decision of a controller in `state` on the gaze sample `(x, y)` at the time `now`.
pub open spec fn gaze_decision(
    state: FusionState,
    config: FusionConfig,
    x: Option<i32>,
    y: Option<i32>,
    now: u64,
) -> GazeVerdict {
    let d = gaze_distance(state, config, x, y);
    gaze_verdict(
        d,
        elapsed_nanos(state.last_head_move, now),
        settle_threshold_millis(config, state.anchor, d as nat),
        state.anchor.x == 0 && state.anchor.y == 0,
    )
}

/// The state after a gaze sample: the sample is remembered, and on a jump the
/// anchor goes where the sample points.
pub open spec fn after_gaze(
    state: FusionState,
    config: FusionConfig,
    x: Option<i32>,
    y: Option<i32>,
    now: u64,
) -> FusionState {
    FusionState {
        raw_gaze: (x, y),
        anchor: if gaze_decision(state, config, x, y, now) == GazeVerdict::Jump {
            gaze_target(config, x, y)
        } else {
            state.anchor
        },
        ..state
    }
}

/// The command that a gaze sample gives rise to: an absolute move on a jump and on
/// a move halfway, none otherwise.
pub open spec fn gaze_command(
    state: FusionState,
    config: FusionConfig,
    x: Option<i32>,
    y: Option<i32>,
    now: u64,
) -> Option<CursorCommand> {
    let target = gaze_target(config, x, y);
    match gaze_decision(state, config, x, y, now) {
        GazeVerdict::Jump => Some(CursorCommand::MoveTo { x: target.x, y: target.y }),
        GazeVerdict::Halfway => {
            let half = midpoint(target, state.anchor);
            Some(CursorCommand::MoveTo { x: half.x, y: half.y })
        },
        _ => None,
    }
}

/// A weight that `m` covers is covered by every larger number too.
proof fn lemma_covers_monotonic(m: nat, n: nat, weight: nat, diagonal2: nat)
    requires
        m <= n,
        covers(m, weight, diagonal2),
    ensures
        covers(n, weight, diagonal2),
{
    assert(m * m * diagonal2 * diagonal2 <= n * n * diagonal2 * diagonal2) by (nonlinear_arith)
        requires
            m <= n,
    ;
}

/// Only one number is the settle reduction for a weight, so whichever number
/// satisfies `is_settle_reduction` gives the threshold.
pub proof fn lemma_settle_reduction_unique(n: nat, config: FusionConfig, anchor: Point, d: nat)
    requires
        is_settle_reduction(n, settle_weight(config, anchor, d), diagonal_squared(config)),
    ensures
        settle_threshold_millis(config, anchor, d) == 1200 - n,
{
    let weight = settle_weight(config, anchor, d);
    let diagonal2 = diagonal_squared(config);
    let m = choose|m: nat| is_settle_reduction(m, weight, diagonal2);
    if m < n {
        lemma_covers_monotonic(m, (n - 1) as nat, weight, diagonal2);
    } else if n < m {
        lemma_covers_monotonic(n, (m - 1) as nat, weight, diagonal2);
    }
}

/// Some number from `k` on is the settle reduction, where none below `k` covers the weight.
proof fn lemma_settle_reduction_from(k: nat, weight: nat, diagonal2: nat) -> (n: nat)
    requires
        k <= 600,
        k > 0 ==> !covers((k - 1) as nat, weight, diagonal2),
    ensures
        is_settle_reduction(n, weight, diagonal2),
    decreases 600 - k,
{
    if k == 600 || covers(k, weight, diagonal2) {
        k
    } else {
        lemma_settle_reduction_from(k + 1, weight, diagonal2)
    }
}

/// The settle threshold is never under 600 and never over 1200 milliseconds.
pub proof fn lemma_settle_threshold_bounds(config: FusionConfig, anchor: Point, d: nat)
    ensures
        600 <= settle_threshold_millis(config, anchor, d) <= 1200,
{
    let n = lemma_settle_reduction_from(
        0,
        settle_weight(config, anchor, d),
        diagonal_squared(config),
    );
    lemma_settle_reduction_unique(n, config, anchor, d);
}

/// The settle threshold in milliseconds for a gaze sample `d` pixels from `anchor`.
pub fn settle_threshold(config: &FusionConfig, anchor: Point, d: u32) -> (millis: u64)
    ensures
        millis == settle_threshold_millis(*config, anchor, d as nat),
        600 <= millis <= 1200,
{
    let w: u128 = config.display_width as u128;
    let h: u128 = config.display_height as u128;
    assert(w * w <= 0xffff * 0xffff && h * h <= 0xffff * 0xffff) by (nonlinear_arith)
        requires
            w <= 0xffff,
            h <= 0xffff,
    ;
    let diagonal2: u128 = w * w + h * h;
    let dw: u128 = d as u128;
    assert(dw * dw <= 0xffff_ffff * 0xffff_ffff) by (nonlinear_arith)
        requires
            dw <= 0xffff_ffff,
    ;
    let near: u128 = if dw * dw <= diagonal2 { dw * dw } else { diagonal2 };
    let cx: i128 = 2 * (anchor.x as i128) - config.display_width as i128;
    let cy: i128 = 2 * (anchor.y as i128) - config.display_height as i128;
    assert(0 <= cx * cx <= 0x2_0000_0000 * 0x2_0000_0000 && 0 <= cy * cy <= 0x2_0000_0000
        * 0x2_0000_0000) by (nonlinear_arith)
        requires
            -0x2_0000_0000 <= cx <= 0x2_0000_0000,
            -0x2_0000_0000 <= cy <= 0x2_0000_0000,
    ;
    let off2: u128 = (cx * cx + cy * cy) as u128;
    let far: u128 = if off2 <= diagonal2 { off2 } else { diagonal2 };
    assert(near * far <= 0x2_0000_0000 * 0x2_0000_0000 && diagonal2 * diagonal2 <= 0x2_0000_0000
        * 0x2_0000_0000) by (nonlinear_arith)
        requires
            near <= 0x2_0000_0000,
            far <= 0x2_0000_0000,
            diagonal2 <= 0x2_0000_0000,
    ;
    let weight: u128 = 576_000_000 * (near * far);
    let diagonal4: u128 = diagonal2 * diagonal2;
    proof {
        assert(576_000_000 * near * far == 576_000_000 * (near * far)) by (nonlinear_arith);
        assert(weight == settle_weight(*config, anchor, d as nat));
    }
    let mut lo: u128 = 0;
    let mut hi: u128 = 600;
    while lo < hi
        invariant
            lo <= hi <= 600,
            diagonal4 == diagonal2 * diagonal2,
            diagonal4 <= 0x2_0000_0000 * 0x2_0000_0000,
            lo > 0 ==> !covers((lo - 1) as nat, weight as nat, diagonal2 as nat),
            hi < 600 ==> covers(hi as nat, weight as nat, diagonal2 as nat),
        decreases hi - lo,
    {
        let mid: u128 = lo + (hi - lo) / 2;
        assert(mid * mid <= 600 * 600) by (nonlinear_arith)
            requires
                mid <= 600,
        ;
        assert(mid * mid * diagonal4 <= 600 * 600 * (0x2_0000_0000 * 0x2_0000_0000))
            by (nonlinear_arith)
            requires
                mid * mid <= 600 * 600,
                diagonal4 <= 0x2_0000_0000 * 0x2_0000_0000,
        ;
        assert(mid * mid * diagonal2 * diagonal2 == mid * mid * diagonal4) by (nonlinear_arith)
            requires
                diagonal4 == diagonal2 * diagonal2,
        ;
        if mid * mid * diagonal4 >= weight {
            hi = mid;
        } else {
            lo = mid + 1;
        }
    }
    proof {
        lemma_settle_reduction_unique(lo as nat, *config, anchor, d as nat);
    }
    (1200 - lo) as u64
}

/// The decision on a gaze sample, by the first rule that applies.
pub fn decide_gaze(d: i32, elapsed: u64, threshold_millis: u64, anchor_unset: bool) -> (verdict:
    GazeVerdict)
    ensures
        verdict == gaze_verdict(d as int, elapsed as int, threshold_millis as int, anchor_unset),
{
    if d < DEBOUNCE_PIXELS {
        GazeVerdict::Debounced
    } else if (elapsed as u128) < (threshold_millis as u128) * 1_000_000 {
        GazeVerdict::Settling
    } else if d > JUMP_PIXELS || anchor_unset {
        GazeVerdict::Jump
    } else if elapsed > REST_NANOS {
        if d > STALE_JUMP_PIXELS {
            GazeVerdict::Jump
        } else {
            GazeVerdict::Halfway
        }
    } else {
        GazeVerdict::Hold
    }
}

/// The point halfway between two points.
fn halfway(a: Point, b: Point) -> (m: Point)
    ensures
        m == midpoint(a, b),
{
    let mx: i128 = div_toward_zero(a.x as i128 + b.x as i128, 2);
    let my: i128 = div_toward_zero(a.y as i128 + b.y as i128, 2);
    Point { x: mx as i32, y: my as i32 }
}

/// How far an eye at `(x, y, z)` millimeters is from the tracker, in millimeters
/// rounded down to the next 65536th.
pub open spec fn eye_distance(x: i32, y: i32, z: i32) -> nat {
    floor_sqrt((x * x + y * y + z * z) as nat)
}

/// The distance to the screen in meters that follows from where the two eyes are:
/// the mean of their distances from the tracker, a thousandth of it for meters.
pub open spec fn screen_distance(rx: i32, ry: i32, rz: i32, lx: i32, ly: i32, lz: i32) -> nat {
    (eye_distance(lx, ly, lz) + eye_distance(rx, ry, rz)) / 2000
}

/// What the controller answers to one event.
#[derive(Clone, Copy, Debug, PartialEq, Eq)]
pub enum Outcome {
    /// Nothing is to be done.
    Idle,
    /// The cursor is to be moved.
    Move(CursorCommand),
    /// The stream of events has ended: the control loop is to return.
    Stop,
}

/// The events that the controller has a rule for. An orientation of the head is not
/// among them.
pub open spec fn handles(event: Input) -> bool {
    !(event is HeadAngle)
}

/// The outcome that stands for a command or for none.
pub open spec fn outcome_of(command: Option<CursorCommand>) -> Outcome {
    match command {
        Some(c) => Outcome::Move(c),
        None => Outcome::Idle,
    }
}

/// One step of the controller: the state after `event` has arrived at the time
/// `now`, and the outcome.
pub open spec fn step(state: FusionState, config: FusionConfig, event: Input, now: u64) -> (
    FusionState,
    Outcome,
) {
    match event {
        Input::Gyro { x, y } => (
            after_head(state, config, x, y, now),
            outcome_of(head_command(state, config, x, y, now)),
        ),
        Input::TobiiGaze { x, y } => (
            after_gaze(state, config, x, y, now),
            outcome_of(gaze_command(state, config, x, y, now)),
        ),
        Input::TobiiGazeOrigin { rx, ry, rz, lx, ly, lz } => (
            FusionState {
                distance_to_screen: screen_distance(rx, ry, rz, lx, ly, lz) as u32,
                ..state
            },
            Outcome::Idle,
        ),
        Input::Shutdown => (state, Outcome::Stop),
        _ => (state, Outcome::Idle),
    }
}

/// The distance of an eye from the tracker.
fn eye_range(x: i32, y: i32, z: i32) -> (r: u64)
    ensures
        r == eye_distance(x, y, z),
        r < 0x1_0000_0000,
{
    let xw: i128 = x as i128;
    let yw: i128 = y as i128;
    let zw: i128 = z as i128;
    proof {
        lemma_product_bound(xw as int, xw as int);
        lemma_product_bound(yw as int, yw as int);
        lemma_product_bound(zw as int, zw as int);
        assert(xw * xw >= 0 && yw * yw >= 0 && zw * zw >= 0) by (nonlinear_arith);
    }
    let sum: i128 = xw * xw + yw * yw + zw * zw;
    let r: u64 = isqrt(sum as u128);
    proof {
        crate::fixed::lemma_floor_sqrt_exists(sum as nat);
        assert(r < 0x1_0000_0000) by (nonlinear_arith)
            requires
                r * r <= sum,
                sum <= 3 * 0x4000_0000_0000_0000,
        ;
    }
    r
}

/// Whether the controller has a rule for `event`.
pub fn is_handled(event: &Input) -> (handled: bool)
    ensures
        handled == handles(*event),
{
    match event {
        Input::HeadAngle { .. } => false,
        _ => true,
    }
}

impl FusionState {
    /// The state of a controller that starts at the time `now`: no anchor yet, the
    /// screen half a meter away, and the head counted as having just moved.
    pub fn new(now: u64) -> (state: FusionState)
        ensures
            state == (FusionState {
                raw_head_angular_velocity: (0i32, 0i32),
                raw_gaze: (Some(0i32), Some(0i32)),
                distance_to_screen: DEFAULT_DISTANCE,
                anchor: Point { x: 0, y: 0 },
                last_head_move: now,
            }),
    {
        FusionState {
            raw_head_angular_velocity: (0, 0),
            raw_gaze: (Some(0), Some(0)),
            distance_to_screen: DEFAULT_DISTANCE,
            anchor: Point { x: 0, y: 0 },
            last_head_move: now,
        }
    }

    /// Takes in an angular rate of the head, `(x, y)` in degrees per second, at the
    /// time `now`: the anchor follows the head, and the cursor is to move with it.
    pub fn on_head_rate(&mut self, config: &FusionConfig, x: i32, y: i32, now: u64) -> (command:
        Option<CursorCommand>)
        ensures
            *final(self) == after_head(*old(self), *config, x, y, now),
            command == head_command(*old(self), *config, x, y, now),
    {
        let elapsed = elapsed_between(self.last_head_move, now);
        let mut delta = head_delta(config, self.distance_to_screen, x, y);
        let size = span(delta);
        self.raw_head_angular_velocity = (x, y);
        if elapsed < BURST_NANOS && size > 5 {
            delta = boost(delta);
            self.last_head_move = now;
        } else if size > 2 {
            self.last_head_move = now;
        }
        self.anchor = shift(self.anchor, delta.x, delta.y);
        if delta.x != 0 || delta.y != 0 {
            Some(CursorCommand::MoveBy { dx: delta.x, dy: delta.y })
        } else {
            None
        }
    }

    /// Takes in a gaze sample, `(x, y)` in normalized screen coordinates, at the time
    /// `now`, and decides whether the cursor follows it.
    ///
    /// A sample nearer than 5 pixels to the anchor moves nothing. One farther than
    /// 30 pixels makes the cursor jump there and the anchor with it, unless the settle
    /// threshold since the last noticeable head movement has not passed.
    pub fn on_gaze_point(
        &mut self,
        config: &FusionConfig,
        x: Option<i32>,
        y: Option<i32>,
        now: u64,
    ) -> (command: Option<CursorCommand>)
        ensures
            *final(self) == after_gaze(*old(self), *config, x, y, now),
            command == gaze_command(*old(self), *config, x, y, now),
            gaze_distance(*old(self), *config, x, y) < 5 ==> {
                &&& command is None
                &&& final(self).anchor == old(self).anchor
            },
            gaze_distance(*old(self), *config, x, y) > 30 && has_settled(
                *old(self),
                *config,
                x,
                y,
                now,
            ) ==> {
                &&& final(self).anchor == gaze_target(*config, x, y)
                &&& command == Some(
                    CursorCommand::MoveTo { x: final(self).anchor.x, y: final(self).anchor.y },
                )
            },
    {
        self.raw_gaze = (x, y);
        let gaze = denormalize(config, x, y);
        let d = euclidean_distance(gaze.x, gaze.y, self.anchor.x, self.anchor.y);
        let elapsed = elapsed_between(self.last_head_move, now);
        let threshold = settle_threshold(config, self.anchor, d as u32);
        let unset = self.anchor.x == 0 && self.anchor.y == 0;
        let target = shift(gaze, config.offset_x, config.offset_y);
        match decide_gaze(d, elapsed, threshold, unset) {
            GazeVerdict::Jump => {
                self.anchor = target;
                Some(CursorCommand::MoveTo { x: target.x, y: target.y })
            },
            GazeVerdict::Halfway => {
                let half = halfway(target, self.anchor);
                Some(CursorCommand::MoveTo { x: half.x, y: half.y })
            },
            _ => None,
        }
    }

    /// Takes in the positions of the right and of the left eye, in millimeters:
    /// the distance to the screen becomes the mean of their distances, in meters.
    pub fn on_gaze_origin(&mut self, rx: i32, ry: i32, rz: i32, lx: i32, ly: i32, lz: i32)
        ensures
            *final(self) == (FusionState {
                distance_to_screen: screen_distance(rx, ry, rz, lx, ly, lz) as u32,
                ..*old(self)
            }),
            final(self).distance_to_screen == screen_distance(rx, ry, rz, lx, ly, lz),
    {
        let left = eye_range(lx, ly, lz);
        let right = eye_range(rx, ry, rz);
        self.distance_to_screen = ((left + right) / 2000) as u32;
    }

    /// Takes in one event at the time `now` and says what is to be done about it.
    /// The state is updated as the event's kind requires: see `on_head_rate`,
    /// `on_gaze_point` and `on_gaze_origin`. A head pose changes nothing, and neither
    /// does the end of the stream, which is answered by `Outcome::Stop`.
    pub fn handle(&mut self, config: &FusionConfig, event: Input, now: u64) -> (outcome: Outcome)
        requires
            handles(event),
        ensures
            (*final(self), outcome) == step(*old(self), *config, event, now),
    {
        match event {
            Input::Gyro { x, y } => {
                match self.on_head_rate(config, x, y, now) {
                    Some(c) => Outcome::Move(c),
                    None => Outcome::Idle,
                }
            },
            Input::TobiiGaze { x, y } => {
                match self.on_gaze_point(config, x, y, now) {
                    Some(c) => Outcome::Move(c),
                    None => Outcome::Idle,
                }
            },
            Input::TobiiGazeOrigin { rx, ry, rz, lx, ly, lz } => {
                self.on_gaze_origin(rx, ry, rz, lx, ly, lz);
                Outcome::Idle
            },
            Input::Shutdown => Outcome::Stop,
            _ => Outcome::Idle,
        }
    }
}

/// A gaze sample nearer than 5 pixels to the anchor moves nothing: whatever the
/// state and the time, the controller asks for no cursor movement and the anchor
/// stays where it is.
pub proof fn lemma_near_gaze_moves_nothing(
    state: FusionState,
    config: FusionConfig,
    x: Option<i32>,
    y: Option<i32>,
    now: u64,
)
    requires
        gaze_distance(state, config, x, y) < 5,
    ensures
        step(state, config, Input::TobiiGaze { x, y }, now).1 == Outcome::Idle,
        step(state, config, Input::TobiiGaze { x, y }, now).0.anchor == state.anchor,
{
}

/// A gaze sample farther than 30 pixels from the anchor makes the cursor jump to
/// where the sample points, display offset included, and the anchor with it, once the
/// settle threshold since the last noticeable head movement has passed. Before that
/// the sample counts as a passing correction and moves nothing.
pub proof fn lemma_far_gaze_jumps(
    state: FusionState,
    config: FusionConfig,
    x: Option<i32>,
    y: Option<i32>,
    now: u64,
)
    requires
        gaze_distance(state, config, x, y) > 30,
        has_settled(state, config, x, y, now),
    ensures
        step(state, config, Input::TobiiGaze { x, y }, now).1 == Outcome::Move(
            CursorCommand::MoveTo {
                x: gaze_target(config, x, y).x,
                y: gaze_target(config, x, y).y,
            },
        ),
        step(state, config, Input::TobiiGaze { x, y }, now).0.anchor == gaze_target(config, x, y),
{
}

/// The distance to the screen depends on the last eye positions alone: the same
/// positions reported again, at whatever time, leave the whole state as it was
/// after the first report.
pub proof fn lemma_distance_is_stable(
    state: FusionState,
    config: FusionConfig,
    event: Input,
    first: u64,
    second: u64,
)
    requires
        event is TobiiGazeOrigin,
    ensures
        step(step(state, config, event, first).0, config, event, second).0 == step(
            state,
            config,
            event,
            first,
        ).0,
{
}

} // verus!
