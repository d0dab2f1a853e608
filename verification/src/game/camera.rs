//! Camera moves.
use vstd::prelude::*;
use crate::geometry::Vec3;

verus! {

/// Which camera drives the view.
#[derive(Clone, Copy, Debug, PartialEq, Eq, Structural)]
pub enum CameraState {
    Dynamic,
    BallCamera,
    FpsCamera,
}

impl Default for CameraState {
    fn default() -> (r: Self)
        ensures
            r == CameraState::Dynamic,
    {
        CameraState::Dynamic
    }
}

pub open spec fn spec_start_pos() -> Vec3 {
    Vec3 { x: 2900, y: 1800, z: 1900 }
}

pub open spec fn spec_look_pos() -> Vec3 {
    Vec3 { x: 700, y: 0, z: 0 }
}

pub open spec fn spec_cam_low_pos() -> Vec3 {
    Vec3 { x: 1900, y: 0, z: 900 }
}

pub open spec fn spec_cam_ball_start_pos() -> Vec3 {
    Vec3 { x: 1700, y: 900, z: 1400 }
}

/// Where the camera starts a match, millimetres.
#[verifier::when_used_as_spec(spec_start_pos)]
pub fn start_pos() -> (r: Vec3)
    ensures
        r == spec_start_pos(),
{
    Vec3 { x: 2900, y: 1800, z: 1900 }
}

/// The point of the table the camera looks at.
#[verifier::when_used_as_spec(spec_look_pos)]
pub fn look_pos() -> (r: Vec3)
    ensures
        r == spec_look_pos(),
{
    Vec3 { x: 700, y: 0, z: 0 }
}

/// The camera's place during play.
#[verifier::when_used_as_spec(spec_cam_low_pos)]
pub fn cam_low_pos() -> (r: Vec3)
    ensures
        r == spec_cam_low_pos(),
{
    Vec3 { x: 1900, y: 0, z: 900 }
}

/// The camera's place next to the ball starter.
#[verifier::when_used_as_spec(spec_cam_ball_start_pos)]
pub fn cam_ball_start_pos() -> (r: Vec3)
    ensures
        r == spec_cam_ball_start_pos(),
{
    Vec3 { x: 1700, y: 900, z: 1400 }
}

/// A camera move: the camera goes from `start` to `end` while the point it
/// looks at goes from `look_at_start` to `look_at_end`.
#[derive(Clone, Copy, Debug, PartialEq, Eq, Structural)]
pub struct CamTransformLens {
    pub start: Vec3,
    pub end: Vec3,
    pub look_at_start: Vec3,
    pub look_at_end: Vec3,
}

impl CamTransformLens {
    pub fn new(start: Vec3, end: Vec3, look_at_start: Vec3, look_at_end: Vec3) -> (r: Self)
        ensures
            r == (CamTransformLens { start, end, look_at_start, look_at_end }),
    {
        Self { start, end, look_at_start, look_at_end }
    }

    /// A move that keeps looking at one point.
    pub fn look_static(start: Vec3, end: Vec3, look_at: Vec3) -> (r: Self)
        ensures
            r == (CamTransformLens { start, end, look_at_start: look_at, look_at_end: look_at }),
    {
        Self { start, end, look_at_start: look_at, look_at_end: look_at }
    }
}

/// Largest coordinate a camera move takes, millimetres.
pub const MAX_COORD: i64 = 1_000_000_000;

pub open spec fn lerp1(a: int, b: int, ratio: int) -> int {
    a + (b - a) * ratio / 1000
}

/// The point `ratio` (per mille) of the way from `a` to `b`.
pub fn lerp(a: Vec3, b: Vec3, ratio: i64) -> (r: Vec3)
    requires
        0 <= ratio <= 1000,
        -MAX_COORD <= a.x <= MAX_COORD && -MAX_COORD <= a.y <= MAX_COORD && -MAX_COORD <= a.z <= MAX_COORD,
        -MAX_COORD <= b.x <= MAX_COORD && -MAX_COORD <= b.y <= MAX_COORD && -MAX_COORD <= b.z <= MAX_COORD,
    ensures
        r.x == lerp1(a.x as int, b.x as int, ratio as int),
        r.y == lerp1(a.y as int, b.y as int, ratio as int),
        r.z == lerp1(a.z as int, b.z as int, ratio as int),
{
    let x = lerp_coord(a.x, b.x, ratio);
    let y = lerp_coord(a.y, b.y, ratio);
    let z = lerp_coord(a.z, b.z, ratio);
    Vec3 { x, y, z }
}

fn lerp_coord(a: i64, b: i64, ratio: i64) -> (r: i64)
    requires
        0 <= ratio <= 1000,
        -MAX_COORD <= a <= MAX_COORD,
        -MAX_COORD <= b <= MAX_COORD,
    ensures
        r == lerp1(a as int, b as int, ratio as int),
{
    let d: i128 = b as i128 - a as i128;
    assert(-2_000_000_000_000 <= (d as int) * (ratio as int) <= 2_000_000_000_000) by (nonlinear_arith)
        requires
            -2_000_000_000 <= d <= 2_000_000_000,
            0 <= ratio <= 1000,
    ;
    let p: i128 = d * ratio as i128;
    let q: i128 = if p >= 0 {
        p / 1000
    } else {
        let m = (-p) / 1000;
        if m * 1000 == -p { -m } else { -m - 1 }
    };
    assert(q as int == (p as int) / 1000);
    (a as i128 + q) as i64
}

/// The camera's place `ratio` (per mille) into a move, and the point it
/// looks at.
pub fn lens_at(lens: &CamTransformLens, ratio: i64) -> (r: (Vec3, Vec3))
    requires
        0 <= ratio <= 1000,
        -MAX_COORD <= lens.start.x <= MAX_COORD && -MAX_COORD <= lens.start.y <= MAX_COORD && -MAX_COORD <= lens.start.z <= MAX_COORD,
        -MAX_COORD <= lens.end.x <= MAX_COORD && -MAX_COORD <= lens.end.y <= MAX_COORD && -MAX_COORD <= lens.end.z <= MAX_COORD,
        -MAX_COORD <= lens.look_at_start.x <= MAX_COORD && -MAX_COORD <= lens.look_at_start.y <= MAX_COORD && -MAX_COORD <= lens.look_at_start.z <= MAX_COORD,
        -MAX_COORD <= lens.look_at_end.x <= MAX_COORD && -MAX_COORD <= lens.look_at_end.y <= MAX_COORD && -MAX_COORD <= lens.look_at_end.z <= MAX_COORD,
    ensures
        r.0.x == lerp1(lens.start.x as int, lens.end.x as int, ratio as int),
        r.0.y == lerp1(lens.start.y as int, lens.end.y as int, ratio as int),
        r.0.z == lerp1(lens.start.z as int, lens.end.z as int, ratio as int),
        r.1.x == lerp1(lens.look_at_start.x as int, lens.look_at_end.x as int, ratio as int),
        r.1.y == lerp1(lens.look_at_start.y as int, lens.look_at_end.y as int, ratio as int),
        r.1.z == lerp1(lens.look_at_start.z as int, lens.look_at_end.z as int, ratio as int),
{
    (lerp(lens.start, lens.end, ratio), lerp(lens.look_at_start, lens.look_at_end, ratio))
}

/// The opening shot: from high above down to the table, looking at it.
pub fn init_tracking_shot() -> (r: CamTransformLens)
    ensures
        r == (CamTransformLens { start: start_pos(), end: cam_low_pos(), look_at_start: look_pos(), look_at_end: look_pos() }),
{
    CamTransformLens::look_static(start_pos(), cam_low_pos(), look_pos())
}

/// The shot to the ball starter and back: toward the starter while
/// charging, looking at the ball; the same move reversed after the shot.
pub open spec fn tracking_shot(is_back: bool, look_at: Vec3) -> CamTransformLens {
    if is_back {
        CamTransformLens { start: cam_ball_start_pos(), end: cam_low_pos(), look_at_start: look_at, look_at_end: look_pos() }
    } else {
        CamTransformLens { start: cam_low_pos(), end: cam_ball_start_pos(), look_at_start: look_pos(), look_at_end: look_at }
    }
}

/// The shot to the ball starter (`is_back` false) or back from it.
pub fn ball_start_tracking_shot(is_back: bool, look_at: Vec3) -> (r: CamTransformLens)
    ensures
        r == tracking_shot(is_back, look_at),
{
    if is_back {
        CamTransformLens::new(cam_ball_start_pos(), cam_low_pos(), look_at, look_pos())
    } else {
        CamTransformLens::new(cam_low_pos(), cam_ball_start_pos(), look_pos(), look_at)
    }
}

/// The dynamic camera follows the ball starter: a charge start moves it in,
/// else the end of a shot moves it back.
pub fn on_ball_start_cam(charge_started: bool, fire_ended: bool, ball_spawn: Vec3) -> (r: Option<CamTransformLens>)
    ensures
        charge_started ==> r == Some(tracking_shot(false, ball_spawn)),
        !charge_started && fire_ended ==> r == Some(tracking_shot(true, ball_spawn)),
        !charge_started && !fire_ended ==> r is None,
{
    if charge_started {
        Some(ball_start_tracking_shot(false, ball_spawn))
    } else if fire_ended {
        Some(ball_start_tracking_shot(true, ball_spawn))
    } else {
        None
    }
}

/// The shot to the ball starter flies from the low position (1.9 m out,
/// 0.9 m up) to above the starter (1.7, 0.9, 1.4 m), turning its view from
/// the table's middle (0.7 m out) to the given point; a match starts from
/// (2.9, 1.8, 1.9 m).
pub proof fn ball_start_shot(look_at: Vec3)
    ensures
        spec_start_pos() == (Vec3 { x: 2900, y: 1800, z: 1900 }),
        tracking_shot(false, look_at).start == (Vec3 { x: 1900, y: 0, z: 900 }),
        tracking_shot(false, look_at).end == (Vec3 { x: 1700, y: 900, z: 1400 }),
        tracking_shot(false, look_at).look_at_start == (Vec3 { x: 700, y: 0, z: 0 }),
        tracking_shot(false, look_at).look_at_end == look_at,
{
}

/// Going back and forth ends where it started: the way back is the way in
/// reversed, in place and in view.
pub proof fn tracking_shot_reverses(look_at: Vec3)
    ensures
        tracking_shot(true, look_at).start == tracking_shot(false, look_at).end,
        tracking_shot(true, look_at).end == tracking_shot(false, look_at).start,
        tracking_shot(true, look_at).look_at_start == tracking_shot(false, look_at).look_at_end,
        tracking_shot(true, look_at).look_at_end == tracking_shot(false, look_at).look_at_start,
{
}

} // verus!
