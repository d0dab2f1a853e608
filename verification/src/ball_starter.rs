//! The ball starter of the first table layout: a plate pulled back while
//! charging and shot forward, faster and faster, when fired. Its position
//! is in micrometres along the lane and its speed in micrometres per second.
use vstd::prelude::*;

verus! {

/// Marks the ball starter.
#[derive(Clone, Copy, Debug, PartialEq, Eq, Structural)]
pub struct BallStarter;

/// Marks the plate that pushes the ball.
#[derive(Clone, Copy, Debug, PartialEq, Eq, Structural)]
pub struct BallStarterPlate;

/// The plate moves in `[-HALF_SIZE_X, HALF_SIZE_X]`, micrometres.
pub const HALF_SIZE_X: i64 = 99_000;

/// Speed of the plate at the start of a shot, micrometres per second.
pub const START_SPEED: i64 = 1_000_000;

/// Pull speed while charging, micrometres per second.
pub const CHARGE_SPEED: i64 = 200_000;

/// Growth of the shot speed, per second.
pub const SPEED_GROWTH: i64 = 32;

/// Highest plate speed, micrometres per second; a shot reaches the end of
/// the lane before its speed could pass it.
pub const MAX_PLATE_SPEED: i64 = 1_000_000_000_000;

/// Longest frame, milliseconds.
pub const MAX_FRAME_MS: i64 = 1_000_000;

/// What the starter does.
#[derive(Clone, Copy, Debug, PartialEq, Eq, Structural)]
pub enum BallStarterState {
    Idle,
    Charge,
    Fire,
}

/// The plate: its place on the lane and its shot speed.
#[derive(Clone, Copy, Debug, PartialEq, Eq, Structural)]
pub struct Plate {
    pub x: i64,
    pub speed: i64,
}

pub open spec fn plate_wf(p: Plate) -> bool {
    &&& -HALF_SIZE_X <= p.x <= HALF_SIZE_X
    &&& 0 <= p.speed <= MAX_PLATE_SPEED
}

impl Plate {
    /// A plate at the front of the lane, ready to shoot.
    pub fn new() -> (r: Plate)
        ensures
            r == (Plate { x: (-HALF_SIZE_X) as i64, speed: START_SPEED }),
            plate_wf(r),
    {
        Plate { x: -HALF_SIZE_X, speed: START_SPEED }
    }
}

/// A ball comes with the charge only when none is on the table.
pub fn spawn_ball_at_charge(balls: usize) -> (r: bool)
    ensures
        r == (balls == 0),
{
    balls == 0
}

/// The plate pulled back for `dt_ms`, stopping at the back of the lane.
pub open spec fn charged(p: Plate, dt_ms: int) -> Plate {
    Plate {
        x: (if p.x + dt_ms * CHARGE_SPEED / 1000 > HALF_SIZE_X {
            HALF_SIZE_X as int
        } else {
            p.x + dt_ms * CHARGE_SPEED / 1000
        }) as i64,
        ..p
    }
}

/// Pulls the plate back while charging.
pub fn charge_system(plate: &mut Plate, dt_ms: i64)
    requires
        plate_wf(*old(plate)),
        0 <= dt_ms <= MAX_FRAME_MS,
    ensures
        *final(plate) == charged(*old(plate), dt_ms as int),
        plate_wf(*final(plate)),
{
    let x = plate.x + dt_ms * CHARGE_SPEED / 1000;
    plate.x = if x > HALF_SIZE_X {
        HALF_SIZE_X
    } else {
        x
    };
}

/// The shot speed after `dt_ms`: it grows by `SPEED_GROWTH` of itself per
/// second.
pub open spec fn sped_up(speed: int, dt_ms: int) -> int {
    speed + speed * dt_ms * SPEED_GROWTH / 1000
}

/// The plate one frame into a shot: it speeds up and moves forward by its
/// new speed; at the front of the lane it stops, slows to the start speed
/// and the starter goes idle.
pub open spec fn fired(p: Plate, dt_ms: int) -> (Plate, Option<BallStarterState>) {
    let speed = sped_up(p.speed as int, dt_ms);
    let x = p.x - dt_ms * speed / 1000;
    if x <= -HALF_SIZE_X {
        (Plate { x: (-HALF_SIZE_X) as i64, speed: START_SPEED }, Some(BallStarterState::Idle))
    } else {
        (Plate { x: x as i64, speed: speed as i64 }, None)
    }
}

/// Moves the plate forward during a shot; the result is the next state of
/// the starter, if it changes.
pub fn fire_system(plate: &mut Plate, dt_ms: i64) -> (r: Option<BallStarterState>)
    requires
        plate_wf(*old(plate)),
        0 <= dt_ms <= MAX_FRAME_MS,
    ensures
        (*final(plate), r) == fired(*old(plate), dt_ms as int),
        plate_wf(*final(plate)),
{
    let ghost p = *plate;
    assert(0 <= p.speed * dt_ms * SPEED_GROWTH <= MAX_PLATE_SPEED * MAX_FRAME_MS * SPEED_GROWTH)
        by (nonlinear_arith)
        requires
            0 <= p.speed <= MAX_PLATE_SPEED,
            0 <= dt_ms <= MAX_FRAME_MS,
    ;
    let speed: i128 = plate.speed as i128 + (plate.speed as i128) * (dt_ms as i128) * (SPEED_GROWTH as i128)
        / 1000;
    assert(0 <= dt_ms * speed <= MAX_FRAME_MS * (MAX_PLATE_SPEED + MAX_PLATE_SPEED * MAX_FRAME_MS * SPEED_GROWTH))
        by (nonlinear_arith)
        requires
            0 <= dt_ms <= MAX_FRAME_MS,
            0 <= speed <= MAX_PLATE_SPEED + MAX_PLATE_SPEED * MAX_FRAME_MS * SPEED_GROWTH,
    ;
    let x: i128 = plate.x as i128 - (dt_ms as i128) * speed / 1000;
    if x <= -(HALF_SIZE_X as i128) {
        plate.x = -HALF_SIZE_X;
        plate.speed = START_SPEED;
        Some(BallStarterState::Idle)
    } else {
        assert(speed <= MAX_PLATE_SPEED) by {
            if speed > MAX_PLATE_SPEED {
                assert(dt_ms >= 1);
                assert(dt_ms * speed >= speed) by (nonlinear_arith)
                    requires
                        dt_ms >= 1,
                        speed >= 0,
                ;
            }
        }
        plate.x = x as i64;
        plate.speed = speed as i64;
        None
    }
}

} // verus!
