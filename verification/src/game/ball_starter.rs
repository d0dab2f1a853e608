//! The ball starter: a plate pulled back while the player charges and
//! shot forward on release, faster the further it was pulled.
use vstd::prelude::*;
use crate::geometry::Vec3;
use crate::units::{PER_MILLE, spec_clamp, clamp};
use super::audio::SoundEvent;

verus! {

/// Where the ball starter stands.
#[derive(Clone, Copy, Debug, PartialEq, Eq, Structural)]
pub enum BallStarterState {
    Idle,
    Charge,
    Fire,
    /// A bonus ball is launched without the player.
    AutoLaunch,
}

impl Default for BallStarterState {
    fn default() -> (r: Self)
        ensures
            r == BallStarterState::Idle,
    {
        BallStarterState::Idle
    }
}

impl BallStarterState {
    /// The direction the plate moves in: back while charging, forward
    /// while firing, still otherwise.
    pub fn direction(&self) -> (r: i8)
        ensures
            r == match *self {
                BallStarterState::Charge => -1i8,
                BallStarterState::Fire => 1i8,
                _ => 0i8,
            },
    {
        match self {
            BallStarterState::Charge => -1,
            BallStarterState::Fire => 1,
            _ => 0,
        }
    }
}

/// A ball is to be placed at the spawn point.
#[derive(Clone, Copy, Debug, PartialEq, Eq, Structural)]
pub struct SpawnBallEvent;

/// Charging started.
#[derive(Clone, Copy, Debug, PartialEq, Eq, Structural)]
pub struct BallStarterChargeStartedEvent;

/// The plate came back after a shot.
#[derive(Clone, Copy, Debug, PartialEq, Eq, Structural)]
pub struct BallStarterFireEndEvent;

/// Where new balls appear.
#[derive(Clone, Copy, Debug, PartialEq, Eq, Structural)]
pub struct BallSpawn(pub Vec3);

/// The spawn point on the table.
pub fn setup() -> (r: BallSpawn)
    ensures
        r == BallSpawn(Vec3 { x: 1020, y: 657, z: -20i64 }),
{
    BallSpawn(Vec3::new(1020, 657, -20))
}

/// Rest position of the plate, millimetres.
pub const STARTER_MIN_X: i64 = -107;
/// Fully pulled position of the plate, millimetres.
pub const STARTER_MAX_X: i64 = 0;
/// Speed of the plate while charging, millimetres per second.
pub const CHARGE_SPEED: i64 = 240;
/// Speed of a shot from a plate that was not pulled, millimetres per second.
pub const FIRE_SPEED_MIN: i64 = -1800;
/// Speed of a shot from a fully pulled plate.
pub const FIRE_SPEED_MAX: i64 = -4200;
/// Spring length (per mille) when fully pulled.
pub const SPRING_SCALE_X_MIN: i64 = 350;
/// Largest plate position the starter takes, millimetres.
pub const MAX_POS: i64 = 1_000_000_000;

/// How far the plate is pulled, per mille.
pub open spec fn spec_pull(plate_x: int) -> int {
    spec_clamp((plate_x - STARTER_MIN_X) * PER_MILLE / ((STARTER_MAX_X - STARTER_MIN_X) as int), 0, PER_MILLE as int)
}

pub fn plate_pull_factor(plate_x: i64) -> (r: i64)
    requires
        -MAX_POS <= plate_x <= MAX_POS,
    ensures
        r == spec_pull(plate_x as int),
        0 <= r <= PER_MILLE,
{
    let num = (plate_x - STARTER_MIN_X) * PER_MILLE;
    let q = num / (STARTER_MAX_X - STARTER_MIN_X);
    clamp(q, 0, PER_MILLE)
}

/// Shot speed for a pull (per mille), between the slowest and the fastest.
pub fn fire_speed_by_pull(pull_factor: i64) -> (r: i64)
    requires
        0 <= pull_factor <= PER_MILLE,
    ensures
        r == FIRE_SPEED_MIN - (FIRE_SPEED_MIN - FIRE_SPEED_MAX) * (pull_factor as int) / (PER_MILLE as int),
{
    FIRE_SPEED_MIN - (FIRE_SPEED_MIN - FIRE_SPEED_MAX) * pull_factor / PER_MILLE
}

/// Spring length (per mille of its rest length) for the plate position.
pub fn spring_scale(plate_x: i64) -> (r: i64)
    requires
        -MAX_POS <= plate_x <= MAX_POS,
    ensures
        r == PER_MILLE - spec_pull(plate_x as int) * (900 - SPRING_SCALE_X_MIN) / (PER_MILLE as int),
{
    let pull = plate_pull_factor(plate_x);
    PER_MILLE - pull * (900 - SPRING_SCALE_X_MIN) / PER_MILLE
}

/// The plate: position along the lane and speed, millimetres and
/// millimetres per second.
#[derive(Clone, Copy, Debug, PartialEq, Eq, Structural)]
pub struct Plate {
    pub x: i64,
    pub velocity_x: i64,
}

/// Back to rest: the plate is put within its range and stops.
pub fn on_enter_idle(plate: &mut Plate)
    ensures
        final(plate).x == spec_clamp(old(plate).x as int, STARTER_MIN_X as int, STARTER_MAX_X as int),
        final(plate).velocity_x == 0,
{
    plate.x = clamp(plate.x, STARTER_MIN_X, STARTER_MAX_X);
    plate.velocity_x = 0;
}

/// Charging starts: the plate is put within its range and moves back
/// unless it is already fully pulled; a charge sound plays.
pub fn on_charge_started(plate: &mut Plate) -> (r: (BallStarterChargeStartedEvent, SoundEvent))
    ensures
        final(plate).x == spec_clamp(old(plate).x as int, STARTER_MIN_X as int, STARTER_MAX_X as int),
        final(plate).velocity_x == if final(plate).x < STARTER_MAX_X { CHARGE_SPEED } else { 0 },
        r == (BallStarterChargeStartedEvent, SoundEvent::BallStarterCharge),
{
    plate.x = clamp(plate.x, STARTER_MIN_X, STARTER_MAX_X);
    plate.velocity_x = if plate.x < STARTER_MAX_X { CHARGE_SPEED } else { 0 };
    (BallStarterChargeStartedEvent, SoundEvent::BallStarterCharge)
}

/// While charging: a fully pulled plate stops there; when the charge key
/// is let go the starter fires. The result is the next state, if it
/// changes, and the spring length.
pub fn charge_system(plate: &mut Plate, key_pressed: bool) -> (r: (Option<BallStarterState>, i64))
    requires
        -MAX_POS <= old(plate).x <= MAX_POS,
    ensures
        old(plate).x >= STARTER_MAX_X ==> *final(plate) == (Plate { x: STARTER_MAX_X, velocity_x: 0 }),
        old(plate).x < STARTER_MAX_X ==> *final(plate) == *old(plate),
        r.0 == if key_pressed { None } else { Some(BallStarterState::Fire) },
        r.1 == PER_MILLE - spec_pull(final(plate).x as int) * (900 - SPRING_SCALE_X_MIN) / (PER_MILLE as int),
{
    if plate.x >= STARTER_MAX_X {
        plate.x = STARTER_MAX_X;
        plate.velocity_x = 0;
    }
    let scale = spring_scale(plate.x);
    let next = if !key_pressed { Some(BallStarterState::Fire) } else { None };
    (next, scale)
}

/// Firing starts: the plate shoots forward with the speed of its pull; a
/// fire sound plays.
pub fn on_fire_started(plate: &mut Plate) -> (r: SoundEvent)
    requires
        -MAX_POS <= old(plate).x <= MAX_POS,
    ensures
        final(plate).x == old(plate).x,
        final(plate).velocity_x == FIRE_SPEED_MIN - (FIRE_SPEED_MIN - FIRE_SPEED_MAX) * spec_pull(old(plate).x as int) / (PER_MILLE as int),
        r == SoundEvent::BallStarterFire,
{
    let pull = plate_pull_factor(plate.x);
    plate.velocity_x = fire_speed_by_pull(pull);
    SoundEvent::BallStarterFire
}

/// While firing: a plate back at rest stops there and the starter goes
/// idle, reporting the end of the shot. The result is the next state (if
/// it changes), the end event, and the spring length.
pub fn fire_system(plate: &mut Plate) -> (r: (Option<BallStarterState>, Option<BallStarterFireEndEvent>, i64))
    requires
        -MAX_POS <= old(plate).x <= MAX_POS,
    ensures
        old(plate).x <= STARTER_MIN_X ==> *final(plate) == (Plate { x: STARTER_MIN_X, velocity_x: 0 })
            && r.0 == Some(BallStarterState::Idle) && r.1 == Some(BallStarterFireEndEvent),
        old(plate).x > STARTER_MIN_X ==> *final(plate) == *old(plate) && r.0 is None && r.1 is None,
        r.2 == PER_MILLE - spec_pull(final(plate).x as int) * (900 - SPRING_SCALE_X_MIN) / (PER_MILLE as int),
{
    if plate.x <= STARTER_MIN_X {
        plate.x = STARTER_MIN_X;
        plate.velocity_x = 0;
    }
    let scale = spring_scale(plate.x);
    if plate.x <= STARTER_MIN_X {
        (Some(BallStarterState::Idle), Some(BallStarterFireEndEvent), scale)
    } else {
        (None, None, scale)
    }
}

/// Charging with no ball on the table asks for a ball.
pub fn spawn_ball_at_charge(balls: usize) -> (r: Option<SpawnBallEvent>)
    ensures
        r == if balls == 0 { Some(SpawnBallEvent) } else { None::<SpawnBallEvent> },
{
    if balls == 0 {
        Some(SpawnBallEvent)
    } else {
        None
    }
}

/// Each ball request places a ball at the spawn point with a spawn sound.
pub fn on_spawn_ball(evs: &Vec<SpawnBallEvent>, spawn: &BallSpawn) -> (r: Vec<(Vec3, SoundEvent)>)
    ensures
        r@.len() == evs@.len(),
        forall|i: int| 0 <= i < r@.len() ==> #[trigger] r@[i] == (spawn.0, SoundEvent::BallSpawn),
{
    let mut r: Vec<(Vec3, SoundEvent)> = Vec::new();
    let mut i: usize = 0;
    while i < evs.len()
        invariant
            i <= evs@.len(),
            r@.len() == i,
            forall|j: int| 0 <= j < i ==> #[trigger] r@[j] == (spawn.0, SoundEvent::BallSpawn),
        decreases evs@.len() - i,
    {
        r.push((spawn.0, SoundEvent::BallSpawn));
        i = i + 1;
    }
    r
}

/// A plate at rest (107 mm before the end of its lane) is not pulled and
/// shoots at 1.8 m/s; a fully pulled one shoots at 4.2 m/s; a half pulled
/// one at 3 m/s. A fully pulled spring is 450 per mille long, one at rest
/// 1000 per mille.
pub proof fn pull_and_shot_speeds()
    ensures
        spec_pull(-107) == 0,
        spec_pull(0) == 1000,
        FIRE_SPEED_MIN - (FIRE_SPEED_MIN - FIRE_SPEED_MAX) * spec_pull(-107) / (PER_MILLE as int) == -1800,
        FIRE_SPEED_MIN - (FIRE_SPEED_MIN - FIRE_SPEED_MAX) * spec_pull(0) / (PER_MILLE as int) == -4200,
        FIRE_SPEED_MIN - (FIRE_SPEED_MIN - FIRE_SPEED_MAX) * 500 / (PER_MILLE as int) == -3000,
        PER_MILLE - spec_pull(0) * (900 - SPRING_SCALE_X_MIN) / (PER_MILLE as int) == 450,
        PER_MILLE - spec_pull(-107) * (900 - SPRING_SCALE_X_MIN) / (PER_MILLE as int) == 1000,
{
}

/// A harder pull never gives a slower shot: the shot speed (negative, the
/// plate moves back along the lane) only grows in size with the pull.
pub proof fn fire_speed_monotone(a: int, b: int)
    requires
        0 <= a <= b <= PER_MILLE,
    ensures
        FIRE_SPEED_MIN - (FIRE_SPEED_MIN - FIRE_SPEED_MAX) * b / (PER_MILLE as int)
            <= FIRE_SPEED_MIN - (FIRE_SPEED_MIN - FIRE_SPEED_MAX) * a / (PER_MILLE as int),
{
    assert((FIRE_SPEED_MIN - FIRE_SPEED_MAX) * a / (PER_MILLE as int) <= (FIRE_SPEED_MIN - FIRE_SPEED_MAX) * b / (PER_MILLE as int)) by (nonlinear_arith)
        requires
            0 <= a <= b,
            FIRE_SPEED_MIN - FIRE_SPEED_MAX == 2400,
            PER_MILLE == 1000,
    ;
}

/// The pull grows with the plate position.
pub proof fn pull_monotone(a: int, b: int)
    requires
        a <= b,
    ensures
        spec_pull(a) <= spec_pull(b),
{
    assert((a - STARTER_MIN_X) * PER_MILLE / ((STARTER_MAX_X - STARTER_MIN_X) as int)
        <= (b - STARTER_MIN_X) * PER_MILLE / ((STARTER_MAX_X - STARTER_MIN_X) as int)) by (nonlinear_arith)
        requires
            a <= b,
            STARTER_MAX_X - STARTER_MIN_X == 107,
            PER_MILLE == 1000,
    ;
}

} // verus!
