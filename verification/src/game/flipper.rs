//! The flippers.
use vstd::prelude::*;
use crate::entity::EntityId;
use crate::units::{PER_MILLE, spec_clamp, clamp, div_trunc, div_toward_zero};
use super::audio::SoundEvent;
use super::level::PointsEvent;

verus! {

/// Which flipper.
#[derive(Clone, Copy, Debug, PartialEq, Eq, Structural)]
pub enum FlipperType {
    Left,
    Right,
}

pub open spec fn spec_signum(t: FlipperType) -> int {
    match t {
        FlipperType::Left => -1,
        FlipperType::Right => 1,
    }
}

/// The left flipper turns the negative way, the right one the positive way:
/// the two mirror each other.
pub proof fn flippers_mirror()
    ensures
        spec_signum(FlipperType::Left) == -1,
        spec_signum(FlipperType::Right) == 1,
        spec_signum(FlipperType::Left) == -spec_signum(FlipperType::Right),
{
}

impl FlipperType {
    /// The turning direction of the flipper at rest.
    pub fn signum(&self) -> (r: i64)
        ensures
            r == spec_signum(*self),
    {
        match self {
            FlipperType::Left => -1,
            FlipperType::Right => 1,
        }
    }
}

/// Whether the flipper button is held.
#[derive(Clone, Copy, Debug, PartialEq, Eq, Structural)]
pub enum FlipperStatus {
    Idle,
    Pushed,
}

impl Default for FlipperStatus {
    fn default() -> (r: Self)
        ensures
            r == FlipperStatus::Idle,
    {
        FlipperStatus::Idle
    }
}

impl FlipperStatus {
    /// An analog trigger (per mille) pushes the flipper from half way.
    pub fn by_value(val: i64) -> (r: FlipperStatus)
        ensures
            r == if val < 500 { FlipperStatus::Idle } else { FlipperStatus::Pushed },
    {
        if val < 500 {
            FlipperStatus::Idle
        } else {
            FlipperStatus::Pushed
        }
    }
}

/// A flipper's angle (milliradians) and how fast a held flipper speeds up
/// (per mille).
#[derive(Clone, Copy, Debug, PartialEq, Eq, Structural)]
pub struct Flipper {
    pub curr_angle: i64,
    pub acceleration_factor: i64,
}

impl Flipper {
    pub fn new() -> (r: Self)
        ensures
            r == (Flipper { curr_angle: 0, acceleration_factor: PER_MILLE }),
    {
        Flipper { curr_angle: 0, acceleration_factor: PER_MILLE }
    }
}

/// Largest angle either way, milliradians.
pub const MAX_ANGLE: i64 = 400;
/// Turning speed of a flipper falling back, milliradians per second.
pub const RETURN_SPEED: i64 = 8000;
/// Growth of the acceleration factor per second held, per mille.
pub const ACCELERATION: i64 = 256;
/// Bounds the step takes: acceleration factor, frame time (ms), angle.
pub const MAX_FACTOR: i64 = 1_000_000_000_000;
pub const MAX_DT: i64 = 1_000_000;
pub const MAX_CURR: i64 = 1_000_000_000;

/// The turning speed the flipper wants: a released flipper falls back at
/// a fixed speed, a held one swings up ever faster.
pub open spec fn desired_speed(t: FlipperType, status: FlipperStatus, factor: int) -> int {
    match status {
        FlipperStatus::Idle => spec_signum(t) * RETURN_SPEED,
        FlipperStatus::Pushed => -spec_signum(t) * factor,
    }
}

/// A released flipper falls back at 8 radians per second toward its rest
/// side (the left one the negative way, the right one the positive way); a
/// held one swings the other way at its acceleration factor.
pub proof fn flipper_speeds(factor: int)
    ensures
        desired_speed(FlipperType::Left, FlipperStatus::Idle, factor) == -8000,
        desired_speed(FlipperType::Right, FlipperStatus::Idle, factor) == 8000,
        desired_speed(FlipperType::Left, FlipperStatus::Pushed, factor) == factor,
        desired_speed(FlipperType::Right, FlipperStatus::Pushed, factor) == -factor,
{
    assert(-spec_signum(FlipperType::Right) * factor == -factor) by (nonlinear_arith)
        requires
            spec_signum(FlipperType::Right) == 1,
    ;
    assert(-spec_signum(FlipperType::Left) * factor == factor) by (nonlinear_arith)
        requires
            spec_signum(FlipperType::Left) == -1,
    ;
}

/// One physics step of `dt_ms` for a flipper now at `curr` (milliradians):
/// the angle it reaches, kept within the largest angle, and the angular
/// speed (milliradians per second) that takes it there; no speed for an
/// empty step.
pub fn flipper_step(flipper: &mut Flipper, status: FlipperStatus, f_type: FlipperType, curr: i64, dt_ms: i64) -> (r: i64)
    requires
        0 <= old(flipper).acceleration_factor <= MAX_FACTOR,
        0 <= dt_ms <= MAX_DT,
        -MAX_CURR <= curr <= MAX_CURR,
    ensures
        ({
            let factor = if status == FlipperStatus::Idle { PER_MILLE as int } else { old(flipper).acceleration_factor as int };
            let desired = desired_speed(f_type, status, factor);
            let clamped = spec_clamp(curr + div_trunc(desired * dt_ms, 1000), -MAX_ANGLE as int, MAX_ANGLE as int);
            &&& final(flipper).curr_angle == clamped
            &&& final(flipper).acceleration_factor == if status == FlipperStatus::Idle {
                PER_MILLE as int
            } else {
                old(flipper).acceleration_factor + dt_ms * ACCELERATION
            }
            &&& r == if dt_ms > 0 { div_trunc((clamped - curr) * 1000, dt_ms as int) } else { 0 }
        }),
{
    let sig = f_type.signum();
    let factor0 = flipper.acceleration_factor;
    let desired: i64 = match status {
        FlipperStatus::Idle => {
            flipper.acceleration_factor = PER_MILLE;
            sig * RETURN_SPEED
        },
        FlipperStatus::Pushed => {
            let v = if sig < 0 { factor0 } else { -factor0 };
            flipper.acceleration_factor = factor0 + dt_ms * ACCELERATION;
            v
        },
    };
    assert(-1_000_000_000_000_000_000 <= (desired as int) * (dt_ms as int) <= 1_000_000_000_000_000_000) by (nonlinear_arith)
        requires
            -MAX_FACTOR <= desired <= MAX_FACTOR,
            0 <= dt_ms <= MAX_DT,
    ;
    let projected = curr + div_toward_zero(desired * dt_ms, 1000);
    let clamped = clamp(projected, -MAX_ANGLE, MAX_ANGLE);
    flipper.curr_angle = clamped;
    if dt_ms > 0 {
        assert(-2_000_000_000_000 <= ((clamped - curr) as int) * 1000 <= 2_000_000_000_000) by (nonlinear_arith)
            requires
                -1_000_000_400 <= clamped - curr <= 1_000_000_400,
        ;
        div_toward_zero((clamped - curr) * 1000, dt_ms)
    } else {
        0
    }
}

/// A flipper whose status changed makes its press or release sound.
pub fn sound_for(status: FlipperStatus) -> (r: SoundEvent)
    ensures
        r == match status {
            FlipperStatus::Idle => SoundEvent::FlipperRelease,
            FlipperStatus::Pushed => SoundEvent::FlipperPress,
        },
{
    match status {
        FlipperStatus::Idle => SoundEvent::FlipperRelease,
        FlipperStatus::Pushed => SoundEvent::FlipperPress,
    }
}

/// The ball hitting a flipper is worth flipper points.
pub fn on_collision_with_ball(hit: EntityId, flipper_colliders: &Vec<EntityId>) -> (r: Option<PointsEvent>)
    ensures
        r is Some <==> exists|i: int| 0 <= i < flipper_colliders@.len() && flipper_colliders@[i] == hit,
        r matches Some(p) ==> p == PointsEvent::FlipperHit,
{
    let mut i: usize = 0;
    while i < flipper_colliders.len()
        invariant
            i <= flipper_colliders@.len(),
            forall|j: int| 0 <= j < i ==> flipper_colliders@[j] != hit,
        decreases flipper_colliders@.len() - i,
    {
        if flipper_colliders[i] == hit {
            return Some(PointsEvent::FlipperHit);
        }
        i = i + 1;
    }
    None
}

} // verus!
