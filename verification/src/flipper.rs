//! The flippers of the first table layout, turned directly by angle.
use vstd::prelude::*;
use crate::units::{PER_MILLE, spec_clamp, clamp, div_trunc, div_toward_zero};
use crate::game::flipper::{FlipperStatus, FlipperType, Flipper, spec_signum};

verus! {

/// Largest angle either way, milliradians.
pub const MAX_ANGLE: i64 = 400;

/// Speed of a released flipper falling back, milliradians per second.
pub const RETURN_SPEED: i64 = 8000;

/// Growth of a held flipper's speed, milliradians per second, per
/// millisecond held.
pub const ACCELERATION: i64 = 500;

/// Largest speed of a held flipper that `flipper_system` takes.
pub const MAX_FACTOR: i64 = 1_000_000_000_000;

/// Longest frame, milliseconds.
pub const MAX_DT: i64 = 1_000_000;

/// The name a flipper is shown by.
pub fn flipper_name(t: FlipperType) -> (r: &'static str)
    ensures
        t == FlipperType::Left ==> r@ == "Flipper Left"@,
        t == FlipperType::Right ==> r@ == "Flipper Right"@,
{
    match t {
        FlipperType::Left => "Flipper Left",
        FlipperType::Right => "Flipper Right",
    }
}

/// The flipper one frame of `dt_ms` later: a released flipper falls back
/// at `RETURN_SPEED` and its speed-up starts anew; a held one swings up at
/// its current speed, which then grows; the angle stays within
/// `MAX_ANGLE` either way. The speed of a held flipper is in
/// milliradians per second (one radian per second at first).
pub open spec fn stepped(f: Flipper, status: FlipperStatus, t: FlipperType, dt_ms: int) -> Flipper {
    match status {
        FlipperStatus::Idle => Flipper {
            curr_angle: spec_clamp(f.curr_angle + spec_signum(t) * RETURN_SPEED * dt_ms / 1000, -MAX_ANGLE as int, MAX_ANGLE as int) as i64,
            acceleration_factor: PER_MILLE,
        },
        FlipperStatus::Pushed => Flipper {
            curr_angle: spec_clamp(
                f.curr_angle + div_trunc(-spec_signum(t) * dt_ms * f.acceleration_factor, 1000),
                -MAX_ANGLE as int,
                MAX_ANGLE as int,
            ) as i64,
            acceleration_factor: (f.acceleration_factor + dt_ms * ACCELERATION) as i64,
        },
    }
}

/// A held left flipper swings up (its angle does not fall) and a released
/// one falls back (its angle does not rise); the right flipper mirrors it.
/// A held flipper speeds up by `ACCELERATION` per millisecond held; a
/// released one starts its speed-up anew.
pub proof fn held_swings_released_falls(f: Flipper, dt_ms: int)
    requires
        -MAX_ANGLE <= f.curr_angle <= MAX_ANGLE,
        0 <= f.acceleration_factor <= MAX_FACTOR,
        0 <= dt_ms <= MAX_DT,
    ensures
        stepped(f, FlipperStatus::Pushed, FlipperType::Left, dt_ms).curr_angle >= f.curr_angle,
        stepped(f, FlipperStatus::Idle, FlipperType::Left, dt_ms).curr_angle <= f.curr_angle,
        stepped(f, FlipperStatus::Pushed, FlipperType::Right, dt_ms).curr_angle <= f.curr_angle,
        stepped(f, FlipperStatus::Idle, FlipperType::Right, dt_ms).curr_angle >= f.curr_angle,
        stepped(f, FlipperStatus::Pushed, FlipperType::Left, dt_ms).acceleration_factor == f.acceleration_factor + dt_ms * 500,
        stepped(f, FlipperStatus::Idle, FlipperType::Right, dt_ms).acceleration_factor == 1000,
{
    let m = dt_ms * f.acceleration_factor;
    assert(m >= 0) by (nonlinear_arith)
        requires
            m == dt_ms * f.acceleration_factor,
            0 <= dt_ms,
            0 <= f.acceleration_factor,
    ;
    assert(-spec_signum(FlipperType::Left) * dt_ms * f.acceleration_factor == m) by (nonlinear_arith)
        requires
            spec_signum(FlipperType::Left) == -1,
            m == dt_ms * f.acceleration_factor,
    ;
    assert(-spec_signum(FlipperType::Right) * dt_ms * f.acceleration_factor == -m) by (nonlinear_arith)
        requires
            spec_signum(FlipperType::Right) == 1,
            m == dt_ms * f.acceleration_factor,
    ;
    assert(m / 1000 >= 0) by (nonlinear_arith)
        requires
            m >= 0,
    ;
    assert(spec_signum(FlipperType::Left) * RETURN_SPEED * dt_ms / 1000 <= 0) by (nonlinear_arith)
        requires
            spec_signum(FlipperType::Left) == -1,
            RETURN_SPEED == 8000,
            dt_ms >= 0,
    ;
    assert(spec_signum(FlipperType::Right) * RETURN_SPEED * dt_ms / 1000 >= 0) by (nonlinear_arith)
        requires
            spec_signum(FlipperType::Right) == 1,
            RETURN_SPEED == 8000,
            dt_ms >= 0,
    ;
}

/// Turns a flipper for one frame.
pub fn flipper_system(flipper: &mut Flipper, status: FlipperStatus, t: FlipperType, dt_ms: i64)
    requires
        -MAX_ANGLE <= old(flipper).curr_angle <= MAX_ANGLE,
        0 <= old(flipper).acceleration_factor <= MAX_FACTOR,
        0 <= dt_ms <= MAX_DT,
    ensures
        *final(flipper) == stepped(*old(flipper), status, t, dt_ms as int),
        -MAX_ANGLE <= final(flipper).curr_angle <= MAX_ANGLE,
{
    let sig = t.signum();
    match status {
        FlipperStatus::Idle => {
            assert(-8_000_000_000 <= sig * RETURN_SPEED * dt_ms <= 8_000_000_000) by (nonlinear_arith)
                requires
                    sig == -1 || sig == 1,
                    RETURN_SPEED == 8000,
                    0 <= dt_ms <= MAX_DT,
            ;
            let change: i64 = sig * RETURN_SPEED * dt_ms / 1000;
            assert(sig * RETURN_SPEED * dt_ms / 1000 == spec_signum(t) * RETURN_SPEED * dt_ms / 1000);
            flipper.acceleration_factor = PER_MILLE;
            flipper.curr_angle = clamp(flipper.curr_angle + change, -MAX_ANGLE, MAX_ANGLE);
        },
        FlipperStatus::Pushed => {
            let acc = flipper.acceleration_factor;
            assert(0 <= dt_ms * acc <= MAX_DT * MAX_FACTOR) by (nonlinear_arith)
                requires
                    0 <= dt_ms <= MAX_DT,
                    0 <= acc <= MAX_FACTOR,
            ;
            let m: i64 = dt_ms * acc;
            let p: i64 = if sig < 0 {
                m
            } else {
                -m
            };
            assert(p == -spec_signum(t) * dt_ms * acc) by (nonlinear_arith)
                requires
                    m == dt_ms * acc,
                    sig == spec_signum(t),
                    sig == -1 || sig == 1,
                    sig < 0 ==> p == m,
                    sig >= 0 ==> p == -m,
            ;
            let change = div_toward_zero(p, 1000);
            flipper.curr_angle = clamp(flipper.curr_angle + change, -MAX_ANGLE, MAX_ANGLE);
            flipper.acceleration_factor = acc + dt_ms * ACCELERATION;
        },
    }
}

} // verus!
