//! The ball of the first table layout: leaving the table and the speed
//! limit that keeps it from passing through walls.
use vstd::prelude::*;
use crate::geometry::Vec3;
use crate::units::{div_trunc, lemma_div_trunc_bound, scale_toward_zero};
use crate::game::pinball_menu::PinballMenuEvent;

verus! {

/// Marks the pinball.
#[derive(Clone, Copy, Debug, PartialEq, Eq, Structural)]
pub struct PinBall;

/// A ball left the table.
#[derive(Clone, Copy, Debug, PartialEq, Eq, Structural)]
pub struct OnBallDespawn;

/// A ball at `p` has left the table: below it, above it, or out behind the
/// ball starter.
pub open spec fn off_table(p: Vec3) -> bool {
    p.y <= -1000 || p.y >= 400 || (p.x > 1200 && p.z > -300)
}

/// Whether a ball at `pos` is removed, which also sends `OnBallDespawn`.
pub fn ball_reset(pos: Vec3) -> (r: bool)
    ensures
        r == off_table(pos),
{
    pos.y <= -1000 || pos.y >= 400 || (pos.x > 1200 && pos.z > -300)
}

/// After a ball left the table the pinball menu closes, once however many
/// balls left.
pub fn on_ball_despawn(evs: &Vec<OnBallDespawn>) -> (r: Option<PinballMenuEvent>)
    ensures
        r == if evs@.len() > 0 {
            Some(PinballMenuEvent::Deactivate)
        } else {
            None::<PinballMenuEvent>
        },
{
    if evs.len() > 0 {
        Some(PinballMenuEvent::Deactivate)
    } else {
        None
    }
}

/// Linear velocity (mm/s) and angular velocity (mrad/s) of a body.
#[derive(Clone, Copy, Debug, PartialEq, Eq, Structural)]
pub struct Velocity {
    pub linvel: Vec3,
    pub angvel: Vec3,
}

/// Squared linear speed above which the ball is slowed, (mm/s)².
pub const MAX_SQUARED_SPEED: u64 = 40_000_000;

/// Squared turn speed above which a slowed ball also turns slower,
/// (mrad/s)².
pub const MAX_SQUARED_ANGLE_SPEED: u64 = 20_000_000_000;

/// Largest coordinate that `limit_velocity` takes.
pub const MAX_COORD: i64 = 0x4000_0000_0000_0000;

pub open spec fn coords_in_range(v: Vec3) -> bool {
    &&& -MAX_COORD <= v.x <= MAX_COORD
    &&& -MAX_COORD <= v.y <= MAX_COORD
    &&& -MAX_COORD <= v.z <= MAX_COORD
}

pub open spec fn length_squared(v: Vec3) -> int {
    v.x * v.x + v.y * v.y + v.z * v.z
}

/// Each coordinate of `v` times `num / den`, rounded toward zero.
pub open spec fn scaled(v: Vec3, num: int, den: int) -> Vec3 {
    Vec3 {
        x: div_trunc(v.x * num, den) as i64,
        y: div_trunc(v.y * num, den) as i64,
        z: div_trunc(v.z * num, den) as i64,
    }
}

/// A vector whose squared length exceeds `max` is scaled by `max` over its
/// squared length; others stay.
pub open spec fn limited(v: Vec3, max: int) -> Vec3 {
    if length_squared(v) > max {
        scaled(v, max, length_squared(v))
    } else {
        v
    }
}

/// A ball whose squared speed exceeds `MAX_SQUARED_SPEED` has its velocity
/// scaled by that limit over its squared speed, and then its turn is
/// limited the same way; a ball within the limit keeps both.
pub open spec fn spec_limit_velocity(v: Velocity) -> Velocity {
    if length_squared(v.linvel) > MAX_SQUARED_SPEED {
        Velocity {
            linvel: limited(v.linvel, MAX_SQUARED_SPEED as int),
            angvel: limited(v.angvel, MAX_SQUARED_ANGLE_SPEED as int),
        }
    } else {
        v
    }
}

/// `length_squared(v)`, which stays below `2^126`.
fn length_squared_exec(v: Vec3) -> (r: u128)
    requires
        coords_in_range(v),
    ensures
        r == length_squared(v),
        r < 0x4000_0000_0000_0000_0000_0000_0000_0000u128,
{
    assert(v.x * v.x <= MAX_COORD * MAX_COORD && v.y * v.y <= MAX_COORD * MAX_COORD && v.z * v.z
        <= MAX_COORD * MAX_COORD) by (nonlinear_arith)
        requires
            coords_in_range(v),
    ;
    assert(v.x * v.x >= 0 && v.y * v.y >= 0 && v.z * v.z >= 0) by (nonlinear_arith);
    let xx: i128 = (v.x as i128) * (v.x as i128);
    let yy: i128 = (v.y as i128) * (v.y as i128);
    let zz: i128 = (v.z as i128) * (v.z as i128);
    (xx + yy + zz) as u128
}

/// A value between zero and `c` has a square no larger than `c`'s.
proof fn lemma_square_le(r: int, c: int)
    requires
        0 <= c ==> 0 <= r <= c,
        c < 0 ==> c <= r <= 0,
    ensures
        r * r <= c * c,
{
    if c >= 0 {
        assert(r * r <= c * c) by (nonlinear_arith)
            requires
                0 <= r <= c,
        ;
    } else {
        assert(r * r <= c * c) by (nonlinear_arith)
            requires
                c <= r <= 0,
        ;
    }
}

/// A coordinate scaled by `m / n`, with `m` below `n`, rounded toward zero:
/// at most `m / n` of its magnitude, and between zero and the coordinate.
proof fn lemma_scaled_coord(c: int, m: int, n: int)
    requires
        0 < m < n,
    ensures
        ({
            let r = div_trunc(c * m, n);
            &&& (if r < 0 { -r } else { r }) * n <= (if c < 0 { -c } else { c }) * m
            &&& 0 <= c ==> 0 <= r <= c
            &&& c < 0 ==> c <= r <= 0
        }),
{
    lemma_div_trunc_bound(c, m, n);
    let r = div_trunc(c * m, n);
    let ac = if c < 0 { -c } else { c };
    let ar = if r < 0 { -r } else { r };
    assert(ar <= ac) by (nonlinear_arith)
        requires
            ar * n <= ac * m,
            0 < m < n,
            0 <= ac,
            0 <= ar,
    ;
    if c >= 0 {
        assert(c * m >= 0) by (nonlinear_arith)
            requires
                c >= 0,
                m > 0,
        ;
        assert(r == (c * m) / n);
        assert(r >= 0) by (nonlinear_arith)
            requires
                r == (c * m) / n,
                c * m >= 0,
                n > 0,
        ;
    } else {
        assert(c * m < 0) by (nonlinear_arith)
            requires
                c < 0,
                m > 0,
        ;
        assert(r == -((-(c * m)) / n));
        assert(r <= 0) by (nonlinear_arith)
            requires
                r == -((-(c * m)) / n),
                c * m < 0,
                n > 0,
        ;
    }
}

/// Coordinates each at most `m / n` of the magnitude of those of a vector
/// whose squared length is `n`, with `0 < m < n`, have a squared length
/// below `m`.
proof fn lemma_scaled_below(x: int, y: int, z: int, rx: int, ry: int, rz: int, n: int, m: int)
    requires
        n == x * x + y * y + z * z,
        0 < m < n,
        (if rx < 0 { -rx } else { rx }) * n <= (if x < 0 { -x } else { x }) * m,
        (if ry < 0 { -ry } else { ry }) * n <= (if y < 0 { -y } else { y }) * m,
        (if rz < 0 { -rz } else { rz }) * n <= (if z < 0 { -z } else { z }) * m,
    ensures
        rx * rx + ry * ry + rz * rz < m,
{
    lemma_square_scaled(x, rx, n, m);
    lemma_square_scaled(y, ry, n, m);
    lemma_square_scaled(z, rz, n, m);
    let sr = rx * rx + ry * ry + rz * rz;
    assert(sr * (n * n) <= n * (m * m)) by (nonlinear_arith)
        requires
            rx * rx * (n * n) <= x * x * (m * m),
            ry * ry * (n * n) <= y * y * (m * m),
            rz * rz * (n * n) <= z * z * (m * m),
            sr == rx * rx + ry * ry + rz * rz,
            n == x * x + y * y + z * z,
    ;
    assert(sr * n <= m * m) by (nonlinear_arith)
        requires
            sr * (n * n) <= n * (m * m),
            n > 0,
    ;
    assert(m * m < m * n) by (nonlinear_arith)
        requires
            0 < m < n,
    ;
    assert(sr < m) by (nonlinear_arith)
        requires
            sr * n < m * n,
            n > 0,
    ;
}

/// `r` at most `m / n` of the magnitude of `c` squares to at most
/// `(m / n)^2` of its square.
proof fn lemma_square_scaled(c: int, r: int, n: int, m: int)
    requires
        0 < m,
        0 < n,
        (if r < 0 { -r } else { r }) * n <= (if c < 0 { -c } else { c }) * m,
    ensures
        r * r * (n * n) <= c * c * (m * m),
{
    let ac = if c < 0 { -c } else { c };
    let ar = if r < 0 { -r } else { r };
    assert(ar * ar == r * r && ac * ac == c * c) by (nonlinear_arith)
        requires
            ar == r || ar == -r,
            ac == c || ac == -c,
    ;
    assert(r * r * (n * n) <= c * c * (m * m)) by (nonlinear_arith)
        requires
            0 <= ar * n <= ac * m,
            ar * ar == r * r,
            ac * ac == c * c,
    ;
}

/// A vector above the limit comes out strictly below it, each coordinate
/// keeping its sign and getting no longer; a vector within the limit is
/// left as it is.
pub proof fn limited_stays_within(v: Vec3, max: int)
    requires
        coords_in_range(v),
        0 < max,
    ensures
        length_squared(v) > max ==> length_squared(limited(v, max)) < max,
        length_squared(v) <= max ==> limited(v, max) == v,
        0 <= v.x ==> 0 <= limited(v, max).x <= v.x,
        v.x < 0 ==> v.x <= limited(v, max).x <= 0,
        0 <= v.y ==> 0 <= limited(v, max).y <= v.y,
        v.y < 0 ==> v.y <= limited(v, max).y <= 0,
        0 <= v.z ==> 0 <= limited(v, max).z <= v.z,
        v.z < 0 ==> v.z <= limited(v, max).z <= 0,
{
    let n = length_squared(v);
    if n > max {
        lemma_scaled_coord(v.x as int, max, n);
        lemma_scaled_coord(v.y as int, max, n);
        lemma_scaled_coord(v.z as int, max, n);
        let rx = div_trunc(v.x * max, n);
        let ry = div_trunc(v.y * max, n);
        let rz = div_trunc(v.z * max, n);
        let r = limited(v, max);
        assert(r.x == rx && r.y == ry && r.z == rz);
        lemma_scaled_below(v.x as int, v.y as int, v.z as int, rx, ry, rz, n, max);
    }
}

/// `limited(v, max)`.
fn limit(v: Vec3, max: u64) -> (r: Vec3)
    requires
        coords_in_range(v),
    ensures
        r == limited(v, max as int),
        length_squared(r) <= length_squared(v),
        0 < max && length_squared(v) > max ==> length_squared(r) < max,
{
    let n = length_squared_exec(v);
    if n > max as u128 {
        let r = Vec3 {
            x: scale_toward_zero(v.x, max, n),
            y: scale_toward_zero(v.y, max, n),
            z: scale_toward_zero(v.z, max, n),
        };
        proof {
            lemma_square_le(r.x as int, v.x as int);
            lemma_square_le(r.y as int, v.y as int);
            lemma_square_le(r.z as int, v.z as int);
            if max > 0 {
                limited_stays_within(v, max as int);
            }
        }
        r
    } else {
        v
    }
}

/// Keeps the ball from clipping through objects: a ball faster than the
/// limit is slowed, and its turn speed limited too.
pub fn limit_velocity(velocity: &mut Velocity)
    requires
        coords_in_range(old(velocity).linvel),
        coords_in_range(old(velocity).angvel),
    ensures
        *final(velocity) == spec_limit_velocity(*old(velocity)),
        length_squared(final(velocity).linvel) <= length_squared(old(velocity).linvel),
        length_squared(final(velocity).angvel) <= length_squared(old(velocity).angvel),
        length_squared(old(velocity).linvel) > MAX_SQUARED_SPEED ==> length_squared(final(velocity).linvel)
            < MAX_SQUARED_SPEED && length_squared(final(velocity).angvel) <= MAX_SQUARED_ANGLE_SPEED,
{
    let n = length_squared_exec(velocity.linvel);
    if n > MAX_SQUARED_SPEED as u128 {
        velocity.linvel = limit(velocity.linvel, MAX_SQUARED_SPEED);
        velocity.angvel = limit(velocity.angvel, MAX_SQUARED_ANGLE_SPEED);
    }
}

} // verus!
