//! Effects of the short-lived extra fields: what a full field fires, the
//! damage a ball does while they last, and the slow-down they keep up.
use vstd::prelude::*;
use crate::geometry::Vec3;
use super::extra_field::{ActiveEffects, ExtraFieldFireEvent, ExtraFieldKind, spec_is_active};
use super::extra::field::{lane_occupied, in_lane};

verus! {

/// How long an effect lasts, milliseconds.
pub const EFFECT_MS: i64 = 5000;

/// Marks a ball spawned by the extra ball field; it is not saved.
#[derive(Clone, Copy, Debug, PartialEq, Eq, Structural)]
pub struct BonusBall;

/// The effects after a field of `kind` fired at `now`: the effect of a
/// lasting kind ends `EFFECT_MS` later, the extra ball changes none.
pub open spec fn fired(e: ActiveEffects, kind: ExtraFieldKind, now: int) -> ActiveEffects {
    match kind {
        ExtraFieldKind::SlowDown => ActiveEffects { slow_until: (now + EFFECT_MS) as i64, ..e },
        ExtraFieldKind::DoubleDamage => ActiveEffects {
            double_damage_until: (now + EFFECT_MS) as i64,
            ..e
        },
        ExtraFieldKind::InstaKill => ActiveEffects { insta_kill_until: (now + EFFECT_MS) as i64, ..e },
        ExtraFieldKind::ExtraBall => e,
    }
}

/// A fired field starts its effect. An extra ball field instead asks for a
/// bonus ball at the spawn point, which comes (with the fire sound) unless
/// a ball already sits in the launch lane; the result says whether it does.
pub fn on_extra_field_fire(
    effects: &mut ActiveEffects,
    now: i64,
    ev: ExtraFieldFireEvent,
    spawn: Vec3,
    balls: &[Vec3],
) -> (r: bool)
    requires
        now <= i64::MAX - EFFECT_MS,
    ensures
        *final(effects) == fired(*old(effects), ev.0, now as int),
        r == (ev.0 == ExtraFieldKind::ExtraBall
            && !exists|i: int| 0 <= i < balls@.len() && in_lane(#[trigger] balls@[i])),
{
    let t = now + EFFECT_MS;
    match ev.0 {
        ExtraFieldKind::SlowDown => {
            effects.slow_until = t;
            false
        },
        ExtraFieldKind::DoubleDamage => {
            effects.double_damage_until = t;
            false
        },
        ExtraFieldKind::InstaKill => {
            effects.insta_kill_until = t;
            false
        },
        ExtraFieldKind::ExtraBall => !lane_occupied(spawn, balls),
    }
}

/// Damage of a plain ball hit, milli points.
pub const BALL_DAMAGE: i64 = 100_000;

/// Damage of a ball hit while double damage lasts, milli points.
pub const DOUBLE_BALL_DAMAGE: i64 = 200_000;

/// The change of an enemy's health (milli points) when a ball hits it at
/// `now`: insta kill takes all of its maximum health, double damage twice
/// the plain damage, and insta kill wins over double damage.
pub open spec fn spec_ball_damage(e: ActiveEffects, now: i64, enemy_max_health: i64) -> int {
    if spec_is_active(e, now, ExtraFieldKind::InstaKill) {
        -enemy_max_health
    } else if spec_is_active(e, now, ExtraFieldKind::DoubleDamage) {
        -DOUBLE_BALL_DAMAGE
    } else {
        -BALL_DAMAGE
    }
}

/// A ball hit at `now` takes an enemy's whole maximum health while insta
/// kill runs; else 200 points while double damage runs, twice the plain
/// 100 points.
pub proof fn hit_damage(e: ActiveEffects, now: i64, enemy_max_health: i64)
    ensures
        now < e.insta_kill_until ==> spec_ball_damage(e, now, enemy_max_health) == -enemy_max_health,
        e.insta_kill_until <= now < e.double_damage_until ==> spec_ball_damage(e, now, enemy_max_health) == -200_000,
        e.insta_kill_until <= now && e.double_damage_until <= now ==> spec_ball_damage(e, now, enemy_max_health) == -100_000,
{
}

/// The change of an enemy's health when a ball hits it at `now`.
pub fn ball_damage(effects: &ActiveEffects, now: i64, enemy_max_health: i64) -> (r: i64)
    requires
        enemy_max_health > i64::MIN,
    ensures
        r == spec_ball_damage(*effects, now, enemy_max_health),
{
    if effects.is_active(now, ExtraFieldKind::InstaKill) {
        -enemy_max_health
    } else if effects.is_active(now, ExtraFieldKind::DoubleDamage) {
        -DOUBLE_BALL_DAMAGE
    } else {
        -BALL_DAMAGE
    }
}

/// Speed factor (per mille) to put on every enemy while the slow-down
/// effect is active.
pub const SLOW_FACTOR: i64 = 500;

/// While the slow-down effect lasts, every enemy is slowed to half speed.
pub fn slow_reapply(effects: &ActiveEffects, now: i64) -> (r: Option<i64>)
    ensures
        r == if spec_is_active(*effects, now, ExtraFieldKind::SlowDown) {
            Some(SLOW_FACTOR)
        } else {
            None::<i64>
        },
        r matches Some(f) ==> 2 * f == 1000,
{
    if effects.is_active(now, ExtraFieldKind::SlowDown) {
        Some(SLOW_FACTOR)
    } else {
        None
    }
}

/// A fired effect is active from the moment it fires for five seconds
/// (`EFFECT_MS`), and no longer; the extra ball has no lasting effect; the
/// other effects are as they were. While slow-down lasts, enemies walk at
/// half speed.
pub proof fn fired_effect_lasts(e: ActiveEffects, kind: ExtraFieldKind, now: i64, t: i64, other: ExtraFieldKind)
    requires
        now <= i64::MAX - EFFECT_MS,
    ensures
        EFFECT_MS == 5000,
        2 * SLOW_FACTOR == 1000,
        kind != ExtraFieldKind::ExtraBall ==> spec_is_active(fired(e, kind, now as int), t, kind) == (t
            < now + EFFECT_MS),
        !spec_is_active(fired(e, kind, now as int), t, ExtraFieldKind::ExtraBall),
        other != kind ==> spec_is_active(fired(e, kind, now as int), t, other) == spec_is_active(e, t, other),
{
}

} // verus!
