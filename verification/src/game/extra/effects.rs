//! Effects fired by full extra fields.
use vstd::prelude::*;
use crate::geometry::Vec3;
use super::{ExtraFieldKind, ExtraFieldFireEvent};
use super::field::{lane_occupied, in_lane};

verus! {

/// How long an effect lasts, milliseconds.
pub const EFFECT_MS: i64 = 10000;

/// Until when (in-game milliseconds, exclusive) each effect is active.
#[derive(Clone, Copy, Debug, PartialEq, Eq, Structural)]
pub struct ActiveEffects {
    pub slow_until: i64,
    pub double_damage_until: i64,
    pub insta_kill_until: i64,
    pub extra_ball_until: i64,
}

impl Default for ActiveEffects {
    fn default() -> (r: Self)
        ensures
            r.slow_until == 0 && r.double_damage_until == 0 && r.insta_kill_until == 0
                && r.extra_ball_until == 0,
    {
        ActiveEffects { slow_until: 0, double_damage_until: 0, insta_kill_until: 0, extra_ball_until: 0 }
    }
}

pub open spec fn until(e: ActiveEffects, which: ExtraFieldKind) -> i64 {
    match which {
        ExtraFieldKind::SlowDown => e.slow_until,
        ExtraFieldKind::DoubleDamage => e.double_damage_until,
        ExtraFieldKind::InstaKill => e.insta_kill_until,
        ExtraFieldKind::ExtraBall => e.extra_ball_until,
    }
}

pub open spec fn spec_is_active(e: ActiveEffects, now: i64, which: ExtraFieldKind) -> bool {
    now < until(e, which)
}

/// The effects with `which` lasting until `t`.
pub open spec fn with_until(e: ActiveEffects, which: ExtraFieldKind, t: i64) -> ActiveEffects {
    match which {
        ExtraFieldKind::SlowDown => ActiveEffects { slow_until: t, ..e },
        ExtraFieldKind::DoubleDamage => ActiveEffects { double_damage_until: t, ..e },
        ExtraFieldKind::InstaKill => ActiveEffects { insta_kill_until: t, ..e },
        ExtraFieldKind::ExtraBall => ActiveEffects { extra_ball_until: t, ..e },
    }
}

impl ActiveEffects {
    /// Whether the effect `which` is active at `now`.
    pub fn is_active(&self, now: i64, which: ExtraFieldKind) -> (r: bool)
        ensures
            r == spec_is_active(*self, now, which),
    {
        match which {
            ExtraFieldKind::SlowDown => now < self.slow_until,
            ExtraFieldKind::DoubleDamage => now < self.double_damage_until,
            ExtraFieldKind::InstaKill => now < self.insta_kill_until,
            ExtraFieldKind::ExtraBall => now < self.extra_ball_until,
        }
    }
}

/// A fired field starts its effect for `EFFECT_MS` from `now`. An extra
/// ball field also asks for a bonus ball at the spawn point, launched
/// without the player, unless a ball already sits in the launch lane; the
/// result says whether that ball is spawned.
pub fn on_extra_field_fire(
    effects: &mut ActiveEffects,
    now: i64,
    ev: ExtraFieldFireEvent,
    spawn: Vec3,
    balls: &[Vec3],
) -> (r: bool)
    requires
        now <= i64::MAX - EFFECT_MS,
    ensures
        *final(effects) == with_until(*old(effects), ev.0, (now + EFFECT_MS) as i64),
        r == (ev.0 == ExtraFieldKind::ExtraBall
            && !exists|i: int| 0 <= i < balls@.len() && in_lane(#[trigger] balls@[i])),
{
    let t = now + EFFECT_MS;
    match ev.0 {
        ExtraFieldKind::SlowDown => effects.slow_until = t,
        ExtraFieldKind::DoubleDamage => effects.double_damage_until = t,
        ExtraFieldKind::InstaKill => effects.insta_kill_until = t,
        ExtraFieldKind::ExtraBall => effects.extra_ball_until = t,
    }
    match ev.0 {
        ExtraFieldKind::ExtraBall => !lane_occupied(spawn, balls),
        _ => false,
    }
}

/// Speed factor (per mille) to put on every enemy while the slow-down
/// effect is active.
pub const SLOW_FACTOR: i64 = 500;

/// While the slow-down effect lasts, every enemy is slowed to half speed.
pub fn slow_reapply(effects: &ActiveEffects, now: i64) -> (r: Option<i64>)
    ensures
        r == if spec_is_active(*effects, now, ExtraFieldKind::SlowDown) {
            Some(SLOW_FACTOR)
        } else {
            None::<i64>
        },
        r matches Some(f) ==> 2 * f == 1000,
{
    if effects.is_active(now, ExtraFieldKind::SlowDown) {
        Some(SLOW_FACTOR)
    } else {
        None
    }
}

/// Damage settings of a ball hit, milli points: the plain damage, and what
/// each level of the player adds to it.
#[derive(Clone, Copy, Debug, PartialEq, Eq, Structural)]
pub struct BallDamageConfig {
    pub ball_enemy_damage: i64,
    pub ball_damage_per_level: i64,
}

/// Largest damage setting that `ball_damage` takes, milli points.
pub const MAX_DAMAGE_SETTING: i64 = 1_000_000_000_000;

/// The change of an enemy's health (milli points) when a ball hits it at
/// `now` with the player at `level`: the plain damage grows with the
/// level; insta kill takes all of the enemy's maximum health, double
/// damage doubles the plain damage, and insta kill wins over double damage.
pub open spec fn spec_ball_damage(
    e: ActiveEffects,
    now: i64,
    enemy_max_health: i64,
    level: u8,
    cfg: BallDamageConfig,
) -> int {
    let base = -cfg.ball_enemy_damage - level * cfg.ball_damage_per_level;
    if spec_is_active(e, now, ExtraFieldKind::InstaKill) {
        -enemy_max_health
    } else if spec_is_active(e, now, ExtraFieldKind::DoubleDamage) {
        2 * base
    } else {
        base
    }
}

/// Each effect runs until its own end: slow-down until `slow_until`, double
/// damage until `double_damage_until`, insta kill until `insta_kill_until`
/// and the extra ball until `extra_ball_until`. A ball hit at `now` takes
/// an enemy's whole maximum health while insta kill runs; else twice the
/// plain damage (base damage and its growth per level) while double damage
/// runs; else the plain damage.
pub proof fn effects_and_hit_damage(e: ActiveEffects, now: i64, enemy_max_health: i64, level: u8, cfg: BallDamageConfig)
    ensures
        spec_is_active(e, now, ExtraFieldKind::SlowDown) == (now < e.slow_until),
        spec_is_active(e, now, ExtraFieldKind::DoubleDamage) == (now < e.double_damage_until),
        spec_is_active(e, now, ExtraFieldKind::InstaKill) == (now < e.insta_kill_until),
        spec_is_active(e, now, ExtraFieldKind::ExtraBall) == (now < e.extra_ball_until),
        now < e.insta_kill_until ==> spec_ball_damage(e, now, enemy_max_health, level, cfg) == -enemy_max_health,
        e.insta_kill_until <= now < e.double_damage_until ==> spec_ball_damage(e, now, enemy_max_health, level, cfg)
            == -2 * (cfg.ball_enemy_damage + level * cfg.ball_damage_per_level),
        e.insta_kill_until <= now && e.double_damage_until <= now ==> spec_ball_damage(e, now, enemy_max_health, level, cfg)
            == -(cfg.ball_enemy_damage + level * cfg.ball_damage_per_level),
{
}

/// The change of an enemy's health when a ball hits it.
pub fn ball_damage(
    effects: &ActiveEffects,
    now: i64,
    enemy_max_health: i64,
    level: u8,
    cfg: &BallDamageConfig,
) -> (r: i64)
    requires
        enemy_max_health > i64::MIN,
        -MAX_DAMAGE_SETTING <= cfg.ball_enemy_damage <= MAX_DAMAGE_SETTING,
        -MAX_DAMAGE_SETTING <= cfg.ball_damage_per_level <= MAX_DAMAGE_SETTING,
    ensures
        r == spec_ball_damage(*effects, now, enemy_max_health, level, *cfg),
{
    assert(-MAX_DAMAGE_SETTING * 255 <= level * cfg.ball_damage_per_level <= MAX_DAMAGE_SETTING * 255)
        by (nonlinear_arith)
        requires
            0 <= level <= 255,
            -MAX_DAMAGE_SETTING <= cfg.ball_damage_per_level <= MAX_DAMAGE_SETTING,
    ;
    let base: i64 = -cfg.ball_enemy_damage - (level as i64) * cfg.ball_damage_per_level;
    if effects.is_active(now, ExtraFieldKind::InstaKill) {
        -enemy_max_health
    } else if effects.is_active(now, ExtraFieldKind::DoubleDamage) {
        2 * base
    } else {
        base
    }
}

/// A fired effect is active from the moment it fires for ten seconds
/// (`EFFECT_MS`), and no longer; the other effects are as they were.
pub proof fn fired_effect_lasts(e: ActiveEffects, kind: ExtraFieldKind, now: i64, t: i64, other: ExtraFieldKind)
    requires
        now <= i64::MAX - EFFECT_MS,
    ensures
        EFFECT_MS == 10_000,
        spec_is_active(with_until(e, kind, (now + EFFECT_MS) as i64), t, kind) == (t < now + EFFECT_MS),
        other != kind ==> spec_is_active(with_until(e, kind, (now + EFFECT_MS) as i64), t, other)
            == spec_is_active(e, t, other),
{
}

} // verus!
