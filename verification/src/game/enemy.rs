//! Enemies: kinds, speed, health, and what happens when the ball hits them.
use vstd::prelude::*;
use crate::entity::EntityId;
use crate::units::{PER_MILLE, PROGRESS_ONE, div_trunc};
use crate::geometry::Vec3;
use super::audio::SoundEvent;
use super::health::ChangeHealthEvent;
use super::level::PointsEvent;
use super::progress::ProgressBarCountUpEvent;

verus! {

/// The kinds of enemy.
#[derive(Clone, Copy, Debug, PartialEq, Eq, Structural)]
pub enum EnemyKind {
    Normal,
    Tank,
    Speeder,
}

impl Default for EnemyKind {
    fn default() -> (r: Self)
        ensures
            r == EnemyKind::Normal,
    {
        EnemyKind::Normal
    }
}

pub open spec fn spec_speed_factor(k: EnemyKind) -> i64 {
    match k {
        EnemyKind::Normal => 1000,
        EnemyKind::Tank => 500,
        EnemyKind::Speeder => 3000,
    }
}

pub open spec fn spec_health_factor(k: EnemyKind) -> i64 {
    match k {
        EnemyKind::Normal => 1000,
        EnemyKind::Tank => 3000,
        EnemyKind::Speeder => 500,
    }
}

impl EnemyKind {
    /// Speed relative to a normal enemy, per mille.
    pub fn speed_factor(self) -> (r: i64)
        ensures
            r == spec_speed_factor(self),
            self == EnemyKind::Normal ==> r == 1000,
            self == EnemyKind::Tank ==> r == 500,
            self == EnemyKind::Speeder ==> r == 3000,
    {
        match self {
            Self::Normal => 1000,
            Self::Tank => 500,
            Self::Speeder => 3000,
        }
    }

    /// Health relative to a normal enemy, per mille.
    pub fn health_factor(self) -> (r: i64)
        ensures
            r == spec_health_factor(self),
            self == EnemyKind::Normal ==> r == 1000,
            self == EnemyKind::Tank ==> r == 3000,
            self == EnemyKind::Speeder ==> r == 500,
    {
        match self {
            Self::Normal => 1000,
            Self::Tank => 3000,
            Self::Speeder => 500,
        }
    }
}

/// Walking speed of a normal enemy, millimetres per second.
pub const WALK_SPEED: i64 = 200;
/// Speed an enemy regains per second after being slowed, millimetres per
/// second.
pub const RECOVER_SPEED: i64 = 200;

/// The road the enemies walk: its points, and the length of each stretch
/// between two points (`dists[i]` from `points[i]` to `points[i + 1]`),
/// millimetres.
#[derive(Debug)]
pub struct Road {
    pub points: Vec<Vec3>,
    pub dists: Vec<i64>,
}

/// Largest coordinate of a road point or of a walking enemy, millimetres.
pub const MAX_ROAD_COORD: i64 = 1_000_000_000_000_000;
/// Longest stretch of road, millimetres.
pub const MAX_STRETCH: i64 = 1_000_000_000_000;
/// Longest frame an enemy walks in one step, milliseconds.
pub const MAX_WALK_MS: i64 = 1_000_000;
/// Highest walking speed, millimetres per second.
pub const MAX_WALK_SPEED: i64 = 1_000_000_000;

pub open spec fn coord_ok(v: Vec3) -> bool {
    &&& -MAX_ROAD_COORD <= v.x <= MAX_ROAD_COORD
    &&& -MAX_ROAD_COORD <= v.y <= MAX_ROAD_COORD
    &&& -MAX_ROAD_COORD <= v.z <= MAX_ROAD_COORD
}

/// A stretch from `a` to `b` of length `len`: no coordinate changes by more
/// than the length.
pub open spec fn stretch_ok(a: Vec3, b: Vec3, len: i64) -> bool {
    &&& 1 <= len <= MAX_STRETCH
    &&& -len <= b.x - a.x <= len
    &&& -len <= b.y - a.y <= len
    &&& -len <= b.z - a.z <= len
}

/// A road has at least one stretch, a length for each, and stays within
/// range.
pub open spec fn road_wf(points: Seq<Vec3>, dists: Seq<i64>) -> bool {
    &&& points.len() >= 2
    &&& dists.len() + 1 == points.len()
    &&& forall|i: int| 0 <= i < points.len() ==> coord_ok(#[trigger] points[i])
    &&& forall|i: int| 0 <= i < dists.len() ==> stretch_ok(points[i], points[i + 1], #[trigger] dists[i])
}

/// Where an enemy is on the road: walking toward point `i_road_point`,
/// `distance_walked` millimetres along the stretch before it.
#[derive(Clone, Copy, Debug, PartialEq, Eq, Structural)]
pub struct Step {
    pub i_road_point: usize,
    pub distance_walked: i64,
}

/// A step toward a point of the road, short of that point.
pub open spec fn step_wf(s: Step, points: Seq<Vec3>, dists: Seq<i64>) -> bool {
    &&& 1 <= s.i_road_point < points.len()
    &&& 0 <= s.distance_walked < dists[s.i_road_point - 1]
}

/// `pos` moved by `distance` along the stretch from `a` to `b` of length
/// `len`, each coordinate rounded toward zero.
pub open spec fn moved(pos: Vec3, a: Vec3, b: Vec3, len: int, distance: int) -> Vec3 {
    Vec3 {
        x: (pos.x + div_trunc((b.x - a.x) * distance, len)) as i64,
        y: (pos.y + div_trunc((b.y - a.y) * distance, len)) as i64,
        z: (pos.z + div_trunc((b.z - a.z) * distance, len)) as i64,
    }
}

/// One step of `distance` along the road from `pos`: the enemy moves along
/// its stretch; once it has walked the stretch's length it stands on the
/// point it walked to and heads for the next one, or, at the last point,
/// has reached the end of the road (`None`).
pub open spec fn walked(s: Step, points: Seq<Vec3>, dists: Seq<i64>, pos: Vec3, distance: int) -> (Step, Option<Vec3>) {
    let i = s.i_road_point as int;
    let w = s.distance_walked + distance;
    if w >= dists[i - 1] {
        if i == points.len() - 1 {
            (Step { distance_walked: w as i64, ..s }, None)
        } else {
            (Step { i_road_point: (i + 1) as usize, distance_walked: 0 }, Some(points[i]))
        }
    } else {
        (Step { distance_walked: w as i64, ..s }, Some(moved(pos, points[i - 1], points[i], dists[i - 1] as int, distance)))
    }
}

/// `c * distance / len` rounded toward zero, for `|c|` at most `len`.
fn along(c: i64, distance: i64, len: i64) -> (r: i64)
    requires
        1 <= len <= MAX_STRETCH,
        -len <= c <= len,
        0 <= distance <= MAX_STRETCH,
    ensures
        r == div_trunc(c * distance, len as int),
        -distance <= r <= distance,
{
    let a: i128 = if c < 0 { -(c as i128) } else { c as i128 };
    assert(0 <= a * distance <= (len as int) * distance) by (nonlinear_arith)
        requires
            0 <= a <= len,
            0 <= distance,
    ;
    assert((len as int) * distance <= 0x7fff_ffff_ffff_ffff_ffff_ffff_ffff_ffff) by (nonlinear_arith)
        requires
            1 <= len <= MAX_STRETCH,
            0 <= distance <= MAX_STRETCH,
    ;
    let p: i128 = a * (distance as i128);
    let q: i128 = p / (len as i128);
    assert(q <= distance) by (nonlinear_arith)
        requires
            q == (p as int) / (len as int),
            0 <= p <= (len as int) * distance,
            len >= 1,
    ;
    if c < 0 {
        assert(c * distance == -(a * distance)) by (nonlinear_arith)
            requires
                a == -c,
        ;
        -(q as i64)
    } else {
        q as i64
    }
}

/// An enemy's kind, wave, speeds (millimetres per second) and place on the
/// road: its own speed and the speed it has now, which a slow-down lowers
/// for a while.
#[derive(Clone, Copy, Debug, PartialEq, Eq, Structural)]
pub struct Enemy {
    step: Step,
    kind: EnemyKind,
    speed: i64,
    current_speed: i64,
    wave: usize,
}

impl Enemy {
    pub closed spec fn spec_kind(self) -> EnemyKind {
        self.kind
    }

    pub closed spec fn spec_speed(self) -> i64 {
        self.speed
    }

    pub closed spec fn spec_current_speed(self) -> i64 {
        self.current_speed
    }

    pub closed spec fn spec_wave(self) -> usize {
        self.wave
    }

    pub closed spec fn spec_step(self) -> Step {
        self.step
    }

    /// A new enemy of wave `wave` walks at its kind's speed.
    pub fn new(wave: usize, kind: EnemyKind) -> (r: Self)
        ensures
            r.spec_kind() == kind,
            r.spec_wave() == wave,
            r.spec_speed() == WALK_SPEED * spec_speed_factor(kind) / (PER_MILLE as int),
            r.spec_current_speed() == r.spec_speed(),
            r.spec_step() == (Step { i_road_point: 1, distance_walked: 0 }),
            kind == EnemyKind::Normal ==> r.spec_speed() == WALK_SPEED && r.spec_speed() == 200,
            kind == EnemyKind::Tank ==> r.spec_speed() == WALK_SPEED / 2 && r.spec_speed() == 100,
            kind == EnemyKind::Speeder ==> r.spec_speed() == 3 * WALK_SPEED && r.spec_speed() == 600,
    {
        let speed = WALK_SPEED * kind.speed_factor() / PER_MILLE;
        Self { step: Step { i_road_point: 1, distance_walked: 0 }, kind, speed, current_speed: speed, wave }
    }

    pub fn step(&self) -> (r: Step)
        ensures
            r == self.spec_step(),
    {
        self.step
    }

    /// Walks the enemy for `dur_ms` at its current speed from `pos` (see
    /// `walked`): the result is its new place, or `None` at the end of the
    /// road.
    pub fn walk(&mut self, road: &Road, pos: Vec3, dur_ms: i64) -> (r: Option<Vec3>)
        requires
            road_wf(road.points@, road.dists@),
            step_wf(old(self).spec_step(), road.points@, road.dists@),
            0 <= dur_ms <= MAX_WALK_MS,
            0 <= old(self).spec_current_speed() <= MAX_WALK_SPEED,
            coord_ok(pos),
        ensures
            (final(self).spec_step(), r) == walked(
                old(self).spec_step(),
                road.points@,
                road.dists@,
                pos,
                dur_ms * old(self).spec_current_speed() / 1000,
            ),
            final(self).spec_kind() == old(self).spec_kind(),
            final(self).spec_wave() == old(self).spec_wave(),
            final(self).spec_speed() == old(self).spec_speed(),
            final(self).spec_current_speed() == old(self).spec_current_speed(),
            r matches Some(p) ==> step_wf(final(self).spec_step(), road.points@, road.dists@),
    {
        assert(0 <= dur_ms * self.current_speed <= MAX_WALK_MS * MAX_WALK_SPEED) by (nonlinear_arith)
            requires
                0 <= dur_ms <= MAX_WALK_MS,
                0 <= self.current_speed <= MAX_WALK_SPEED,
        ;
        let distance: i64 = dur_ms * self.current_speed / 1000;
        let i = self.step.i_road_point;
        let len = road.dists[i - 1];
        let a = road.points[i - 1];
        let b = road.points[i];
        assert(stretch_ok(road.points@[i - 1], road.points@[(i - 1) + 1], road.dists@[i - 1]));
        assert(coord_ok(road.points@[i - 1]) && coord_ok(road.points@[i as int]));
        let w = self.step.distance_walked + distance;
        if w >= len {
            if i == road.points.len() - 1 {
                self.step.distance_walked = w;
                None
            } else {
                self.step = Step { i_road_point: i + 1, distance_walked: 0 };
                assert(stretch_ok(road.points@[i as int], road.points@[i + 1], road.dists@[i as int]));
                Some(b)
            }
        } else {
            self.step.distance_walked = w;
            let dx = along(b.x - a.x, distance, len);
            let dy = along(b.y - a.y, distance, len);
            let dz = along(b.z - a.z, distance, len);
            Some(Vec3 { x: pos.x + dx, y: pos.y + dy, z: pos.z + dz })
        }
    }

    pub fn kind(&self) -> (r: EnemyKind)
        ensures
            r == self.spec_kind(),
    {
        self.kind
    }

    pub fn wave(&self) -> (r: usize)
        ensures
            r == self.spec_wave(),
    {
        self.wave
    }

    pub fn speed(&self) -> (r: i64)
        ensures
            r == self.spec_speed(),
    {
        self.speed
    }

    pub fn current_speed(&self) -> (r: i64)
        ensures
            r == self.spec_current_speed(),
    {
        self.current_speed
    }

    /// Slows the enemy to `factor` (per mille) of its own speed.
    pub fn slow_down(&mut self, factor: i64)
        requires
            0 <= factor <= PER_MILLE,
            0 <= old(self).spec_speed() <= 1_000_000_000,
        ensures
            final(self).spec_current_speed() == old(self).spec_speed() * factor / (PER_MILLE as int),
            final(self).spec_speed() == old(self).spec_speed(),
            final(self).spec_kind() == old(self).spec_kind(),
            final(self).spec_wave() == old(self).spec_wave(),
            final(self).spec_step() == old(self).spec_step(),
    {
        assert(0 <= self.speed * factor <= 1_000_000_000_000) by (nonlinear_arith)
            requires
                0 <= self.speed <= 1_000_000_000,
                0 <= factor <= 1000,
        ;
        self.current_speed = self.speed * factor / PER_MILLE;
    }

    /// A slowed enemy speeds up again over `delta_ms`, up to its own speed.
    pub fn recover_speed(&mut self, delta_ms: i64)
        requires
            0 <= delta_ms <= 1_000_000_000,
            0 <= old(self).spec_current_speed(),
            old(self).spec_speed() <= 1_000_000_000,
        ensures
            old(self).spec_current_speed() < old(self).spec_speed() ==> final(self).spec_current_speed()
                == crate::units::spec_clamp(old(self).spec_current_speed() + delta_ms * RECOVER_SPEED / 1000,
                    0, old(self).spec_speed() as int),
            old(self).spec_current_speed() >= old(self).spec_speed() ==> *final(self) == *old(self),
            final(self).spec_speed() == old(self).spec_speed(),
            final(self).spec_kind() == old(self).spec_kind(),
            final(self).spec_wave() == old(self).spec_wave(),
    {
        if self.current_speed < self.speed {
            let up = self.current_speed + delta_ms * RECOVER_SPEED / 1000;
            self.current_speed = crate::units::clamp(up, 0, self.speed);
        }
    }
}

/// An enemy of a wave and kind is to enter the road.
#[derive(Clone, Copy, Debug, PartialEq, Eq, Structural)]
pub struct SpawnEnemyEvent {
    pub wave: usize,
    pub kind: EnemyKind,
}

/// The tower that damaged the enemy last, if any.
#[derive(Clone, Copy, Debug, PartialEq, Eq, Structural)]
pub struct LastDamager(pub Option<EntityId>);

/// An enemy was removed.
#[derive(Clone, Copy, Debug, PartialEq, Eq, Structural)]
pub struct OnEnemyDespawnEvent(pub EntityId);

/// How much an enemy keeps of the ball's speed on a hit, per mille.
#[derive(Clone, Copy, Debug, PartialEq, Eq, Structural)]
pub struct BallSlowDown(pub i64);

/// Tanks take a tenth of the ball's speed.
pub const TANK_SLOW_DOWN: i64 = 900;

pub fn ball_slow_down(kind: EnemyKind) -> (r: BallSlowDown)
    ensures
        r == BallSlowDown(if kind == EnemyKind::Tank { TANK_SLOW_DOWN } else { PER_MILLE }),
        kind == EnemyKind::Tank ==> r.0 == 900,
        kind != EnemyKind::Tank ==> r.0 == 1000,
{
    match kind {
        EnemyKind::Tank => BallSlowDown(TANK_SLOW_DOWN),
        _ => BallSlowDown(PER_MILLE),
    }
}

/// The wave number, capped at `u16::MAX`.
pub fn wave_sat(wave: usize) -> (r: u16)
    ensures
        r == if wave <= u16::MAX { wave as u16 } else { u16::MAX },
{
    if wave <= 65535 {
        wave as u16
    } else {
        65535
    }
}

/// Enemies of each kind walk at their own pace and take their own beating:
/// a tank walks at half the speed of a normal enemy and a speeder at three
/// times it; a tank has three times the health of a normal enemy and a
/// speeder half of it.
pub proof fn kinds_differ_in_speed_and_health()
    ensures
        WALK_SPEED * spec_speed_factor(EnemyKind::Normal) / (PER_MILLE as int) == WALK_SPEED,
        WALK_SPEED * spec_speed_factor(EnemyKind::Tank) / (PER_MILLE as int) == WALK_SPEED / 2,
        WALK_SPEED * spec_speed_factor(EnemyKind::Speeder) / (PER_MILLE as int) == 3 * WALK_SPEED,
        2 * spec_speed_factor(EnemyKind::Tank) == spec_speed_factor(EnemyKind::Normal),
        spec_speed_factor(EnemyKind::Speeder) == 3 * spec_speed_factor(EnemyKind::Normal),
        spec_health_factor(EnemyKind::Tank) == 3 * spec_health_factor(EnemyKind::Normal),
        2 * spec_health_factor(EnemyKind::Speeder) == spec_health_factor(EnemyKind::Normal),
        spec_speed_factor(EnemyKind::Normal) == PER_MILLE,
        spec_health_factor(EnemyKind::Normal) == PER_MILLE,
{
}

/// Health of a new enemy, milli points: 100 points, half again per wave,
/// scaled by its kind.
pub fn enemy_max_health(wave: usize, kind: EnemyKind) -> (r: i64)
    ensures
        r == 50 * (2 + (if wave <= u16::MAX { wave as int } else { u16::MAX as int })) * spec_health_factor(kind),
{
    let w = wave_sat(wave) as i64;
    50 * (2 + w) * kind.health_factor()
}

/// The colour of the enemies of a wave: from orange to dark blue over the
/// first hundred waves. Hue in milli degrees, saturation and lightness per
/// mille.
pub fn enemy_color(wave: usize) -> (r: (i64, i64, i64))
    ensures
        ({
            let w = if wave <= u16::MAX { wave as int } else { u16::MAX as int };
            let t = if w * 10 < 1000 { w * 10 } else { 1000 };
            r == ((30_000 + 190 * t) as i64, 900i64, (600 - 550 * t / 1000) as i64)
        }),
{
    let w = wave_sat(wave) as i64;
    let t = if w * 10 < 1000 { w * 10 } else { 1000 };
    (30_000 + 190 * t, 900, 600 - 550 * t / 1000)
}

/// What the ball does to an enemy it hits: the damage, and whether the
/// balls lose speed (to `slow_down` per mille of it).
pub fn on_pinball_hit(id: EntityId, slow_down: BallSlowDown, damage: i64) -> (r: (ChangeHealthEvent, Option<i64>, SoundEvent))
    ensures
        r.0.spec_id() == id && r.0.spec_amount() == damage,
        r.1 == if slow_down.0 < PER_MILLE { Some(slow_down.0) } else { None::<i64> },
        r.2 == SoundEvent::BallHitsEnemy,
{
    let slow = if slow_down.0 < PER_MILLE { Some(slow_down.0) } else { None };
    (ChangeHealthEvent::new(id, damage), slow, SoundEvent::BallHitsEnemy)
}

/// An enemy without health is removed and is worth points.
pub fn on_health_empty(id: EntityId) -> (r: (OnEnemyDespawnEvent, PointsEvent))
    ensures
        r == (OnEnemyDespawnEvent(id), PointsEvent::EnemyDied),
{
    (OnEnemyDespawnEvent(id), PointsEvent::EnemyDied)
}

/// Life the player loses when an enemy reaches the end of the road: a tenth
/// of the bar.
pub const ROAD_END_DAMAGE: i64 = -72072;

/// An enemy at the end of the road costs the player life, with a sound.
pub fn on_road_end_reached(life_bar: EntityId) -> (r: (ProgressBarCountUpEvent, SoundEvent))
    ensures
        r.0.spec_rel_id() == life_bar,
        r.0.spec_amount() == ROAD_END_DAMAGE,
        r.0.spec_amount() * 10 == -PROGRESS_ONE,
        r.1 == SoundEvent::EnemyReachEnd,
{
    (ProgressBarCountUpEvent::new(life_bar, ROAD_END_DAMAGE), SoundEvent::EnemyReachEnd)
}

} // verus!
