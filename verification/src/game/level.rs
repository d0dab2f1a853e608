//! Points and levels.
use vstd::prelude::*;
use crate::entity::EntityId;
use super::analog_counter::AnalogCounterSetEvent;
use super::light::Visibility;
use crate::units::PROGRESS_ONE;

verus! {

pub type Points = u32;
pub type Level = u8;

/// What earned points; each kind is worth a fixed number of points.
#[derive(Clone, Copy, Debug, PartialEq, Eq, Structural)]
pub enum PointsEvent {
    BallCollided,
    FlipperHit,
    FoundationHit,
    BallEnemyHit,
    TowerHit,
    EnemyDied,
    TowerUpgrade,
    TowerBuild,
}

pub open spec fn spec_points(ev: PointsEvent) -> u32 {
    match ev {
        PointsEvent::BallCollided => 1,
        PointsEvent::FlipperHit => 2,
        PointsEvent::FoundationHit => 10,
        PointsEvent::BallEnemyHit => 15,
        PointsEvent::TowerHit => 20,
        PointsEvent::EnemyDied => 85,
        PointsEvent::TowerUpgrade => 500,
        PointsEvent::TowerBuild => 1000,
    }
}

impl PointsEvent {
    pub fn points(&self) -> (r: Points)
        ensures
            r == spec_points(*self),
            *self == PointsEvent::BallCollided ==> r == 1,
            *self == PointsEvent::FlipperHit ==> r == 2,
            *self == PointsEvent::FoundationHit ==> r == 10,
            *self == PointsEvent::BallEnemyHit ==> r == 15,
            *self == PointsEvent::TowerHit ==> r == 20,
            *self == PointsEvent::EnemyDied ==> r == 85,
            *self == PointsEvent::TowerUpgrade ==> r == 500,
            *self == PointsEvent::TowerBuild ==> r == 1000,
    {
        match self {
            PointsEvent::BallCollided => 1,
            PointsEvent::FlipperHit => 2,
            PointsEvent::FoundationHit => 10,
            PointsEvent::BallEnemyHit => 15,
            PointsEvent::TowerHit => 20,
            PointsEvent::EnemyDied => 85,
            PointsEvent::TowerUpgrade => 500,
            PointsEvent::TowerBuild => 1000,
        }
    }
}

/// Points are multiplied by this in a development build.
pub const POINT_FACTOR_DEBUG: u32 = 10;
/// Points are multiplied by this in a release build.
pub const POINT_FACTOR: u32 = 1;

/// The player's points.
#[derive(Clone, Copy, Debug, PartialEq, Eq, Structural)]
pub struct PointHub(pub Points);

impl Default for PointHub {
    fn default() -> (r: Self)
        ensures
            r.0 == 0,
    {
        PointHub(0)
    }
}

/// Sum of the points of the events, each multiplied by `factor`.
pub open spec fn points_sum(evs: Seq<PointsEvent>, factor: u32) -> int
    decreases evs.len(),
{
    if evs.len() == 0 {
        0
    } else {
        points_sum(evs.drop_last(), factor) + spec_points(evs.last()) * factor
    }
}

proof fn lemma_points_sum_monotone(evs: Seq<PointsEvent>, factor: u32, n: int)
    requires
        0 <= n <= evs.len(),
    ensures
        0 <= points_sum(evs.subrange(0, n), factor) <= points_sum(evs, factor),
    decreases evs.len() - n,
{
    if n < evs.len() {
        lemma_points_sum_monotone(evs, factor, n + 1);
        assert(evs.subrange(0, n + 1).drop_last() =~= evs.subrange(0, n));
        assert(evs.subrange(0, n + 1).last() == evs[n]);
        assert(spec_points(evs[n]) * factor >= 0) by (nonlinear_arith);
        lemma_points_sum_nonneg(evs.subrange(0, n), factor);
    } else {
        assert(evs.subrange(0, n) =~= evs);
        lemma_points_sum_nonneg(evs, factor);
    }
}

proof fn lemma_points_sum_nonneg(evs: Seq<PointsEvent>, factor: u32)
    ensures
        points_sum(evs, factor) >= 0,
    decreases evs.len(),
{
    if evs.len() > 0 {
        lemma_points_sum_nonneg(evs.drop_last(), factor);
        assert(spec_points(evs.last()) * factor >= 0) by (nonlinear_arith);
    }
}

/// Each event is worth its fixed number of points, times the factor: a
/// ball collision 1, a flipper hit 2, a foundation hit 10, an enemy hit 15,
/// a tower hit 20, a dead enemy 85, a tower upgrade 500 and a tower built
/// 1000; and the points of two runs of events add up.
pub proof fn points_of_events(e: PointsEvent, evs: Seq<PointsEvent>, more: Seq<PointsEvent>, factor: u32)
    ensures
        points_sum(seq![e], factor) == factor * match e {
            PointsEvent::BallCollided => 1int,
            PointsEvent::FlipperHit => 2int,
            PointsEvent::FoundationHit => 10int,
            PointsEvent::BallEnemyHit => 15int,
            PointsEvent::TowerHit => 20int,
            PointsEvent::EnemyDied => 85int,
            PointsEvent::TowerUpgrade => 500int,
            PointsEvent::TowerBuild => 1000int,
        },
        points_sum(evs + more, factor) == points_sum(evs, factor) + points_sum(more, factor),
    decreases more.len(),
{
    assert(seq![e].drop_last() =~= Seq::<PointsEvent>::empty());
    assert(seq![e].last() == e);
    assert(points_sum(Seq::<PointsEvent>::empty(), factor) == 0);
    let p = spec_points(e) as int;
    assert(points_sum(seq![e], factor) == p * factor);
    assert(p * factor == factor * p) by (nonlinear_arith);
    if more.len() > 0 {
        points_of_events(e, evs, more.drop_last(), factor);
        assert((evs + more).drop_last() =~= evs + more.drop_last());
        assert((evs + more).last() == more.last());
    } else {
        assert(evs + more =~= evs);
    }
}

/// Adds the points of the events, each multiplied by `factor`.
pub fn on_add_points(hub: &mut PointHub, evs: &Vec<PointsEvent>, factor: u32)
    requires
        old(hub).0 + points_sum(evs@, factor) <= u32::MAX,
    ensures
        final(hub).0 == old(hub).0 + points_sum(evs@, factor),
{
    let mut i: usize = 0;
    while i < evs.len()
        invariant
            i <= evs@.len(),
            old(hub).0 + points_sum(evs@, factor) <= u32::MAX,
            hub.0 == old(hub).0 + points_sum(evs@.subrange(0, i as int), factor),
        decreases evs@.len() - i,
    {
        proof {
            assert(evs@.subrange(0, i + 1).drop_last() =~= evs@.subrange(0, i as int));
            lemma_points_sum_monotone(evs@, factor, i + 1);
        }
        let p = evs[i].points();
        hub.0 = hub.0 + p * factor;
        i = i + 1;
    }
    assert(evs@.subrange(0, evs@.len() as int) =~= evs@);
}

/// Sum of points that objects are worth, each multiplied by `factor`.
pub open spec fn worth_sum(pts: Seq<u32>, factor: u32) -> int
    decreases pts.len(),
{
    if pts.len() == 0 {
        0
    } else {
        worth_sum(pts.drop_last(), factor) + pts.last() * factor
    }
}

proof fn lemma_worth_sum_monotone(pts: Seq<u32>, factor: u32, n: int)
    requires
        0 <= n <= pts.len(),
    ensures
        0 <= worth_sum(pts.subrange(0, n), factor) <= worth_sum(pts, factor),
    decreases pts.len() - n,
{
    if n < pts.len() {
        lemma_worth_sum_monotone(pts, factor, n + 1);
        assert(pts.subrange(0, n + 1).drop_last() =~= pts.subrange(0, n));
        assert(pts.subrange(0, n + 1).last() == pts[n]);
        assert(pts[n] * factor >= 0) by (nonlinear_arith);
        lemma_worth_sum_nonneg(pts.subrange(0, n), factor);
    } else {
        assert(pts.subrange(0, n) =~= pts);
        lemma_worth_sum_nonneg(pts, factor);
    }
}

proof fn lemma_worth_sum_nonneg(pts: Seq<u32>, factor: u32)
    ensures
        worth_sum(pts, factor) >= 0,
    decreases pts.len(),
{
    if pts.len() > 0 {
        lemma_worth_sum_nonneg(pts.drop_last(), factor);
        assert(pts.last() * factor >= 0) by (nonlinear_arith);
    }
}

/// Adds the points that the hit objects are worth, each multiplied by
/// `factor`.
pub fn on_add_worth(hub: &mut PointHub, pts: &Vec<u32>, factor: u32)
    requires
        old(hub).0 + worth_sum(pts@, factor) <= u32::MAX,
    ensures
        final(hub).0 == old(hub).0 + worth_sum(pts@, factor),
{
    let mut i: usize = 0;
    while i < pts.len()
        invariant
            i <= pts@.len(),
            old(hub).0 + worth_sum(pts@, factor) <= u32::MAX,
            hub.0 == old(hub).0 + worth_sum(pts@.subrange(0, i as int), factor),
        decreases pts@.len() - i,
    {
        proof {
            assert(pts@.subrange(0, i + 1).drop_last() =~= pts@.subrange(0, i as int));
            lemma_worth_sum_monotone(pts@, factor, i + 1);
        }
        hub.0 = hub.0 + pts[i] * factor;
        i = i + 1;
    }
    assert(pts@.subrange(0, pts@.len() as int) =~= pts@);
}

/// The threshold of points for the level after `level`.
pub open spec fn threshold(level: int) -> int {
    (level * 10) * (level * 10) + (level * 10) * 200
}

/// The level and the points at which the next level starts.
#[derive(Clone, Copy, Debug, PartialEq, Eq, Structural)]
pub struct LevelHub {
    level: Level,
    points_level_up: Points,
}

impl Default for LevelHub {
    fn default() -> (r: Self)
        ensures
            r.spec_level() == 0,
            r.spec_points_level_up() == 0,
    {
        LevelHub { level: 0, points_level_up: 0 }
    }
}

impl LevelHub {
    pub closed spec fn spec_level(self) -> Level {
        self.level
    }

    pub closed spec fn spec_points_level_up(self) -> Points {
        self.points_level_up
    }

    pub fn level(&self) -> (r: Level)
        ensures
            r == self.spec_level(),
    {
        self.level
    }

    pub fn points_level_up(&self) -> (r: Points)
        ensures
            r == self.spec_points_level_up(),
    {
        self.points_level_up
    }

    /// Whether `points` reach the next level.
    pub fn is_level_up(&self, points: Points) -> (r: bool)
        ensures
            r == (points >= self.spec_points_level_up()),
    {
        points >= self.points_level_up
    }

    /// The progress a ball hit adds to a foundation: a third of a bar
    /// divided by the level (rounded down). At level zero there is no
    /// bound, and one hit fills the bar.
    pub fn foundation_hit_progress(&self) -> (r: Option<i64>)
        ensures
            self.spec_level() == 0 ==> r is None,
            self.spec_level() > 0 ==> r == Some(((PROGRESS_ONE as int) / (3 * self.spec_level())) as i64),
    {
        if self.level == 0 {
            None
        } else {
            Some(PROGRESS_ONE / (3 * self.level as i64))
        }
    }

    /// Goes up one level; the next threshold is `threshold` of the new level.
    pub fn level_up(&mut self) -> (r: Level)
        requires
            old(self).spec_level() < 255,
        ensures
            final(self).spec_level() == old(self).spec_level() + 1,
            final(self).spec_points_level_up() == threshold(final(self).spec_level() as int),
            r == final(self).spec_level(),
    {
        self.level = self.level + 1;
        let factor: u32 = self.level as u32 * 10;
        assert(factor * factor + factor * 200 <= 8_000_000) by (nonlinear_arith)
            requires
                factor <= 2550,
        ;
        self.points_level_up = factor * factor + factor * 200;
        self.level
    }
}

/// A new level was reached.
#[derive(Clone, Copy, Debug, PartialEq, Eq, Structural)]
pub struct LevelUpEvent(pub Level);

/// Points an object is worth when the ball hits it.
#[derive(Clone, Copy, Debug, PartialEq, Eq, Structural)]
pub struct BallCollisionPoints(pub Points);

/// When the points changed and reach the threshold, the level goes up by
/// one and the new level is announced.
pub fn level_up_system(level: &mut LevelHub, points_changed: bool, points: Points) -> (r: Option<LevelUpEvent>)
    requires
        old(level).spec_level() < 255,
    ensures
        points_changed && points >= old(level).spec_points_level_up() ==> {
            &&& final(level).spec_level() == old(level).spec_level() + 1
            &&& final(level).spec_points_level_up() == threshold(final(level).spec_level() as int)
            &&& r == Some(LevelUpEvent(final(level).spec_level()))
        },
        !(points_changed && points >= old(level).spec_points_level_up()) ==> {
            &&& *final(level) == *old(level)
            &&& r is None
        },
{
    if points_changed && level.is_level_up(points) {
        let new_level = level.level_up();
        Some(LevelUpEvent(new_level))
    } else {
        None
    }
}

/// The object whose counter shows the points.
#[derive(Clone, Copy, Debug, PartialEq, Eq, Structural)]
pub struct PointCounterId(pub EntityId);

impl Default for PointCounterId {
    fn default() -> (r: Self)
        ensures
            r.0.0 == 0,
    {
        PointCounterId(EntityId::placeholder())
    }
}

/// The object whose counter shows the level.
#[derive(Clone, Copy, Debug, PartialEq, Eq, Structural)]
pub struct LevelCounterId(pub EntityId);

impl Default for LevelCounterId {
    fn default() -> (r: Self)
        ensures
            r.0.0 == 0,
    {
        LevelCounterId(EntityId::placeholder())
    }
}

/// Changed points are shown on the points counter.
pub fn update_points_counter(changed: bool, points: &PointHub, pc_id: &PointCounterId) -> (r: Option<AnalogCounterSetEvent>)
    ensures
        changed ==> (r matches Some(ev) && ev.spec_rel_id() == pc_id.0 && ev.spec_number() == points.0),
        !changed ==> r is None,
{
    if changed {
        Some(AnalogCounterSetEvent::new(pc_id.0, points.0))
    } else {
        None
    }
}

/// A changed level is shown on the level counter.
pub fn update_level_counter(changed: bool, level: &LevelHub, lc_id: &LevelCounterId) -> (r: Option<AnalogCounterSetEvent>)
    ensures
        changed ==> (r matches Some(ev) && ev.spec_rel_id() == lc_id.0 && ev.spec_number() == level.spec_level() as u32),
        !changed ==> r is None,
{
    if changed {
        Some(AnalogCounterSetEvent::new(lc_id.0, level.level() as u32))
    } else {
        None
    }
}

/// The first level up comes at 2100 points, and each following threshold
/// lies `200 * level + 2100` points above the one before: the steps grow
/// by 200 points per level.
pub proof fn threshold_steps(level: int)
    requires
        0 <= level,
    ensures
        threshold(1) == 2100,
        threshold(level + 1) - threshold(level) == 200 * level + 2100,
{
    assert(((level + 1) * 10) * ((level + 1) * 10) == (level * 10) * (level * 10) + 200 * level + 100)
        by (nonlinear_arith);
    assert(threshold(1) == 2100) by (nonlinear_arith);
}

/// The thresholds grow with the level: a higher level needs more points.
pub proof fn threshold_increases(a: int, b: int)
    requires
        0 <= a < b,
    ensures
        threshold(a) < threshold(b),
{
    assert((a * 10) * (a * 10) <= (b * 10) * (b * 10)) by (nonlinear_arith)
        requires
            0 <= a < b,
    ;
}

/// After a level up the next level needs strictly more points than the one
/// just reached (for every level above the first).
pub proof fn level_up_raises_threshold(before: LevelHub, after: LevelHub)
    requires
        before.spec_level() < 255,
        before.spec_level() >= 1,
        before.spec_points_level_up() == threshold(before.spec_level() as int),
        after.spec_level() == before.spec_level() + 1,
        after.spec_points_level_up() == threshold(after.spec_level() as int),
    ensures
        after.spec_points_level_up() > before.spec_points_level_up(),
{
    threshold_increases(before.spec_level() as int, after.spec_level() as int);
}

/// How long the level-up lamp flashes, milliseconds.
pub const LEVEL_UP_FLASH_MS: i64 = 4000;

/// The lamp that flashes at a level up: whether it shows, whether it
/// flashes, and the time it has flashed so far, if it does.
#[derive(Clone, Copy, Debug, PartialEq, Eq, Structural)]
pub struct LevelUpLamp {
    pub visibility: Visibility,
    pub flashing: bool,
    pub elapsed_ms: Option<i64>,
}

/// A level up lights the lamp and starts its flashing anew.
pub fn on_level_up_lamp(level_ups: &Vec<LevelUpEvent>, lamp: &mut LevelUpLamp)
    ensures
        level_ups@.len() > 0 ==> *final(lamp) == (LevelUpLamp {
            visibility: Visibility::Inherited,
            flashing: true,
            elapsed_ms: Some(0),
        }),
        level_ups@.len() == 0 ==> *final(lamp) == *old(lamp),
{
    if level_ups.len() > 0 {
        lamp.visibility = Visibility::Inherited;
        lamp.flashing = true;
        lamp.elapsed_ms = Some(0);
    }
}

/// The lamp one frame of `delta_ms` later: a flash that has lasted
/// `LEVEL_UP_FLASH_MS` ends and hides the lamp; a shorter one goes on,
/// its time counted up to that length.
pub open spec fn lamp_after(lamp: LevelUpLamp, delta_ms: i64) -> LevelUpLamp {
    match lamp.elapsed_ms {
        Some(e) => if e >= LEVEL_UP_FLASH_MS {
            LevelUpLamp { visibility: Visibility::Hidden, flashing: false, elapsed_ms: None }
        } else {
            LevelUpLamp {
                elapsed_ms: Some(if e + delta_ms >= LEVEL_UP_FLASH_MS {
                    LEVEL_UP_FLASH_MS
                } else {
                    (e + delta_ms) as i64
                }),
                ..lamp
            }
        },
        None => lamp,
    }
}

/// Advances the flash of the level-up lamp by a frame.
pub fn level_up_animation(lamp: &mut LevelUpLamp, delta_ms: i64)
    requires
        0 <= delta_ms,
        old(lamp).elapsed_ms matches Some(e) ==> 0 <= e,
    ensures
        *final(lamp) == lamp_after(*old(lamp), delta_ms),
{
    match lamp.elapsed_ms {
        Some(e) => {
            if e >= LEVEL_UP_FLASH_MS {
                lamp.visibility = Visibility::Hidden;
                lamp.flashing = false;
                lamp.elapsed_ms = None;
            } else if delta_ms >= LEVEL_UP_FLASH_MS - e {
                lamp.elapsed_ms = Some(LEVEL_UP_FLASH_MS);
            } else {
                lamp.elapsed_ms = Some(e + delta_ms);
            }
        },
        None => {},
    }
}

} // verus!
