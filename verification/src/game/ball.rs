//! The pinball: leaving the table, collisions, nudging.
use vstd::prelude::*;
use crate::entity::EntityId;
use crate::geometry::Vec3;
use crate::units::{div_trunc, integer_sqrt, is_isqrt, isqrt, lemma_div_trunc_bound, scale_toward_zero};
use super::audio::SoundEvent;
use super::pinball_menu::PinballMenuEvent;

verus! {

/// Marks the pinball.
#[derive(Clone, Copy, Debug, PartialEq, Eq, Structural)]
pub struct PinBall;

/// The ball touched the carried object.
#[derive(Clone, Copy, Debug, PartialEq, Eq, Structural)]
pub struct CollisionWithBallEvent(pub EntityId);

/// A ball left the table.
#[derive(Clone, Copy, Debug, PartialEq, Eq, Structural)]
pub struct OnBallDespawnEvent;

/// The player nudged the table.
#[derive(Clone, Copy, Debug, PartialEq, Eq, Structural)]
pub struct NudgeEvent;

/// The table, in millimetres: x in `[X_MIN, X_MAX)`, y in `[Y_MIN, Y_MAX)`.
pub const X_MIN: i64 = -1300;
pub const X_MAX: i64 = 1300;
pub const Y_MIN: i64 = -720;
pub const Y_MAX: i64 = 720;
/// The opening behind the ball starter: a ball that leaves with x beyond
/// `HIT_X` and y in `[HIT_Y_MIN, HIT_Y_MAX)` costs life.
pub const HIT_X: i64 = 1200;
pub const HIT_Y_MIN: i64 = -200;
pub const HIT_Y_MAX: i64 = 120;
/// Top speed of a ball, millimetres per second.
pub const MAX_BALL_SPEED: i64 = 10000;
/// Life lost by a ball that leaves through the opening, milli points.
pub const LEAVE_DAMAGE: i64 = -5000;

pub open spec fn on_table(p: Vec3) -> bool {
    X_MIN <= p.x < X_MAX && Y_MIN <= p.y < Y_MAX
}

/// The table reaches 1.3 m either way along x and 0.72 m either way along
/// y; the opening behind the ball starter lies beyond 1.2 m along x, from
/// -0.2 m to 0.12 m along y.
pub proof fn table_bounds(p: Vec3)
    ensures
        on_table(p) <==> -1300 <= p.x < 1300 && -720 <= p.y < 720,
        HIT_X == 1200 && HIT_Y_MIN == -200 && HIT_Y_MAX == 120,
{
}

/// What happens to a ball at `pos`.
#[derive(Clone, Copy, Debug, PartialEq, Eq, Structural)]
pub struct BallReset {
    /// The ball left the table and is removed.
    pub despawn: bool,
    /// The ball left through the opening and the player loses life.
    pub hurts_life: bool,
}

pub fn ball_reset(pos: Vec3) -> (r: BallReset)
    ensures
        r.despawn == !on_table(pos),
        r.hurts_life == (!on_table(pos) && pos.x > HIT_X && HIT_Y_MIN <= pos.y < HIT_Y_MAX),
{
    let inside = X_MIN <= pos.x && pos.x < X_MAX && Y_MIN <= pos.y && pos.y < Y_MAX;
    if !inside {
        BallReset {
            despawn: true,
            hurts_life: pos.x > HIT_X && HIT_Y_MIN <= pos.y && pos.y < HIT_Y_MAX,
        }
    } else {
        BallReset { despawn: false, hurts_life: false }
    }
}

/// Largest coordinate of a velocity that `clamp_ball_speed` takes.
pub const MAX_COORD: i64 = 0x4000_0000_0000_0000;

/// The squared speed of a ball in the table plane (x, y), (mm/s)².
pub open spec fn speed2(v: Vec3) -> int {
    v.x * v.x + v.y * v.y
}

/// The square root of `n`, rounded up.
pub open spec fn ceil_sqrt(n: int) -> int {
    if isqrt(n) * isqrt(n) == n {
        isqrt(n)
    } else {
        isqrt(n) + 1
    }
}

/// A ball faster than `MAX_BALL_SPEED` is slowed to that speed, its
/// direction kept: each coordinate in the table plane is scaled by
/// `MAX_BALL_SPEED / speed`, with the speed rounded up and each coordinate
/// rounded toward zero. Slower balls keep their velocity.
pub open spec fn clamped_speed(v: Vec3) -> Vec3 {
    if speed2(v) > MAX_BALL_SPEED * MAX_BALL_SPEED {
        let d = ceil_sqrt(speed2(v));
        Vec3 {
            x: div_trunc(v.x * MAX_BALL_SPEED, d) as i64,
            y: div_trunc(v.y * MAX_BALL_SPEED, d) as i64,
            z: v.z,
        }
    } else {
        v
    }
}

/// Scaled coordinates whose magnitudes are at most `m / d` of the
/// originals, where `d` is at least the old speed, are no faster than `m`.
proof fn lemma_scaled_speed(x: int, y: int, rx: int, ry: int, d: int, m: int)
    requires
        d > 0,
        m >= 0,
        (if rx < 0 { -rx } else { rx }) * d <= (if x < 0 { -x } else { x }) * m,
        (if ry < 0 { -ry } else { ry }) * d <= (if y < 0 { -y } else { y }) * m,
        x * x + y * y <= d * d,
    ensures
        rx * rx + ry * ry <= m * m,
{
    let ax = if x < 0 { -x } else { x };
    let ay = if y < 0 { -y } else { y };
    let arx = if rx < 0 { -rx } else { rx };
    let ary = if ry < 0 { -ry } else { ry };
    assert(arx * arx == rx * rx && ary * ary == ry * ry && ax * ax == x * x && ay * ay == y * y)
        by (nonlinear_arith)
        requires
            arx == rx || arx == -rx,
            ary == ry || ary == -ry,
            ax == x || ax == -x,
            ay == y || ay == -y,
    ;
    assert(rx * rx * (d * d) <= x * x * (m * m)) by (nonlinear_arith)
        requires
            0 <= arx * d <= ax * m,
            arx * arx == rx * rx,
            ax * ax == x * x,
    ;
    assert(ry * ry * (d * d) <= y * y * (m * m)) by (nonlinear_arith)
        requires
            0 <= ary * d <= ay * m,
            ary * ary == ry * ry,
            ay * ay == y * y,
    ;
    assert((rx * rx + ry * ry) * (d * d) <= (x * x + y * y) * (m * m)) by (nonlinear_arith)
        requires
            rx * rx * (d * d) <= x * x * (m * m),
            ry * ry * (d * d) <= y * y * (m * m),
    ;
    assert((x * x + y * y) * (m * m) <= (d * d) * (m * m)) by (nonlinear_arith)
        requires
            x * x + y * y <= d * d,
    ;
    assert(rx * rx + ry * ry <= m * m) by (nonlinear_arith)
        requires
            (rx * rx + ry * ry) * (d * d) <= (d * d) * (m * m),
            d > 0,
    ;
}

/// A ball faster than `MAX_BALL_SPEED` is slowed to at most that speed,
/// keeping its direction; a slower ball keeps its velocity.
pub fn clamp_ball_speed(v: Vec3) -> (r: Vec3)
    requires
        -MAX_COORD <= v.x <= MAX_COORD,
        -MAX_COORD <= v.y <= MAX_COORD,
    ensures
        r == clamped_speed(v),
        speed2(r) <= MAX_BALL_SPEED * MAX_BALL_SPEED,
        speed2(v) <= MAX_BALL_SPEED * MAX_BALL_SPEED ==> r == v,
{
    assert(v.x * v.x <= MAX_COORD * MAX_COORD && v.y * v.y <= MAX_COORD * MAX_COORD) by (nonlinear_arith)
        requires
            -MAX_COORD <= v.x <= MAX_COORD,
            -MAX_COORD <= v.y <= MAX_COORD,
    ;
    assert(v.x * v.x >= 0 && v.y * v.y >= 0) by (nonlinear_arith);
    let xx: i128 = (v.x as i128) * (v.x as i128);
    let yy: i128 = (v.y as i128) * (v.y as i128);
    let n: i128 = xx + yy;
    let max2: i128 = (MAX_BALL_SPEED as i128) * (MAX_BALL_SPEED as i128);
    if n <= max2 {
        return v;
    }
    let s: u64 = integer_sqrt(n as u128);
    let d: u64 = if (s as u128) * (s as u128) == n as u128 {
        s
    } else {
        s + 1
    };
    proof {
        assert(is_isqrt(n as int, s as int));
        assert((MAX_BALL_SPEED as int) < s + 1) by (nonlinear_arith)
            requires
                MAX_BALL_SPEED * MAX_BALL_SPEED < n,
                n < (s + 1) * (s + 1),
                s >= 0,
        ;
        assert(n <= (d as int) * (d as int)) by (nonlinear_arith)
            requires
                d == s || (d == s + 1 && n < (s + 1) * (s + 1)),
                d == s ==> s * s == n,
        ;
        assert(d as int == ceil_sqrt(n as int));
    }
    let rx = scale_toward_zero(v.x, MAX_BALL_SPEED as u64, d as u128);
    let ry = scale_toward_zero(v.y, MAX_BALL_SPEED as u64, d as u128);
    proof {
        lemma_div_trunc_bound(v.x as int, MAX_BALL_SPEED as int, d as int);
        lemma_div_trunc_bound(v.y as int, MAX_BALL_SPEED as int, d as int);
        lemma_scaled_speed(v.x as int, v.y as int, rx as int, ry as int, d as int, MAX_BALL_SPEED as int);
    }
    Vec3 { x: rx, y: ry, z: v.z }
}

/// After a ball left the table the pinball menu closes and the end sound
/// plays, once however many balls left.
pub fn on_ball_despawn(evs: &Vec<OnBallDespawnEvent>) -> (r: Option<(PinballMenuEvent, SoundEvent)>)
    ensures
        r == if evs@.len() > 0 {
            Some((PinballMenuEvent::Deactivate, SoundEvent::BallHitsEnd))
        } else {
            None::<(PinballMenuEvent, SoundEvent)>
        },
{
    if evs.len() > 0 {
        Some((PinballMenuEvent::Deactivate, SoundEvent::BallHitsEnd))
    } else {
        None
    }
}

pub open spec fn contains_id(s: Seq<EntityId>, e: EntityId) -> bool {
    exists|i: int| 0 <= i < s.len() && s[i] == e
}

pub(crate) fn has_id(s: &Vec<EntityId>, e: EntityId) -> (r: bool)
    ensures
        r == contains_id(s@, e),
{
    let mut i: usize = 0;
    while i < s.len()
        invariant
            i <= s@.len(),
            forall|j: int| 0 <= j < i ==> s@[j] != e,
        decreases s@.len() - i,
    {
        if s[i] == e {
            return true;
        }
        i = i + 1;
    }
    false
}

/// The other party of a collision that involves a ball.
pub open spec fn ball_partner(pair: (EntityId, EntityId), balls: Seq<EntityId>) -> Option<EntityId> {
    if contains_id(balls, pair.0) {
        Some(pair.1)
    } else if contains_id(balls, pair.1) {
        Some(pair.0)
    } else {
        None
    }
}

pub open spec fn ball_partners(starts: Seq<(EntityId, EntityId)>, balls: Seq<EntityId>) -> Seq<EntityId>
    decreases starts.len(),
{
    if starts.len() == 0 {
        Seq::empty()
    } else {
        let prev = ball_partners(starts.drop_last(), balls);
        match ball_partner(starts.last(), balls) {
            Some(e) => prev.push(e),
            None => prev,
        }
    }
}

/// For the collisions that started this frame, in order, what each ball
/// touched.
pub fn get_ball_collisions(starts: &Vec<(EntityId, EntityId)>, balls: &Vec<EntityId>) -> (r: Vec<EntityId>)
    ensures
        r@ == ball_partners(starts@, balls@),
{
    let mut r: Vec<EntityId> = Vec::new();
    let mut i: usize = 0;
    while i < starts.len()
        invariant
            i <= starts@.len(),
            r@ == ball_partners(starts@.subrange(0, i as int), balls@),
        decreases starts@.len() - i,
    {
        assert(starts@.subrange(0, i + 1).drop_last() =~= starts@.subrange(0, i as int));
        let (c1, c2) = starts[i];
        if has_id(balls, c1) {
            r.push(c2);
        } else if has_id(balls, c2) {
            r.push(c1);
        }
        i = i + 1;
    }
    assert(starts@.subrange(0, starts@.len() as int) =~= starts@);
    r
}

/// What the ball touched: the object, whether it is the table frame, and the
/// points it is worth when hit, if any.
#[derive(Clone, Copy, Debug, PartialEq, Eq, Structural)]
pub struct BallContact {
    pub id: EntityId,
    pub is_frame: bool,
    pub points: Option<u32>,
}

pub open spec fn contact_points(cs: Seq<BallContact>) -> Seq<u32>
    decreases cs.len(),
{
    if cs.len() == 0 {
        Seq::empty()
    } else {
        let prev = contact_points(cs.drop_last());
        let c = cs.last();
        match c.points {
            Some(p) if !c.is_frame => prev.push(p),
            _ => prev,
        }
    }
}

/// For each contact, in order, a collision event; and the points won: those
/// of every contact that is worth points and is not the frame.
pub fn on_collision_with_ball(contacts: &Vec<BallContact>) -> (r: (Vec<CollisionWithBallEvent>, Vec<u32>))
    ensures
        r.0@.len() == contacts@.len(),
        forall|i: int| 0 <= i < contacts@.len() ==> #[trigger] r.0@[i] == CollisionWithBallEvent(contacts@[i].id),
        r.1@ == contact_points(contacts@),
{
    let mut evs: Vec<CollisionWithBallEvent> = Vec::new();
    let mut pts: Vec<u32> = Vec::new();
    let mut i: usize = 0;
    while i < contacts.len()
        invariant
            i <= contacts@.len(),
            evs@.len() == i,
            forall|j: int| 0 <= j < i ==> #[trigger] evs@[j] == CollisionWithBallEvent(contacts@[j].id),
            pts@ == contact_points(contacts@.subrange(0, i as int)),
        decreases contacts@.len() - i,
    {
        assert(contacts@.subrange(0, i + 1).drop_last() =~= contacts@.subrange(0, i as int));
        let c = contacts[i];
        evs.push(CollisionWithBallEvent(c.id));
        match c.points {
            Some(p) => {
                if !c.is_frame {
                    pts.push(p);
                }
            },
            None => {},
        }
        i = i + 1;
    }
    assert(contacts@.subrange(0, contacts@.len() as int) =~= contacts@);
    (evs, pts)
}

pub open spec fn wall_hits(evs: Seq<CollisionWithBallEvent>, walls: Seq<EntityId>) -> nat
    decreases evs.len(),
{
    if evs.len() == 0 {
        0
    } else {
        wall_hits(evs.drop_last(), walls) + if contains_id(walls, evs.last().0) { 1nat } else { 0nat }
    }
}

/// One wall sound for each collision with a wall.
pub fn on_wall_collision(evs: &Vec<CollisionWithBallEvent>, walls: &Vec<EntityId>) -> (r: Vec<SoundEvent>)
    ensures
        r@.len() == wall_hits(evs@, walls@),
        forall|i: int| 0 <= i < r@.len() ==> #[trigger] r@[i] == SoundEvent::BallHitsWall,
{
    let mut r: Vec<SoundEvent> = Vec::new();
    let mut i: usize = 0;
    while i < evs.len()
        invariant
            i <= evs@.len(),
            r@.len() == wall_hits(evs@.subrange(0, i as int), walls@),
            forall|j: int| 0 <= j < r@.len() ==> #[trigger] r@[j] == SoundEvent::BallHitsWall,
        decreases evs@.len() - i,
    {
        assert(evs@.subrange(0, i + 1).drop_last() =~= evs@.subrange(0, i as int));
        if has_id(walls, evs[i].0) {
            r.push(SoundEvent::BallHitsWall);
        }
        i = i + 1;
    }
    assert(evs@.subrange(0, evs@.len() as int) =~= evs@);
    r
}

/// A nudge key press pushes every ball and reports the nudge.
pub fn nudge(just_pressed: bool) -> (r: Option<NudgeEvent>)
    ensures
        r == if just_pressed { Some(NudgeEvent) } else { None::<NudgeEvent> },
{
    if just_pressed {
        Some(NudgeEvent)
    } else {
        None
    }
}

/// Reach of a ball beyond an enemy's own radius, millimetres.
pub const ENEMY_OVERLAP_RADIUS: i64 = 30;
/// Largest collider radius the overlap test takes, millimetres.
pub const MAX_RADIUS: i64 = 1_000_000_000;

/// An enemy near the ball: its id, position and collider radius.
#[derive(Clone, Copy, Debug, PartialEq, Eq, Structural)]
pub struct EnemyDisc {
    pub id: EntityId,
    pub pos: Vec3,
    pub radius: i64,
}

/// Ball and enemy overlap on the table plane.
pub open spec fn overlaps(ball: Vec3, e: EnemyDisc) -> bool {
    let dx = ball.x - e.pos.x;
    let dy = ball.y - e.pos.y;
    let r = e.radius + ENEMY_OVERLAP_RADIUS;
    dx * dx + dy * dy <= r * r
}

fn overlaps_exec(ball: Vec3, e: EnemyDisc) -> (r: bool)
    requires
        0 <= e.radius <= MAX_RADIUS,
    ensures
        r == overlaps(ball, e),
{
    let dx: i128 = ball.x as i128 - e.pos.x as i128;
    let dy: i128 = ball.y as i128 - e.pos.y as i128;
    let rr: i128 = e.radius as i128 + ENEMY_OVERLAP_RADIUS as i128;
    if dx > rr || dx < -rr || dy > rr || dy < -rr {
        assert(dx * dx > rr * rr || dy * dy > rr * rr) by (nonlinear_arith)
            requires
                dx > rr || dx < -rr || dy > rr || dy < -rr,
                rr >= 0,
        ;
        assert(dx * dx >= 0 && dy * dy >= 0) by (nonlinear_arith);
        false
    } else {
        assert(0 <= dx * dx <= rr * rr && 0 <= dy * dy <= rr * rr && rr * rr <= 2_000_000_000_000_000_000) by (nonlinear_arith)
            requires
                -rr <= dx <= rr,
                -rr <= dy <= rr,
                0 <= rr <= 1_000_000_030,
        ;
        dx * dx + dy * dy <= rr * rr
    }
}

pub open spec fn overlapping(ball: Vec3, es: Seq<EnemyDisc>) -> Seq<EntityId>
    decreases es.len(),
{
    if es.len() == 0 {
        Seq::empty()
    } else {
        let prev = overlapping(ball, es.drop_last());
        if overlaps(ball, es.last()) {
            prev.push(es.last().id)
        } else {
            prev
        }
    }
}

pub open spec fn new_overlaps(ball: Vec3, es: Seq<EnemyDisc>, prev: Seq<EntityId>) -> Seq<EntityId>
    decreases es.len(),
{
    if es.len() == 0 {
        Seq::empty()
    } else {
        let before = new_overlaps(ball, es.drop_last(), prev);
        if overlaps(ball, es.last()) && !contains_id(prev, es.last().id) {
            before.push(es.last().id)
        } else {
            before
        }
    }
}

/// No two enemies share an id.
pub open spec fn distinct_ids(es: Seq<EnemyDisc>) -> bool {
    forall|i: int, j: int| 0 <= i < j < es.len() ==> es[i].id != es[j].id
}

/// Each id that `overlapping` or `new_overlaps` lists is that of an enemy
/// that overlaps the ball; a newly overlapping one is not in `prev`.
proof fn lemma_overlaps_from(ball: Vec3, es: Seq<EnemyDisc>, prev: Seq<EntityId>)
    ensures
        forall|k: int| 0 <= k < overlapping(ball, es).len() ==> exists|i: int|
            0 <= i < es.len() && es[i].id == #[trigger] overlapping(ball, es)[k] && overlaps(ball, es[i]),
        forall|k: int| 0 <= k < new_overlaps(ball, es, prev).len() ==> exists|i: int|
            0 <= i < es.len() && es[i].id == #[trigger] new_overlaps(ball, es, prev)[k] && overlaps(ball, es[i])
                && !contains_id(prev, es[i].id),
    decreases es.len(),
{
    if es.len() > 0 {
        let init = es.drop_last();
        lemma_overlaps_from(ball, init, prev);
        assert forall|k: int| 0 <= k < overlapping(ball, es).len() implies exists|i: int|
            0 <= i < es.len() && es[i].id == #[trigger] overlapping(ball, es)[k] && overlaps(ball, es[i]) by {
            if k < overlapping(ball, init).len() {
                let i = choose|i: int| 0 <= i < init.len() && init[i].id == overlapping(ball, init)[k] && overlaps(ball, init[i]);
                assert(es[i] == init[i]);
            } else {
                assert(es[es.len() - 1] == es.last());
            }
        }
        assert forall|k: int| 0 <= k < new_overlaps(ball, es, prev).len() implies exists|i: int|
            0 <= i < es.len() && es[i].id == #[trigger] new_overlaps(ball, es, prev)[k] && overlaps(ball, es[i])
                && !contains_id(prev, es[i].id) by {
            if k < new_overlaps(ball, init, prev).len() {
                let i = choose|i: int| 0 <= i < init.len() && init[i].id == new_overlaps(ball, init, prev)[k]
                    && overlaps(ball, init[i]) && !contains_id(prev, init[i].id);
                assert(es[i] == init[i]);
            } else {
                assert(es[es.len() - 1] == es.last());
            }
        }
    }
}

/// Where no two enemies share an id, the enemies that overlap the ball are
/// each listed once, and so are those newly overlapping; each listed enemy
/// overlaps the ball, and a newly overlapping one was not listed in the
/// previous frame.
pub proof fn overlaps_listed_once(ball: Vec3, es: Seq<EnemyDisc>, prev: Seq<EntityId>)
    requires
        distinct_ids(es),
    ensures
        overlapping(ball, es).no_duplicates(),
        new_overlaps(ball, es, prev).no_duplicates(),
        forall|k: int| 0 <= k < overlapping(ball, es).len() ==> exists|i: int|
            0 <= i < es.len() && es[i].id == #[trigger] overlapping(ball, es)[k] && overlaps(ball, es[i]),
        forall|k: int| 0 <= k < new_overlaps(ball, es, prev).len() ==> exists|i: int|
            0 <= i < es.len() && es[i].id == #[trigger] new_overlaps(ball, es, prev)[k] && overlaps(ball, es[i])
                && !contains_id(prev, es[i].id),
    decreases es.len(),
{
    lemma_overlaps_from(ball, es, prev);
    if es.len() > 0 {
        let init = es.drop_last();
        assert(distinct_ids(init)) by {
            assert forall|i: int, j: int| 0 <= i < j < init.len() implies init[i].id != init[j].id by {
                assert(init[i] == es[i] && init[j] == es[j]);
            }
        }
        overlaps_listed_once(ball, init, prev);
        let last = es.last();
        assert forall|k: int| 0 <= k < overlapping(ball, init).len() implies #[trigger] overlapping(ball, init)[k] != last.id by {
            let i = choose|i: int| 0 <= i < init.len() && init[i].id == overlapping(ball, init)[k] && overlaps(ball, init[i]);
            assert(es[i] == init[i]);
            assert(es[es.len() - 1] == last);
        }
        assert forall|k: int| 0 <= k < new_overlaps(ball, init, prev).len() implies #[trigger] new_overlaps(ball, init, prev)[k] != last.id by {
            let i = choose|i: int| 0 <= i < init.len() && init[i].id == new_overlaps(ball, init, prev)[k]
                && overlaps(ball, init[i]) && !contains_id(prev, init[i].id);
            assert(es[i] == init[i]);
            assert(es[es.len() - 1] == last);
        }
        let a = overlapping(ball, init);
        let b = new_overlaps(ball, init, prev);
        assert(overlapping(ball, es).no_duplicates()) by {
            if overlaps(ball, last) {
                assert forall|i: int, j: int| 0 <= i < a.push(last.id).len() && 0 <= j < a.push(last.id).len() && i != j
                    implies a.push(last.id)[i] != a.push(last.id)[j] by {
                    if i < a.len() && j < a.len() {
                    } else if i < a.len() {
                        assert(a[i] != last.id);
                    } else {
                        assert(a[j] != last.id);
                    }
                }
            }
        }
        assert(new_overlaps(ball, es, prev).no_duplicates()) by {
            if overlaps(ball, last) && !contains_id(prev, last.id) {
                assert forall|i: int, j: int| 0 <= i < b.push(last.id).len() && 0 <= j < b.push(last.id).len() && i != j
                    implies b.push(last.id)[i] != b.push(last.id)[j] by {
                    if i < b.len() && j < b.len() {
                    } else if i < b.len() {
                        assert(b[i] != last.id);
                    } else {
                        assert(b[j] != last.id);
                    }
                }
            }
        }
    }
}

/// Enemies can be too small for the physics engine to report a touch: the
/// enemies that overlap the ball now, in order, and a collision event for
/// each of them that did not overlap it in the previous frame.
pub fn enemy_ball_overlap(ball: Vec3, enemies: &Vec<EnemyDisc>, prev: &Vec<EntityId>) -> (r: (Vec<EntityId>, Vec<CollisionWithBallEvent>))
    requires
        forall|i: int| 0 <= i < enemies@.len() ==> 0 <= #[trigger] enemies@[i].radius <= MAX_RADIUS,
    ensures
        r.0@ == overlapping(ball, enemies@),
        distinct_ids(enemies@) ==> r.0@.no_duplicates(),
        r.1@.len() == new_overlaps(ball, enemies@, prev@).len(),
        forall|i: int| 0 <= i < r.1@.len() ==> #[trigger] r.1@[i] == CollisionWithBallEvent(new_overlaps(ball, enemies@, prev@)[i]),
{
    let mut now: Vec<EntityId> = Vec::new();
    let mut fresh: Vec<EntityId> = Vec::new();
    let mut evs: Vec<CollisionWithBallEvent> = Vec::new();
    let mut i: usize = 0;
    while i < enemies.len()
        invariant
            i <= enemies@.len(),
            forall|j: int| 0 <= j < enemies@.len() ==> 0 <= #[trigger] enemies@[j].radius <= MAX_RADIUS,
            now@ == overlapping(ball, enemies@.subrange(0, i as int)),
            fresh@ == new_overlaps(ball, enemies@.subrange(0, i as int), prev@),
            evs@.len() == fresh@.len(),
            forall|j: int| 0 <= j < evs@.len() ==> #[trigger] evs@[j] == CollisionWithBallEvent(fresh@[j]),
        decreases enemies@.len() - i,
    {
        assert(enemies@.subrange(0, i + 1).drop_last() =~= enemies@.subrange(0, i as int));
        let e = enemies[i];
        if overlaps_exec(ball, e) {
            now.push(e.id);
            if !has_id(prev, e.id) {
                fresh.push(e.id);
                evs.push(CollisionWithBallEvent(e.id));
            }
        }
        i = i + 1;
    }
    assert(enemies@.subrange(0, enemies@.len() as int) =~= enemies@);
    proof {
        if distinct_ids(enemies@) {
            overlaps_listed_once(ball, enemies@, prev@);
        }
    }
    (now, evs)
}

} // verus!
