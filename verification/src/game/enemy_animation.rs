//! How the animations of an enemy model are blended: walking, curving,
//! turning on the spot and standing still, by its speed and turn.
use vstd::prelude::*;
use crate::units::spec_clamp;

verus! {

/// The animation clips an enemy model can have.
#[derive(Clone, Copy, Debug, PartialEq, Eq, Structural)]
pub enum Clip {
    Idle,
    Walk,
    WalkLeft,
    WalkRight,
    TurnLeft,
    TurnRight,
}

/// How a model moves in its walk clip: the walking speed it was made for
/// (mm/s), its scale (per mille), and the turn speeds (mrad/s) its curve
/// and turn clips stand for.
#[derive(Clone, Copy, Debug, PartialEq, Eq, Structural)]
pub struct ModelConfig {
    pub walk_speed: i64,
    pub scale: i64,
    pub curve_speed: i64,
    pub turn_speed: i64,
}

/// Turns slower than this (mrad/s) count as none.
pub const MIN_TURN: i64 = 10;

pub open spec fn has_clip(clips: Seq<Clip>, k: Clip) -> bool {
    exists|i: int| 0 <= i < clips.len() && clips[i] == k
}

pub open spec fn abs(v: int) -> int {
    if v < 0 {
        -v
    } else {
        v
    }
}

/// The walk rate (per mille of the clip's own pace) of a model moving at
/// `speed`.
pub open spec fn walk_rate(cfg: ModelConfig, speed: int) -> int {
    speed * 1_000_000 / (cfg.walk_speed * cfg.scale)
}

/// The share (per mille) of the curve clip while walking at `rate` and
/// turning at `yaw`: the turn as a share of what the curve clip shows at
/// that rate, at most all of it.
pub open spec fn curve_amount(cfg: ModelConfig, rate: int, yaw: int) -> int {
    if rate == 0 {
        if yaw == 0 {
            0
        } else {
            1000
        }
    } else {
        spec_clamp(abs(yaw) * 1_000_000 / (cfg.curve_speed * rate), 0, 1000)
    }
}

/// The clips to blend and their weights (per mille). A model that stands
/// plays its turn clip when it turns and has one, else idle, else walk. A
/// moving model walks, blended with its curve clip toward the side it
/// turns to when it has one.
pub open spec fn spec_clip_weights(clips: Seq<Clip>, cfg: ModelConfig, speed: int, yaw: int) -> Seq<(Clip, int)> {
    if speed <= 0 {
        let turn = if yaw >= 0 { Clip::TurnLeft } else { Clip::TurnRight };
        seq![(
            if abs(yaw) > MIN_TURN && has_clip(clips, turn) {
                turn
            } else if has_clip(clips, Clip::Idle) {
                Clip::Idle
            } else {
                Clip::Walk
            },
            1000,
        )]
    } else {
        let curve = if yaw >= 0 { Clip::WalkLeft } else { Clip::WalkRight };
        let amount = if has_clip(clips, curve) && cfg.curve_speed > 0 {
            curve_amount(cfg, walk_rate(cfg, speed), yaw)
        } else {
            0
        };
        seq![(Clip::Walk, 1000 - amount), (curve, amount)]
    }
}

fn has(clips: &[Clip], k: Clip) -> (r: bool)
    ensures
        r == has_clip(clips@, k),
{
    let mut i: usize = 0;
    while i < clips.len()
        invariant
            i <= clips@.len(),
            forall|j: int| 0 <= j < i ==> clips@[j] != k,
        decreases clips@.len() - i,
    {
        if clips[i] == k {
            return true;
        }
        i = i + 1;
    }
    false
}

/// `x / (c * rate)` for `x` and `rate` not negative and `c` positive,
/// without forming a product too large for the machine: when `rate` is
/// above `x / c` the quotient is zero.
fn div_by_product(x: i128, c: i128, rate: i128) -> (q: i128)
    requires
        0 <= x <= 0x1_0000_0000_0000_0000_0000_0000,
        1 <= c <= i64::MAX,
        1 <= rate,
    ensures
        q == (x as int) / ((c as int) * (rate as int)),
{
    let b = x / c;
    if rate > b {
        assert(x < c * rate) by (nonlinear_arith)
            requires
                b == x / c,
                rate >= b + 1,
                c >= 1,
                x >= 0,
        ;
        assert((x as int) / ((c as int) * (rate as int)) == 0) by (nonlinear_arith)
            requires
                0 <= x < c * rate,
        ;
        0
    } else {
        assert(1 <= c * rate <= x) by (nonlinear_arith)
            requires
                b == x / c,
                1 <= rate <= b,
                c >= 1,
                x >= 0,
        ;
        let p = c * rate;
        x / p
    }
}

/// The clips to blend for a model with `clips` moving at `speed` (mm/s)
/// and turning at `yaw` (mrad/s), see `spec_clip_weights`.
pub fn clip_weights(clips: &[Clip], cfg: &ModelConfig, speed: i64, yaw: i64) -> (r: Vec<(Clip, i64)>)
    requires
        1 <= cfg.walk_speed,
        1 <= cfg.scale,
    ensures
        r@.len() == spec_clip_weights(clips@, *cfg, speed as int, yaw as int).len(),
        forall|i: int| 0 <= i < r@.len() ==> #[trigger] r@[i].0 == spec_clip_weights(clips@, *cfg, speed as int, yaw as int)[i].0
            && r@[i].1 == spec_clip_weights(clips@, *cfg, speed as int, yaw as int)[i].1,
{
    let ayaw: i128 = if yaw < 0 { -(yaw as i128) } else { yaw as i128 };
    if speed <= 0 {
        let turn = if yaw >= 0 { Clip::TurnLeft } else { Clip::TurnRight };
        let clip = if ayaw > MIN_TURN as i128 && has(clips, turn) {
            turn
        } else if has(clips, Clip::Idle) {
            Clip::Idle
        } else {
            Clip::Walk
        };
        let r = vec![(clip, 1000i64)];
        assert(r@ =~= seq![(clip, 1000i64)]);
        return r;
    }
    let curve = if yaw >= 0 { Clip::WalkLeft } else { Clip::WalkRight };
    let amount: i64 = if has(clips, curve) && cfg.curve_speed > 0 {
        assert(1 <= (cfg.walk_speed as int) * (cfg.scale as int) <= (i64::MAX as int) * (i64::MAX as int))
            by (nonlinear_arith)
            requires
                1 <= cfg.walk_speed <= i64::MAX,
                1 <= cfg.scale <= i64::MAX,
        ;
        let den: i128 = (cfg.walk_speed as i128) * (cfg.scale as i128);
        let rate: i128 = (speed as i128) * 1_000_000 / den;
        assert(0 <= rate) by (nonlinear_arith)
            requires
                rate == (speed as int) * 1_000_000 / (den as int),
                den >= 1,
                0 <= speed,
        ;
        if rate == 0 {
            if yaw == 0 {
                0
            } else {
                1000
            }
        } else {
            let q = div_by_product(ayaw * 1_000_000, cfg.curve_speed as i128, rate);
            assert((cfg.curve_speed as int) * (rate as int) >= 1) by (nonlinear_arith)
                requires
                    cfg.curve_speed >= 1,
                    rate >= 1,
            ;
            assert(0 <= q) by (nonlinear_arith)
                requires
                    q == (ayaw as int) * 1_000_000 / ((cfg.curve_speed as int) * (rate as int)),
                    (cfg.curve_speed as int) * (rate as int) >= 1,
                    0 <= ayaw,
            ;
            if q > 1000 {
                1000
            } else {
                q as i64
            }
        }
    } else {
        0
    };
    let walk: i64 = 1000 - amount;
    let r = vec![(Clip::Walk, walk), (curve, amount)];
    assert(r@ =~= seq![(Clip::Walk, walk), (curve, amount)]);
    r
}

/// The weights of the blended clips are shares: each between none and all,
/// together all. A standing model plays one clip; a moving one blends its
/// walk with the curve clip toward the side it turns to. A clip with any
/// weight is one the model has, but for the walk clip, which every model
/// falls back to; so for a model with a walk clip, every clip with weight
/// is one of its own.
pub proof fn clip_weights_are_shares(clips: Seq<Clip>, cfg: ModelConfig, speed: int, yaw: int)
    requires
        cfg.walk_speed >= 1,
        cfg.scale >= 1,
    ensures
        ({
            let w = spec_clip_weights(clips, cfg, speed, yaw);
            &&& forall|i: int| 0 <= i < w.len() ==> 0 <= #[trigger] w[i].1 <= 1000
            &&& forall|i: int| 0 <= i < w.len() && #[trigger] w[i].1 > 0 ==> w[i].0 == Clip::Walk || has_clip(clips, w[i].0)
            &&& has_clip(clips, Clip::Walk) ==> forall|i: int| 0 <= i < w.len() && #[trigger] w[i].1 > 0 ==> has_clip(clips, w[i].0)
            &&& speed <= 0 ==> w.len() == 1 && w[0].1 == 1000
            &&& speed > 0 ==> w.len() == 2 && w[0].1 + w[1].1 == 1000 && w[0].0 == Clip::Walk
                && w[1].0 == (if yaw >= 0 { Clip::WalkLeft } else { Clip::WalkRight })
        }),
{
    if speed > 0 && cfg.curve_speed > 0 {
        let rate = walk_rate(cfg, speed);
        assert(rate >= 0) by (nonlinear_arith)
            requires
                rate == speed * 1_000_000 / (cfg.walk_speed * cfg.scale),
                speed > 0,
                cfg.walk_speed >= 1,
                cfg.scale >= 1,
        ;
    }
}

/// A whole clip, in the millionths that a clip's phase is counted in.
pub const PHASE_ONE: i64 = 1_000_000;

/// Longest frame that `advance_phase` takes, milliseconds.
pub const MAX_FRAME_MS: i64 = 1_000_000_000;

/// The clip a model plays for its motion and the rate (per mille of the
/// clip's own pace) it plays it at: the walk clip while it moves, at the
/// walk rate; a turn clip toward its side while it turns on the spot and
/// the model has a turn speed, at its turn over that speed; else idle at
/// its own pace.
pub open spec fn motion_clip(cfg: ModelConfig, speed: int, yaw: int) -> (Clip, int) {
    if speed > 0 {
        (Clip::Walk, walk_rate(cfg, speed))
    } else if abs(yaw) > MIN_TURN && cfg.turn_speed > 0 {
        (if yaw > 0 { Clip::TurnLeft } else { Clip::TurnRight }, abs(yaw) * 1000 / (cfg.turn_speed as int))
    } else {
        (Clip::Idle, 1000)
    }
}

/// The length (milliseconds) of the first clip of kind `k`, if the model
/// has one.
pub open spec fn clip_length(clips: Seq<(Clip, i64)>, k: Clip) -> Option<int>
    decreases clips.len(),
{
    if clips.len() == 0 {
        None
    } else {
        match clip_length(clips.drop_last(), k) {
            Some(l) => Some(l),
            None => if clips.last().0 == k {
                Some(clips.last().1 as int)
            } else {
                None
            },
        }
    }
}

/// The phase (millionths of the clip) after a frame of `dt_ms`: it moves on
/// by the frame over the clip's length, at the clip's rate, and wraps
/// around at the clip's end. An empty frame, or a clip the model lacks,
/// leaves it.
pub open spec fn spec_advance_phase(clips: Seq<(Clip, i64)>, cfg: ModelConfig, speed: int, yaw: int, phase: int, dt_ms: int) -> int {
    if dt_ms <= 0 {
        phase
    } else {
        let (k, rate) = motion_clip(cfg, speed, yaw);
        match clip_length(clips, k) {
            Some(len) => (phase + dt_ms * rate * 1000 / len) % (PHASE_ONE as int),
            None => phase,
        }
    }
}

proof fn lemma_clip_length_prefix(clips: Seq<(Clip, i64)>, k: Clip, n: int)
    requires
        0 <= n <= clips.len(),
        clip_length(clips.subrange(0, n), k) is Some,
    ensures
        clip_length(clips, k) == clip_length(clips.subrange(0, n), k),
    decreases clips.len() - n,
{
    if n < clips.len() {
        assert(clips.subrange(0, n + 1).drop_last() =~= clips.subrange(0, n));
        lemma_clip_length_prefix(clips, k, n + 1);
    } else {
        assert(clips.subrange(0, n) =~= clips);
    }
}

fn find_length(clips: &[(Clip, i64)], k: Clip) -> (r: Option<i64>)
    ensures
        match r {
            Some(l) => clip_length(clips@, k) == Some(l as int),
            None => clip_length(clips@, k) is None,
        },
{
    let mut i: usize = 0;
    while i < clips.len()
        invariant
            i <= clips@.len(),
            clip_length(clips@.subrange(0, i as int), k) is None,
        decreases clips@.len() - i,
    {
        assert(clips@.subrange(0, i + 1).drop_last() =~= clips@.subrange(0, i as int));
        let (c, l) = clips[i];
        if c == k {
            proof { lemma_clip_length_prefix(clips@, k, i + 1); }
            return Some(l);
        }
        i = i + 1;
    }
    assert(clips@.subrange(0, clips@.len() as int) =~= clips@);
    None
}

/// Moves the phase of an enemy model's clip on by a frame, see
/// `spec_advance_phase`.
pub fn advance_phase(clips: &[(Clip, i64)], cfg: &ModelConfig, speed: i64, yaw: i64, phase: i64, dt_ms: i64) -> (r: i64)
    requires
        1 <= cfg.walk_speed,
        1 <= cfg.scale,
        forall|i: int| 0 <= i < clips@.len() ==> 1 <= (#[trigger] clips@[i]).1,
        0 <= phase < PHASE_ONE,
        dt_ms <= MAX_FRAME_MS,
    ensures
        r == spec_advance_phase(clips@, *cfg, speed as int, yaw as int, phase as int, dt_ms as int),
        0 <= r < PHASE_ONE,
{
    if dt_ms <= 0 {
        return phase;
    }
    let ayaw: i128 = if yaw < 0 { -(yaw as i128) } else { yaw as i128 };
    let (k, rate): (Clip, i128) = if speed > 0 {
        assert(1 <= (cfg.walk_speed as int) * (cfg.scale as int) <= (i64::MAX as int) * (i64::MAX as int))
            by (nonlinear_arith)
            requires
                1 <= cfg.walk_speed <= i64::MAX,
                1 <= cfg.scale <= i64::MAX,
        ;
        let den: i128 = (cfg.walk_speed as i128) * (cfg.scale as i128);
        let rate: i128 = (speed as i128) * 1_000_000 / den;
        assert(0 <= rate <= (speed as int) * 1_000_000) by (nonlinear_arith)
            requires
                rate == (speed as int) * 1_000_000 / (den as int),
                den >= 1,
                0 < speed,
        ;
        (Clip::Walk, rate)
    } else if ayaw > MIN_TURN as i128 && cfg.turn_speed > 0 {
        let rate: i128 = ayaw * 1000 / (cfg.turn_speed as i128);
        assert(0 <= rate <= (ayaw as int) * 1000) by (nonlinear_arith)
            requires
                rate == (ayaw as int) * 1000 / (cfg.turn_speed as int),
                cfg.turn_speed >= 1,
                0 <= ayaw,
        ;
        (if yaw > 0 { Clip::TurnLeft } else { Clip::TurnRight }, rate)
    } else {
        (Clip::Idle, 1000)
    };
    assert((k, rate as int) == motion_clip(*cfg, speed as int, yaw as int));
    match find_length(clips, k) {
        Some(len) => {
            proof {
                lemma_clip_length_in(clips@, k);
            }
            assert(0 <= (dt_ms as int) * (rate as int) * 1000 <= 1_000_000_000 * 10_000_000_000_000_000_000_000_000 * 1000)
                by (nonlinear_arith)
                requires
                    1 <= dt_ms <= 1_000_000_000,
                    0 <= rate <= 10_000_000_000_000_000_000_000_000,
            ;
            let inc: i128 = (dt_ms as i128) * rate * 1000 / (len as i128);
            assert(0 <= inc) by (nonlinear_arith)
                requires
                    inc == (dt_ms as int) * (rate as int) * 1000 / (len as int),
                    (dt_ms as int) * (rate as int) * 1000 >= 0,
                    len >= 1,
            ;
            ((phase as i128 + inc) % (PHASE_ONE as i128)) as i64
        },
        None => phase,
    }
}

/// The length of a found clip is one of the clips' lengths.
proof fn lemma_clip_length_in(clips: Seq<(Clip, i64)>, k: Clip)
    ensures
        clip_length(clips, k) matches Some(l) ==> exists|i: int| 0 <= i < clips.len() && clips[i].1 == l,
    decreases clips.len(),
{
    if clips.len() > 0 {
        lemma_clip_length_in(clips.drop_last(), k);
        if clip_length(clips.drop_last(), k) is Some {
            let l = clip_length(clips.drop_last(), k)->0;
            let i = choose|i: int| 0 <= i < clips.drop_last().len() && clips.drop_last()[i].1 == l;
            assert(clips[i].1 == l);
        } else if clips.last().0 == k {
            assert(clips[clips.len() - 1].1 == clips.last().1);
        }
    }
}

} // verus!
