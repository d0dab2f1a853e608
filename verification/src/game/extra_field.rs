//! Extra fields of the first table layout: fields are unlocked at random on level up
//! and fire shorter effects.
use vstd::prelude::*;
use rand::RngExt;
use rand::rngs::SmallRng;
use crate::entity::EntityId;
use crate::units::PROGRESS_ONE;
use crate::game::audio::SoundEvent;
use crate::game::progress::{ProgressBarCountUpEvent, ProgressBarFullEvent, ProgressBarResetEvent};
use crate::game::extra::field::{count_some, lemma_count_some_bound, lemma_count_some_fill, lemma_count_some_all};
use crate::game::extra::charge::{charge_divisor};

verus! {

#[verifier::external_type_specification]
#[verifier::external_body]
pub struct ExSmallRng(SmallRng);

/// The four kinds of extra field.
#[derive(Clone, Copy, Debug, PartialEq, Eq, Structural)]
pub enum ExtraFieldKind {
    ExtraBall,
    SlowDown,
    DoubleDamage,
    InstaKill,
}

pub const SLOW_DOWN_HITS: u32 = 2;
pub const DOUBLE_DAMAGE_HITS: u32 = 4;
pub const EXTRA_BALL_HITS: u32 = 6;
pub const INSTA_KILL_HITS: u32 = 8;

pub open spec fn spec_hits_needed(kind: ExtraFieldKind) -> u32 {
    match kind {
        ExtraFieldKind::ExtraBall => EXTRA_BALL_HITS,
        ExtraFieldKind::SlowDown => SLOW_DOWN_HITS,
        ExtraFieldKind::DoubleDamage => DOUBLE_DAMAGE_HITS,
        ExtraFieldKind::InstaKill => INSTA_KILL_HITS,
    }
}

/// The stronger a field's effect, the more hits it needs: slow-down
/// 2, double damage 4, extra ball 6, insta kill 8; each needs a
/// multiple of what slow-down needs.
pub proof fn stronger_fields_need_more_hits(k: ExtraFieldKind)
    ensures
        spec_hits_needed(ExtraFieldKind::SlowDown) == 2,
        spec_hits_needed(ExtraFieldKind::DoubleDamage) == 4,
        spec_hits_needed(ExtraFieldKind::ExtraBall) == 6,
        spec_hits_needed(ExtraFieldKind::InstaKill) == 8,
        spec_hits_needed(ExtraFieldKind::SlowDown) < spec_hits_needed(ExtraFieldKind::DoubleDamage)
            < spec_hits_needed(ExtraFieldKind::ExtraBall) < spec_hits_needed(ExtraFieldKind::InstaKill),
        spec_hits_needed(k) % spec_hits_needed(ExtraFieldKind::SlowDown) == 0,
{
}

impl ExtraFieldKind {
    /// Ball hits that charge a field of this kind completely.
    pub fn hits_needed(self) -> (r: u32)
        ensures
            r == spec_hits_needed(self),
            self == ExtraFieldKind::SlowDown ==> r == 2,
            self == ExtraFieldKind::DoubleDamage ==> r == 4,
            self == ExtraFieldKind::ExtraBall ==> r == 6,
            self == ExtraFieldKind::InstaKill ==> r == 8,
    {
        match self {
            Self::ExtraBall => EXTRA_BALL_HITS,
            Self::SlowDown => SLOW_DOWN_HITS,
            Self::DoubleDamage => DOUBLE_DAMAGE_HITS,
            Self::InstaKill => INSTA_KILL_HITS,
        }
    }
}

/// A field on the table; its kind is fixed when it is placed.
pub struct ExtraField {
    kind: ExtraFieldKind,
}

impl ExtraField {
    pub fn new(kind: ExtraFieldKind) -> (r: ExtraField)
        ensures
            r.spec_kind() == kind,
    {
        ExtraField { kind }
    }

    pub closed spec fn spec_kind(&self) -> ExtraFieldKind {
        self.kind
    }

    pub fn kind(&self) -> (r: ExtraFieldKind)
        ensures
            r == self.spec_kind(),
    {
        self.kind
    }
}

/// A full field fires its effect.
#[derive(Clone, Copy, Debug, PartialEq, Eq, Structural)]
pub struct ExtraFieldFireEvent(pub ExtraFieldKind);

/// Until when (in-game milliseconds, exclusive) each effect is active; the
/// extra ball has no lasting effect.
#[derive(Clone, Copy, Debug, PartialEq, Eq, Structural)]
pub struct ActiveEffects {
    pub slow_until: i64,
    pub double_damage_until: i64,
    pub insta_kill_until: i64,
}

impl Default for ActiveEffects {
    fn default() -> (r: Self)
        ensures
            r.slow_until == 0 && r.double_damage_until == 0 && r.insta_kill_until == 0,
    {
        ActiveEffects { slow_until: 0, double_damage_until: 0, insta_kill_until: 0 }
    }
}

pub open spec fn spec_is_active(e: ActiveEffects, now: i64, which: ExtraFieldKind) -> bool {
    match which {
        ExtraFieldKind::SlowDown => now < e.slow_until,
        ExtraFieldKind::DoubleDamage => now < e.double_damage_until,
        ExtraFieldKind::InstaKill => now < e.insta_kill_until,
        ExtraFieldKind::ExtraBall => false,
    }
}

/// Each effect runs until its own end, and the extra ball has no lasting
/// effect.
pub proof fn effects_run_until_their_end(e: ActiveEffects, now: i64)
    ensures
        spec_is_active(e, now, ExtraFieldKind::SlowDown) == (now < e.slow_until),
        spec_is_active(e, now, ExtraFieldKind::DoubleDamage) == (now < e.double_damage_until),
        spec_is_active(e, now, ExtraFieldKind::InstaKill) == (now < e.insta_kill_until),
        !spec_is_active(e, now, ExtraFieldKind::ExtraBall),
{
}

impl ActiveEffects {
    /// Whether the effect `which` is active at `now`.
    pub fn is_active(&self, now: i64, which: ExtraFieldKind) -> (r: bool)
        ensures
            r == spec_is_active(*self, now, which),
    {
        match which {
            ExtraFieldKind::SlowDown => now < self.slow_until,
            ExtraFieldKind::DoubleDamage => now < self.double_damage_until,
            ExtraFieldKind::InstaKill => now < self.insta_kill_until,
            ExtraFieldKind::ExtraBall => false,
        }
    }
}

/// A number drawn from `[0, n)` by `rand`'s `RngExt::random_range`, whose
/// documentation promises a value of that range; which one is left to
/// chance.
#[verifier::external_body]
fn random_below(rng: &mut SmallRng, n: usize) -> (r: usize)
    requires
        n > 0,
    ensures
        r < n,
{
    rng.random_range(0..n)
}

/// The indices of the fields without an active kind, in order.
pub open spec fn spec_inactive(kinds: Seq<Option<ExtraFieldKind>>) -> Seq<usize>
    decreases kinds.len(),
{
    if kinds.len() == 0 {
        Seq::empty()
    } else {
        let prev = spec_inactive(kinds.drop_last());
        if kinds.last() is None {
            prev.push((kinds.len() - 1) as usize)
        } else {
            prev
        }
    }
}

/// Every listed index is an inactive field, and the list is empty exactly
/// when every field is active.
proof fn lemma_inactive(kinds: Seq<Option<ExtraFieldKind>>)
    requires
        kinds.len() <= usize::MAX,
    ensures
        forall|k: int| 0 <= k < spec_inactive(kinds).len() ==> (#[trigger] spec_inactive(kinds)[k]) < kinds.len()
            && kinds[spec_inactive(kinds)[k] as int] is None,
        spec_inactive(kinds).len() == 0 <==> forall|j: int| 0 <= j < kinds.len() ==> #[trigger] kinds[j] is Some,
    decreases kinds.len(),
{
    if kinds.len() > 0 {
        let d = kinds.drop_last();
        lemma_inactive(d);
        assert forall|j: int| 0 <= j < d.len() implies #[trigger] d[j] == kinds[j] by {}
        if spec_inactive(kinds).len() == 0 {
            assert forall|j: int| 0 <= j < kinds.len() implies #[trigger] kinds[j] is Some by {
                if j < d.len() {
                    assert(d[j] is Some);
                }
            }
        }
    }
}

/// The indices of the fields without an active kind, in order.
pub fn inactive_indices(kinds: &[Option<ExtraFieldKind>]) -> (r: Vec<usize>)
    ensures
        r@ == spec_inactive(kinds@),
{
    let mut r: Vec<usize> = Vec::new();
    let mut i: usize = 0;
    while i < kinds.len()
        invariant
            i <= kinds@.len(),
            r@ == spec_inactive(kinds@.subrange(0, i as int)),
        decreases kinds@.len() - i,
    {
        assert(kinds@.subrange(0, i + 1).drop_last() =~= kinds@.subrange(0, i as int));
        if kinds[i].is_none() {
            r.push(i);
        }
        i = i + 1;
    }
    assert(kinds@.subrange(0, kinds@.len() as int) =~= kinds@);
    r
}

/// The `k`-th field without an active kind.
pub fn pick_inactive_at(kinds: &[Option<ExtraFieldKind>], k: usize) -> (r: usize)
    requires
        k < spec_inactive(kinds@).len(),
    ensures
        r == spec_inactive(kinds@)[k as int],
{
    let v = inactive_indices(kinds);
    v[k]
}

/// A field without an active kind, drawn at random among all of them;
/// `None`, without drawing, exactly when all fields are active.
pub fn pick_random_inactive(rng: &mut SmallRng, kinds: &[Option<ExtraFieldKind>]) -> (r: Option<usize>)
    ensures
        r is None <==> forall|j: int| 0 <= j < kinds@.len() ==> #[trigger] kinds@[j] is Some,
        r is None ==> *final(rng) == *old(rng),
        r matches Some(i) ==> i < kinds@.len() && kinds@[i as int] is None,
        r matches Some(i) ==> exists|k: int| 0 <= k < spec_inactive(kinds@).len() && spec_inactive(kinds@)[k] == i,
{
    if kinds.len() == 0 {
        return None;
    }
    proof {
        lemma_inactive(kinds@);
    }
    let inactive = inactive_indices(kinds);
    if inactive.len() == 0 {
        None
    } else {
        let k = random_below(rng, inactive.len());
        let i = pick_inactive_at(kinds, k);
        assert(spec_inactive(kinds@)[k as int] == i);
        Some(i)
    }
}

/// The progress one ball hit adds to a field that needs `hits_needed` hits.
pub fn charge_amount(hits_needed: u32) -> (r: i64)
    ensures
        r == (PROGRESS_ONE as int) / charge_divisor(hits_needed),
{
    crate::game::extra::charge::charge_amount(hits_needed)
}

/// The active kind of each field: `Some(kind)` where the field is active.
pub open spec fn kinds_of(fields: Seq<(ExtraFieldKind, bool)>) -> Seq<Option<ExtraFieldKind>> {
    Seq::new(fields.len(), |i: int| if fields[i].1 { Some(fields[i].0) } else { None })
}

fn kinds_vec(fields: &Vec<(ExtraFieldKind, bool)>) -> (r: Vec<Option<ExtraFieldKind>>)
    ensures
        r@ == kinds_of(fields@),
{
    let mut kinds: Vec<Option<ExtraFieldKind>> = Vec::new();
    let mut i: usize = 0;
    while i < fields.len()
        invariant
            i <= fields@.len(),
            kinds@ =~= kinds_of(fields@).subrange(0, i as int),
        decreases fields@.len() - i,
    {
        let (kind, active) = fields[i];
        if active {
            kinds.push(Some(kind));
        } else {
            kinds.push(None);
        }
        i = i + 1;
    }
    assert(kinds@ =~= kinds_of(fields@));
    kinds
}

/// On level up one inactive field, drawn at random, is unlocked; nothing
/// when there was no level up or every field is active.
pub fn on_level_up_field(level_up: bool, rng: &mut SmallRng, fields: &Vec<(ExtraFieldKind, bool)>) -> (r: Option<usize>)
    ensures
        r is None <==> (!level_up || forall|j: int| 0 <= j < fields@.len() ==> #[trigger] fields@[j].1),
        r is None ==> *final(rng) == *old(rng),
        r matches Some(i) ==> i < fields@.len() && !fields@[i as int].1,
{
    if !level_up {
        return None;
    }
    let kinds = kinds_vec(fields);
    let r = pick_random_inactive(rng, kinds.as_slice());
    proof {
        assert forall|j: int| 0 <= j < fields@.len() implies (#[trigger] fields@[j].1 <==> kinds@[j] is Some) by {}
    }
    r
}

/// The fields that are active at `level`: one per three levels, at most four.
pub open spec fn target_active(level: u8) -> int {
    if level / 3 < 4 {
        (level / 3) as int
    } else {
        4
    }
}

/// No field opens before level 3; from then on one more opens every three
/// levels, until all four are open from level 12 on.
pub proof fn fields_open_every_three_levels(level: u8)
    ensures
        level < 3 ==> target_active(level) == 0,
        level >= 12 ==> target_active(level) == 4,
        level < 9 ==> target_active((level + 3) as u8) == target_active(level) + 1,
        0 <= target_active(level) <= 4,
        3 * target_active(level) <= level,
{
}

/// When the level changed without a level up (a loaded game), inactive
/// fields drawn at random are unlocked until `target_active(level)` fields
/// are active or every field is. The result lists them, each once.
pub fn restore_fields(level: u8, rng: &mut SmallRng, fields: &Vec<(ExtraFieldKind, bool)>) -> (r: Vec<usize>)
    ensures
        ({
            let active = count_some(kinds_of(fields@)) as int;
            let inactive = fields@.len() - active;
            let missing = if target_active(level) > active { target_active(level) - active } else { 0 };
            &&& r@.len() == if missing < inactive { missing } else { inactive }
            &&& forall|k: int| 0 <= k < r@.len() ==> (#[trigger] r@[k]) < fields@.len()
                && !fields@[r@[k] as int].1
            &&& forall|k: int, l: int| 0 <= k < l < r@.len() ==> r@[k] != r@[l]
        }),
        r@.len() == 0 ==> *final(rng) == *old(rng),
{
    let target: usize = if level / 3 < 4 { (level / 3) as usize } else { 4 };
    let mut kinds = kinds_vec(fields);
    let ghost orig = kinds@;
    let active = crate::game::extra::field::count_active_of(&kinds);
    proof {
        lemma_count_some_bound(orig);
    }
    let mut missing: usize = if target > active { target - active } else { 0 };
    let mut out: Vec<usize> = Vec::new();
    while missing > 0
        invariant
            kinds@.len() == orig.len(),
            orig == kinds_of(fields@),
            count_some(kinds@) == count_some(orig) + out@.len(),
            count_some(orig) <= orig.len(),
            active == count_some(orig),
            missing + out@.len() == (if target > active { target - active } else { 0 }),
            target as int == target_active(level),
            forall|k: int| 0 <= k < out@.len() ==> (#[trigger] out@[k]) < fields@.len()
                && !fields@[out@[k] as int].1 && kinds@[out@[k] as int] is Some,
            forall|k: int, l: int| 0 <= k < l < out@.len() ==> out@[k] != out@[l],
            out@.len() == 0 ==> *rng == *old(rng),
            forall|j: int| 0 <= j < kinds@.len() && fields@[j].1 ==> #[trigger] kinds@[j] is Some,
            forall|j: int| 0 <= j < kinds@.len() && #[trigger] kinds@[j] is Some && !fields@[j].1 ==>
                exists|k: int| 0 <= k < out@.len() && out@[k] == j,
        ensures
            count_some(kinds@) == count_some(orig) + out@.len(),
            forall|k: int| 0 <= k < out@.len() ==> (#[trigger] out@[k]) < fields@.len()
                && !fields@[out@[k] as int].1,
            forall|k: int, l: int| 0 <= k < l < out@.len() ==> out@[k] != out@[l],
            missing == 0 || forall|j: int| 0 <= j < kinds@.len() ==> #[trigger] kinds@[j] is Some,
            out@.len() == 0 ==> *rng == *old(rng),
            missing + out@.len() == (if target > active { target - active } else { 0 }),
        decreases missing,
    {
        let pick = pick_random_inactive(rng, kinds.as_slice());
        match pick {
            None => {
                break;
            },
            Some(i) => {
                let (kind, _) = fields[i];
                let ghost ok = kinds@;
                proof {
                    lemma_count_some_fill(kinds@, i as int, kind);
                    assert(!fields@[i as int].1);
                    assert forall|k: int| 0 <= k < out@.len() implies out@[k] != i by {
                        assert(kinds@[out@[k] as int] is Some);
                    }
                }
                kinds.set(i, Some(kind));
                let ghost prev = out@;
                out.push(i);
                proof {
                    assert forall|j: int| 0 <= j < kinds@.len() && #[trigger] kinds@[j] is Some && !fields@[j].1 implies
                        exists|k: int| 0 <= k < out@.len() && out@[k] == j by {
                        if j == i as int {
                            assert(out@[prev.len() as int] == i);
                        } else {
                            assert(ok[j] is Some);
                            let k = choose|k: int| 0 <= k < prev.len() && prev[k] == j;
                            assert(out@[k] == j);
                        }
                    }
                }
                missing = missing - 1;
            },
        }
    }
    proof {
        lemma_count_some_bound(kinds@);
        if missing > 0 {
            lemma_count_some_all(kinds@);
        }
    }
    out
}

/// A ball hit on field `id` charges it, with a hit sound.
pub fn on_charge(id: EntityId, field: &ExtraField) -> (r: (ProgressBarCountUpEvent, SoundEvent))
    ensures
        r.0.spec_rel_id() == id,
        r.0.spec_amount() == (PROGRESS_ONE as int) / charge_divisor(spec_hits_needed(field.spec_kind())),
        r.1 == SoundEvent::ExtraFieldHit,
{
    (ProgressBarCountUpEvent::new(id, charge_amount(field.kind().hits_needed())), SoundEvent::ExtraFieldHit)
}

/// A full field fires its effect and is emptied.
pub fn on_fire(ev: ProgressBarFullEvent, field: &ExtraField) -> (r: (ExtraFieldFireEvent, ProgressBarResetEvent))
    ensures
        r.0 == ExtraFieldFireEvent(field.spec_kind()),
        r.1.spec_rel_id() == ev.0,
{
    (ExtraFieldFireEvent(field.kind()), ProgressBarResetEvent::new(ev.0))
}

/// A field fills its bar on exactly its `hits_needed`-th charge: one charge
/// is the inverse of the hit count, so fewer charges leave the bar short of
/// full and that many fill it exactly.
pub proof fn charges_fill_bar_exactly(kind: ExtraFieldKind, k: int)
    requires
        0 <= k <= spec_hits_needed(kind),
    ensures
        k * ((PROGRESS_ONE as int) / charge_divisor(spec_hits_needed(kind))) <= PROGRESS_ONE,
        (k * ((PROGRESS_ONE as int) / charge_divisor(spec_hits_needed(kind))) == PROGRESS_ONE) == (k
            == spec_hits_needed(kind)),
        (PROGRESS_ONE as int) / charge_divisor(spec_hits_needed(kind)) > 0,
{
    let d = charge_divisor(spec_hits_needed(kind));
    let a = (PROGRESS_ONE as int) / d;
    assert(a * d == PROGRESS_ONE && a > 0) by {
        match kind {
            ExtraFieldKind::ExtraBall => {
                assert(d == 6);
                assert(a == 120120) by (nonlinear_arith)
                    requires
                        a == 720720int / d,
                        d == 6,
                ;
                assert(a * d == 720720) by (nonlinear_arith)
                    requires
                        a == 120120,
                        d == 6,
                ;
            },
            ExtraFieldKind::SlowDown => {
                assert(d == 2);
                assert(a == 360360) by (nonlinear_arith)
                    requires
                        a == 720720int / d,
                        d == 2,
                ;
                assert(a * d == 720720) by (nonlinear_arith)
                    requires
                        a == 360360,
                        d == 2,
                ;
            },
            ExtraFieldKind::DoubleDamage => {
                assert(d == 4);
                assert(a == 180180) by (nonlinear_arith)
                    requires
                        a == 720720int / d,
                        d == 4,
                ;
                assert(a * d == 720720) by (nonlinear_arith)
                    requires
                        a == 180180,
                        d == 4,
                ;
            },
            ExtraFieldKind::InstaKill => {
                assert(d == 8);
                assert(a == 90090) by (nonlinear_arith)
                    requires
                        a == 720720int / d,
                        d == 8,
                ;
                assert(a * d == 720720) by (nonlinear_arith)
                    requires
                        a == 90090,
                        d == 8,
                ;
            },
        }
    }
    assert(k * a <= PROGRESS_ONE && (k * a == PROGRESS_ONE) == (k == d)) by (nonlinear_arith)
        requires
            0 <= k <= d,
            a > 0,
            a * d == PROGRESS_ONE,
    ;
}

} // verus!
