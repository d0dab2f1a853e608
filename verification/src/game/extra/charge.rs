//! Charging the extra fields with ball hits.
use vstd::prelude::*;
use crate::entity::EntityId;
use crate::units::PROGRESS_ONE;
use crate::game::audio::SoundEvent;
use crate::game::progress::{Bar, ProgressBarCountUpEvent, ProgressBarFullEvent, ProgressBarResetEvent, count_up_all, count_up_bars, count_up_bar};
use super::{ExtraField, ExtraFieldFireEvent, ExtraFieldKind, spec_hits_needed, spec_kind_at};
use super::effects::{ActiveEffects, spec_is_active};

verus! {

/// The hit count that one hit is a share of: at least one, at most 255.
pub open spec fn charge_divisor(hits_needed: u32) -> int {
    if hits_needed < 1 {
        1
    } else if hits_needed > 255 {
        255
    } else {
        hits_needed as int
    }
}

/// The progress one ball hit adds to a field that needs `hits_needed` hits.
pub fn charge_amount(hits_needed: u32) -> (r: i64)
    ensures
        r == (PROGRESS_ONE as int) / charge_divisor(hits_needed),
        r > 0,
{
    let d: i64 = if hits_needed < 1 {
        1
    } else if hits_needed > 255 {
        255
    } else {
        hits_needed as i64
    };
    assert(PROGRESS_ONE / d > 0) by (nonlinear_arith)
        requires
            1 <= d <= 255,
            PROGRESS_ONE == 720720,
    ;
    PROGRESS_ONE / d
}

/// A ball hit on field `id` charges it, with a hit sound, unless its effect
/// is running or its bar is winding back after the last fire.
pub fn on_charge(
    id: EntityId,
    field: &ExtraField,
    effects: &ActiveEffects,
    now: i64,
    fast_forwarding: bool,
) -> (r: Option<(ProgressBarCountUpEvent, SoundEvent)>)
    ensures
        match r {
            Some((ev, sound)) => {
                &&& !spec_is_active(*effects, now, field.spec_kind())
                &&& !fast_forwarding
                &&& ev.spec_rel_id() == id
                &&& ev.spec_amount() == (PROGRESS_ONE as int) / charge_divisor(spec_hits_needed(field.spec_kind()))
                &&& sound == SoundEvent::ExtraFieldHit
            },
            None => spec_is_active(*effects, now, field.spec_kind()) || fast_forwarding,
        },
{
    if effects.is_active(now, field.kind()) || fast_forwarding {
        return None;
    }
    Some((ProgressBarCountUpEvent::new(id, charge_amount(field.kind().hits_needed())), SoundEvent::ExtraFieldHit))
}

/// A full field fires its effect.
pub fn on_fire(ev: ProgressBarFullEvent, field: &ExtraField) -> (r: ExtraFieldFireEvent)
    ensures
        r == ExtraFieldFireEvent(field.spec_kind()),
{
    ExtraFieldFireEvent(field.kind())
}

/// The kinds whose effect ended since the last frame, in table order; their
/// fields are reset. `prev` becomes `now`.
pub fn rewind_on_effect_end(prev: &mut [bool; 4], now: [bool; 4]) -> (r: [bool; 4])
    ensures
        final(prev)@ == now@,
        forall|i: int| 0 <= i < 4 ==> #[trigger] r@[i] == (old(prev)@[i] && !now@[i]),
{
    let ghost p = prev@;
    let mut r = [false, false, false, false];
    let mut i: usize = 0;
    while i < 4
        invariant
            i <= 4,
            p.len() == 4,
            now@.len() == 4,
            r@.len() == 4,
            prev@.len() == 4,
            forall|j: int| i <= j < 4 ==> prev@[j] == p[j],
            forall|j: int| 0 <= j < i ==> prev@[j] == now@[j],
            forall|j: int| 0 <= j < i ==> #[trigger] r@[j] == (p[j] && !now@[j]),
        decreases 4 - i,
    {
        let ended = prev[i] && !now[i];
        r[i] = ended;
        prev[i] = now[i];
        i = i + 1;
    }
    assert(prev@ =~= now@);
    r
}

/// The objects of the fields of kind `k`, in field order.
pub open spec fn fields_of_kind(fields: Seq<(EntityId, ExtraFieldKind)>, k: ExtraFieldKind) -> Seq<EntityId>
    decreases fields.len(),
{
    if fields.len() == 0 {
        Seq::empty()
    } else {
        let prev = fields_of_kind(fields.drop_last(), k);
        if fields.last().1 == k {
            prev.push(fields.last().0)
        } else {
            prev
        }
    }
}

/// The fields of the first `n` kinds (in table order) whose effect ended.
pub open spec fn ended_fields(ended: Seq<bool>, fields: Seq<(EntityId, ExtraFieldKind)>, n: int) -> Seq<EntityId>
    decreases n,
{
    if n <= 0 {
        Seq::empty()
    } else {
        ended_fields(ended, fields, n - 1) + if ended[n - 1] {
            fields_of_kind(fields, spec_kind_at(n - 1))
        } else {
            Seq::empty()
        }
    }
}

/// The reset events for the fields whose effect ended: kind by kind in
/// table order, and for each kind its fields in order.
pub fn reset_ended_fields(ended: [bool; 4], fields: &Vec<(EntityId, ExtraFieldKind)>) -> (r: Vec<ProgressBarResetEvent>)
    ensures
        r@.len() == ended_fields(ended@, fields@, 4).len(),
        forall|k: int| 0 <= k < r@.len() ==> #[trigger] r@[k].spec_rel_id() == ended_fields(ended@, fields@, 4)[k],
{
    let kinds = super::all_kinds();
    let mut r: Vec<ProgressBarResetEvent> = Vec::new();
    let ghost mut ids: Seq<EntityId> = Seq::empty();
    let mut i: usize = 0;
    while i < 4
        invariant
            i <= 4,
            ended@.len() == 4,
            forall|j: int| 0 <= j < 4 ==> #[trigger] kinds@[j] == spec_kind_at(j),
            ids == ended_fields(ended@, fields@, i as int),
            r@.len() == ids.len(),
            forall|k: int| 0 <= k < r@.len() ==> #[trigger] r@[k].spec_rel_id() == ids[k],
        decreases 4 - i,
    {
        if ended[i] {
            let mut j: usize = 0;
            let ghost base = ids;
            while j < fields.len()
                invariant
                    i < 4,
                    j <= fields@.len(),
                    ids == base + fields_of_kind(fields@.subrange(0, j as int), spec_kind_at(i as int)),
                    kinds@[i as int] == spec_kind_at(i as int),
                    r@.len() == ids.len(),
                    forall|k: int| 0 <= k < r@.len() ==> #[trigger] r@[k].spec_rel_id() == ids[k],
                decreases fields@.len() - j,
            {
                assert(fields@.subrange(0, j + 1).drop_last() =~= fields@.subrange(0, j as int));
                let (id, kind) = fields[j];
                if kind == kinds[i] {
                    r.push(ProgressBarResetEvent::new(id));
                    proof {
                        ids = ids.push(id);
                    }
                }
                assert(ids =~= base + fields_of_kind(fields@.subrange(0, j + 1), spec_kind_at(i as int)));
                j = j + 1;
            }
            assert(fields@.subrange(0, fields@.len() as int) =~= fields@);
        }
        assert(ids =~= ended_fields(ended@, fields@, i + 1));
        i = i + 1;
    }
    r
}

/// A field fills its bar on exactly its `hits_needed`-th charge: one charge
/// is the inverse of the hit count, so fewer charges leave the bar short of
/// full and that many fill it exactly.
pub proof fn charges_fill_bar_exactly(kind: ExtraFieldKind, k: int)
    requires
        0 <= k <= spec_hits_needed(kind),
    ensures
        k * ((PROGRESS_ONE as int) / charge_divisor(spec_hits_needed(kind))) <= PROGRESS_ONE,
        (k * ((PROGRESS_ONE as int) / charge_divisor(spec_hits_needed(kind))) == PROGRESS_ONE) == (k
            == spec_hits_needed(kind)),
        (PROGRESS_ONE as int) / charge_divisor(spec_hits_needed(kind)) > 0,
{
    let d = charge_divisor(spec_hits_needed(kind));
    let a = (PROGRESS_ONE as int) / d;
    assert(a * d == PROGRESS_ONE && a > 0) by {
        match kind {
            ExtraFieldKind::ExtraBall => {
                assert(d == 12);
                assert(a == 60060) by (nonlinear_arith)
                    requires
                        a == 720720int / d,
                        d == 12,
                ;
                assert(a * d == 720720) by (nonlinear_arith)
                    requires
                        a == 60060,
                        d == 12,
                ;
            },
            ExtraFieldKind::SlowDown => {
                assert(d == 4);
                assert(a == 180180) by (nonlinear_arith)
                    requires
                        a == 720720int / d,
                        d == 4,
                ;
                assert(a * d == 720720) by (nonlinear_arith)
                    requires
                        a == 180180,
                        d == 4,
                ;
            },
            ExtraFieldKind::DoubleDamage => {
                assert(d == 8);
                assert(a == 90090) by (nonlinear_arith)
                    requires
                        a == 720720int / d,
                        d == 8,
                ;
                assert(a * d == 720720) by (nonlinear_arith)
                    requires
                        a == 90090,
                        d == 8,
                ;
            },
            ExtraFieldKind::InstaKill => {
                assert(d == 16);
                assert(a == 45045) by (nonlinear_arith)
                    requires
                        a == 720720int / d,
                        d == 16,
                ;
                assert(a * d == 720720) by (nonlinear_arith)
                    requires
                        a == 45045,
                        d == 16,
                ;
            },
        }
    }
    assert(k * a <= PROGRESS_ONE && (k * a == PROGRESS_ONE) == (k == d)) by (nonlinear_arith)
        requires
            0 <= k <= d,
            a > 0,
            a * d == PROGRESS_ONE,
    ;
}

/// The bar of a field, empty at first, after `k` charges of it.
pub open spec fn charged_bar(b: Bar, ev: ProgressBarCountUpEvent, k: nat) -> Bar {
    count_up_all(seq![b], Seq::new(k, |j: int| ev))[0]
}

/// A field's bar, charged from empty by ball hits, holds one charge per hit
/// and is full exactly on the `hits_needed`-th hit.
pub proof fn field_fills_on_last_hit(kind: ExtraFieldKind, b: Bar, ev: ProgressBarCountUpEvent, k: nat)
    requires
        b.progress.0 == 0,
        ev.spec_rel_id() == b.rel_id,
        ev.spec_amount() == (PROGRESS_ONE as int) / charge_divisor(spec_hits_needed(kind)),
        k <= spec_hits_needed(kind),
    ensures
        charged_bar(b, ev, k).progress.0 == k * ev.spec_amount(),
        charged_bar(b, ev, k).rel_id == b.rel_id,
        (charged_bar(b, ev, k).progress.0 >= PROGRESS_ONE) == (k == spec_hits_needed(kind)),
    decreases k,
{
    charges_fill_bar_exactly(kind, k as int);
    let evs = Seq::new(k, |j: int| ev);
    if k == 0 {
        assert(count_up_all(seq![b], evs) == seq![b]);
        assert(charged_bar(b, ev, k) == b);
        assert(k * ev.spec_amount() == 0) by (nonlinear_arith)
            requires
                k == 0,
        ;
    } else {
        field_fills_on_last_hit(kind, b, ev, (k - 1) as nat);
        charges_fill_bar_exactly(kind, k - 1);
        assert(evs.drop_last() =~= Seq::new((k - 1) as nat, |j: int| ev));
        let prev = count_up_all(seq![b], evs.drop_last());
        assert(prev.len() == 1) by {
            lemma_count_up_len(seq![b], evs.drop_last());
        }
        assert(evs.last() == ev);
        assert(count_up_all(seq![b], evs) == count_up_bars(prev, ev));
        assert(prev[0] == charged_bar(b, ev, (k - 1) as nat));
        let a = ev.spec_amount() as int;
        assert((k - 1) * a + a == k * a) by (nonlinear_arith);
        assert(count_up_bars(prev, ev)[0] == count_up_bar(prev[0], ev));
        assert(prev[0].progress.0 == (k - 1) * a);
        assert(k * a <= PROGRESS_ONE);
        assert(a > 0);
        assert(crate::units::spec_clamp(prev[0].progress.0 + a, 0, PROGRESS_ONE as int) == k * a);
        assert(count_up_bar(prev[0], ev).progress.0 == k * a);
        assert(charged_bar(b, ev, k) == count_up_all(seq![b], evs)[0]);
    }
}

proof fn lemma_count_up_len(bars: Seq<Bar>, evs: Seq<ProgressBarCountUpEvent>)
    ensures
        count_up_all(bars, evs).len() == bars.len(),
    decreases evs.len(),
{
    if evs.len() > 0 {
        lemma_count_up_len(bars, evs.drop_last());
    }
}

} // verus!
