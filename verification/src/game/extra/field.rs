//! Placing, unlocking and lighting the extra fields.
use vstd::prelude::*;
use crate::geometry::Vec3;
use super::{ExtraFieldKind, spec_kind_at, all_kinds};

verus! {

/// The launch lane, in millimetres: x in `[LANE_X_MIN, LANE_X_MAX]`,
/// y in `[LANE_Y_MIN, LANE_Y_MAX]`.
pub const LANE_X_MIN: i64 = 900;
pub const LANE_X_MAX: i64 = 1150;
pub const LANE_Y_MIN: i64 = 550;
pub const LANE_Y_MAX: i64 = 750;

pub open spec fn in_lane(p: Vec3) -> bool {
    LANE_X_MIN <= p.x <= LANE_X_MAX && LANE_Y_MIN <= p.y <= LANE_Y_MAX
}

/// Whether a ball sits in the launch lane, so that no extra ball can be
/// put there. The position of the new ball is not consulted.
pub fn lane_occupied(_pos: Vec3, balls: &[Vec3]) -> (r: bool)
    ensures
        r == exists|i: int| 0 <= i < balls@.len() && in_lane(#[trigger] balls@[i]),
{
    let mut i: usize = 0;
    while i < balls.len()
        invariant
            i <= balls@.len(),
            forall|j: int| 0 <= j < i ==> !in_lane(#[trigger] balls@[j]),
        decreases balls@.len() - i,
    {
        let b = balls[i];
        if b.x >= LANE_X_MIN && b.x <= LANE_X_MAX && b.y >= LANE_Y_MIN && b.y <= LANE_Y_MAX {
            assert(in_lane(balls@[i as int]));
            return true;
        }
        i = i + 1;
    }
    false
}

/// The index of the first field without an active kind.
pub fn pick_next_inactive(kinds: &[Option<ExtraFieldKind>]) -> (r: Option<usize>)
    ensures
        match r {
            Some(i) => {
                &&& i < kinds@.len()
                &&& kinds@[i as int] is None
                &&& forall|j: int| 0 <= j < i ==> #[trigger] kinds@[j] is Some
            },
            None => forall|j: int| 0 <= j < kinds@.len() ==> #[trigger] kinds@[j] is Some,
        },
{
    let mut i: usize = 0;
    while i < kinds.len()
        invariant
            i <= kinds@.len(),
            forall|j: int| 0 <= j < i ==> #[trigger] kinds@[j] is Some,
        decreases kinds@.len() - i,
    {
        if kinds[i].is_none() {
            return Some(i);
        }
        i = i + 1;
    }
    None
}

/// Number of entries that hold a kind.
pub open spec fn count_some<K>(s: Seq<Option<K>>) -> nat
    decreases s.len(),
{
    if s.len() == 0 {
        0
    } else {
        count_some(s.drop_last()) + if s.last() is Some {
            1nat
        } else {
            0nat
        }
    }
}

pub proof fn lemma_count_some_bound<K>(s: Seq<Option<K>>)
    ensures
        count_some(s) <= s.len(),
    decreases s.len(),
{
    if s.len() > 0 {
        lemma_count_some_bound(s.drop_last());
    }
}

pub proof fn lemma_count_some_fill<K>(s: Seq<Option<K>>, i: int, k: K)
    requires
        0 <= i < s.len(),
        s[i] is None,
    ensures
        count_some(s.update(i, Some(k))) == count_some(s) + 1,
    decreases s.len(),
{
    let t = s.update(i, Some(k));
    if i == s.len() - 1 {
        assert(t.drop_last() =~= s.drop_last());
    } else {
        lemma_count_some_fill(s.drop_last(), i, k);
        assert(t.drop_last() =~= s.drop_last().update(i, Some(k)));
    }
}

pub proof fn lemma_count_some_all<K>(s: Seq<Option<K>>)
    requires
        forall|j: int| 0 <= j < s.len() ==> #[trigger] s[j] is Some,
    ensures
        count_some(s) == s.len(),
    decreases s.len(),
{
    if s.len() > 0 {
        lemma_count_some_all(s.drop_last());
    }
}

/// Counts the entries that hold a kind.
pub fn count_active_of<K>(kinds: &Vec<Option<K>>) -> (r: usize)
    ensures
        r == count_some(kinds@),
{
    let mut n: usize = 0;
    let mut i: usize = 0;
    while i < kinds.len()
        invariant
            i <= kinds@.len(),
            n == count_some(kinds@.subrange(0, i as int)),
            n <= i,
        decreases kinds@.len() - i,
    {
        assert(kinds@.subrange(0, i + 1).drop_last() =~= kinds@.subrange(0, i as int));
        if kinds[i].is_some() {
            n = n + 1;
        }
        i = i + 1;
    }
    assert(kinds@.subrange(0, kinds@.len() as int) =~= kinds@);
    n
}

/// Counts the active entries.
pub fn count_active(kinds: &Vec<Option<ExtraFieldKind>>) -> (r: usize)
    ensures
        r == count_some(kinds@),
{
    let mut n: usize = 0;
    let mut i: usize = 0;
    while i < kinds.len()
        invariant
            i <= kinds@.len(),
            n == count_some(kinds@.subrange(0, i as int)),
            n <= i,
        decreases kinds@.len() - i,
    {
        assert(kinds@.subrange(0, i + 1).drop_last() =~= kinds@.subrange(0, i as int));
        if kinds[i].is_some() {
            n = n + 1;
        }
        i = i + 1;
    }
    assert(kinds@.subrange(0, kinds@.len() as int) =~= kinds@);
    n
}

/// The fields that are active at `level`: one per four levels, at most four.
pub open spec fn target_active(level: u8) -> int {
    if level / 4 < 4 {
        (level / 4) as int
    } else {
        4
    }
}

/// No field opens before level 4; from then on one more opens every four
/// levels, until all four are open from level 16 on.
pub proof fn fields_open_every_four_levels(level: u8)
    ensures
        level < 4 ==> target_active(level) == 0,
        level >= 16 ==> target_active(level) == 4,
        level < 12 ==> target_active((level + 4) as u8) == target_active(level) + 1,
        0 <= target_active(level) <= 4,
        4 * target_active(level) <= level,
{
}

/// The active kind of each field: `Some(kind)` where the field is active.
pub open spec fn kinds_of(fields: Seq<(ExtraFieldKind, bool)>) -> Seq<Option<ExtraFieldKind>> {
    Seq::new(fields.len(), |i: int| if fields[i].1 { Some(fields[i].0) } else { None })
}

/// After a level change, the fields to activate, in this order: the first
/// inactive fields (by index) until `target_active(level)` fields are
/// active, or every field is. `fields[i]` holds the kind of field `i` and
/// whether it is active.
pub fn fields_to_activate(level: u8, fields: &Vec<(ExtraFieldKind, bool)>) -> (r: Vec<usize>)
    ensures
        ({
            let active = count_some(kinds_of(fields@)) as int;
            let inactive = fields@.len() - active;
            let needed = if target_active(level) > active { target_active(level) - active } else { 0 };
            &&& r@.len() == if needed < inactive { needed } else { inactive }
            &&& forall|k: int| 0 <= k < r@.len() ==> (#[trigger] r@[k]) < fields@.len()
                && !fields@[r@[k] as int].1
            &&& forall|k: int, l: int| 0 <= k < l < r@.len() ==> r@[k] < r@[l]
            &&& forall|j: int| 0 <= j < fields@.len() && !(#[trigger] fields@[j]).1 ==>
                r@.contains(j as usize) || (r@.len() == needed
                    && forall|k: int| 0 <= k < r@.len() ==> r@[k] < j)
        }),
{
    let target: usize = if level / 4 < 4 { (level / 4) as usize } else { 4 };
    let mut kinds: Vec<Option<ExtraFieldKind>> = Vec::new();
    let mut i: usize = 0;
    while i < fields.len()
        invariant
            i <= fields@.len(),
            kinds@ =~= kinds_of(fields@).subrange(0, i as int),
        decreases fields@.len() - i,
    {
        let (kind, active) = fields[i];
        if active {
            kinds.push(Some(kind));
        } else {
            kinds.push(None);
        }
        i = i + 1;
    }
    let ghost orig = kinds@;
    assert(orig =~= kinds_of(fields@));
    proof {
        lemma_count_some_bound(orig);
    }
    let mut out: Vec<usize> = Vec::new();
    let n_fields = fields.len();
    loop
        invariant
            fields@.len() == n_fields as int,
            kinds@.len() == orig.len(),
            orig == kinds_of(fields@),
            orig.len() == fields@.len(),
            count_some(kinds@) == count_some(orig) + out@.len(),
            count_some(orig) <= orig.len(),
            forall|k: int| 0 <= k < out@.len() ==> (#[trigger] out@[k]) < fields@.len()
                && !fields@[out@[k] as int].1,
            forall|k: int, l: int| 0 <= k < l < out@.len() ==> out@[k] < out@[l],
            forall|j: int| 0 <= j < kinds@.len() ==> (#[trigger] kinds@[j] is Some
                <==> (fields@[j].1 || out@.contains(j as usize))),
            forall|j: int| 0 <= j < fields@.len() && !(#[trigger] fields@[j]).1
                && out@.len() > 0 && j < out@[out@.len() - 1] ==> out@.contains(j as usize),
            target as int == target_active(level),
            count_some(kinds@) <= target || out@.len() == 0,
        ensures
            count_some(kinds@) == count_some(orig) + out@.len(),
            forall|k: int| 0 <= k < out@.len() ==> (#[trigger] out@[k]) < fields@.len()
                && !fields@[out@[k] as int].1,
            forall|k: int, l: int| 0 <= k < l < out@.len() ==> out@[k] < out@[l],
            forall|j: int| 0 <= j < kinds@.len() ==> (#[trigger] kinds@[j] is Some
                <==> (fields@[j].1 || out@.contains(j as usize))),
            forall|j: int| 0 <= j < fields@.len() && !(#[trigger] fields@[j]).1
                && out@.len() > 0 && j < out@[out@.len() - 1] ==> out@.contains(j as usize),
            count_some(kinds@) >= target || forall|j: int| 0 <= j < kinds@.len() ==> #[trigger] kinds@[j] is Some,
            count_some(kinds@) <= target || out@.len() == 0,
        decreases orig.len() - count_some(kinds@),
    {
        let n = count_active(&kinds);
        if n >= target {
            break;
        }
        let pick = pick_next_inactive(kinds.as_slice());
        match pick {
            None => {
                break;
            },
            Some(i) => {
                let (kind, _) = fields[i];
                proof {
                    lemma_count_some_fill(kinds@, i as int, kind);
                    lemma_count_some_bound(kinds@.update(i as int, Some(kind)));
                    assert(!fields@[i as int].1);
                    assert(!out@.contains(i));
                    if out@.len() > 0 {
                        let last = out@[out@.len() - 1];
                        assert(kinds@[last as int] is Some);
                    }
                }
                let ghost ok = kinds@;
                kinds.set(i, Some(kind));
                let ghost prev = out@;
                out.push(i);
                proof {
                    assert(out@ == prev.push(i));
                    assert(out@[prev.len() as int] == i);
                    assert forall|x: usize| out@.contains(x) <==> (prev.contains(x) || x == i) by {
                        if out@.contains(x) {
                            let k = choose|k: int| 0 <= k < out@.len() && out@[k] == x;
                            if k < prev.len() {
                                assert(prev[k] == x);
                            }
                        }
                        if prev.contains(x) {
                            let k = choose|k: int| 0 <= k < prev.len() && prev[k] == x;
                            assert(out@[k] == x);
                        }
                        if x == i {
                            assert(out@[prev.len() as int] == x);
                        }
                    }
                    assert forall|j: int| 0 <= j < kinds@.len() implies (#[trigger] kinds@[j] is Some
                        <==> (fields@[j].1 || out@.contains(j as usize))) by {
                        if j == i as int {
                            assert(out@.contains(i));
                        } else {
                            assert(kinds@[j] == ok[j]);
                            assert(j as usize as int == j);
                            assert(out@.contains(j as usize) == (prev.contains(j as usize) || (j as usize) == i));
                        }
                    }
                    assert forall|j: int| 0 <= j < fields@.len() && !(#[trigger] fields@[j]).1
                        && out@.len() > 0 && j < out@[out@.len() - 1] implies out@.contains(j as usize) by {
                        assert(kinds@[j] is Some || j == i);
                        if j != i as int {
                            assert(prev.contains(j as usize));
                        }
                    }
                }
            },
        }
    }
    proof {
        let active = count_some(orig) as int;
        lemma_count_some_bound(kinds@);
        if count_some(kinds@) < target {
            lemma_count_some_all(kinds@);
        }
        if out@.len() > 0 && count_some(kinds@) >= target {
            assert(count_some(kinds@) == target);
        }
        assert forall|j: int| 0 <= j < fields@.len() && !(#[trigger] fields@[j]).1 implies
            out@.contains(j as usize) || (out@.len() == (if target_active(level) > active { target_active(level) - active } else { 0 })
                && forall|k: int| 0 <= k < out@.len() ==> out@[k] < j) by {
            if !out@.contains(j as usize) {
                assert(kinds@[j] is None);
                assert(count_some(kinds@) >= target);
                if out@.len() > 0 {
                    assert(count_some(kinds@) == target);
                }
                assert forall|k: int| 0 <= k < out@.len() implies out@[k] < j by {
                    let last = out@[out@.len() - 1];
                    if out@[k] >= j {
                        assert(last >= out@[k]) by {
                            if k < out@.len() - 1 {
                                assert(out@[k] < last);
                            }
                        }
                        if last == j as usize {
                            assert(out@.contains(j as usize));
                        }
                    }
                }
            }
        }
    }
    out
}

/// The field specs to place on the table: kind `i` at `posis[i]`.
pub fn spawn_fields(posis: [Vec3; 4]) -> (r: Vec<(ExtraFieldKind, Vec3)>)
    ensures
        r@.len() == 4,
        forall|i: int| 0 <= i < 4 ==> #[trigger] r@[i] == (spec_kind_at(i), posis@[i]),
{
    let kinds = all_kinds();
    let mut r: Vec<(ExtraFieldKind, Vec3)> = Vec::new();
    let mut i: usize = 0;
    while i < 4
        invariant
            i <= 4,
            r@.len() == i,
            forall|j: int| 0 <= j < 4 ==> #[trigger] kinds@[j] == spec_kind_at(j),
            forall|j: int| 0 <= j < i ==> #[trigger] r@[j] == (spec_kind_at(j), posis@[j]),
        decreases 4 - i,
    {
        r.push((kinds[i], posis[i]));
        i = i + 1;
    }
    r
}

/// What to do with the flashing lights of the fields of one kind.
#[derive(Clone, Copy, Debug, PartialEq, Eq, Structural)]
pub enum FlashChange {
    Keep,
    On,
    Off,
}

/// Edges of the slow-down, double-damage and insta-kill effects: a light
/// starts flashing when its effect starts and stops when it ends. `prev`
/// becomes `now`.
pub fn flash_changes(prev: &mut [bool; 3], now: [bool; 3]) -> (r: [FlashChange; 3])
    ensures
        final(prev)@ == now@,
        forall|i: int| 0 <= i < 3 ==> #[trigger] r@[i] == (if now@[i] && !old(prev)@[i] {
            FlashChange::On
        } else if old(prev)@[i] && !now@[i] {
            FlashChange::Off
        } else {
            FlashChange::Keep
        }),
{
    let mut r = [FlashChange::Keep, FlashChange::Keep, FlashChange::Keep];
    let ghost p = prev@;
    let mut i: usize = 0;
    while i < 3
        invariant
            i <= 3,
            r@.len() == 3,
            prev@.len() == 3,
            p.len() == 3,
            now@.len() == 3,
            forall|j: int| i <= j < 3 ==> prev@[j] == p[j],
            forall|j: int| 0 <= j < i ==> prev@[j] == now@[j],
            forall|j: int| 0 <= j < i ==> #[trigger] r@[j] == (if now@[j] && !p[j] {
                FlashChange::On
            } else if p[j] && !now@[j] {
                FlashChange::Off
            } else {
                FlashChange::Keep
            }),
        decreases 3 - i,
    {
        let was = prev[i];
        let now_i = now[i];
        let c = if now_i && !was {
            FlashChange::On
        } else if was && !now_i {
            FlashChange::Off
        } else {
            FlashChange::Keep
        };
        r[i] = c;
        prev[i] = now_i;
        i = i + 1;
    }
    assert(prev@ =~= now@);
    r
}

} // verus!
