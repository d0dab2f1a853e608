//! Straight progress bars of the first table layout: counting up, and the
//! events of a bar that became full or empty.
use vstd::prelude::*;
use crate::entity::EntityId;
use crate::units::{PROGRESS_ONE, spec_clamp};

verus! {

/// Progress of a bar, in `PROGRESS_ONE` parts of a full bar.
#[derive(Clone, Copy, Debug, PartialEq, Eq, Structural)]
pub struct ProgressBar(pub i64);

impl ProgressBar {
    pub fn is_empty(&self) -> (r: bool)
        ensures
            r == (self.0 <= 0),
    {
        self.0 <= 0
    }

    pub fn is_full(&self) -> (r: bool)
        ensures
            r == (self.0 >= PROGRESS_ONE),
    {
        self.0 >= PROGRESS_ONE
    }
}

/// Asks to move the bar of `rel_id` by `amount` progress units.
#[derive(Clone, Copy, Debug, PartialEq, Eq, Structural)]
pub struct ProgressBarCountUpEvent {
    rel_id: EntityId,
    amount: i64,
}

impl ProgressBarCountUpEvent {
    pub closed spec fn spec_rel_id(self) -> EntityId {
        self.rel_id
    }

    pub closed spec fn spec_amount(self) -> i64 {
        self.amount
    }

    pub fn new(rel_id: EntityId, amount: i64) -> (r: Self)
        ensures
            r.spec_rel_id() == rel_id,
            r.spec_amount() == amount,
    {
        Self { rel_id, amount }
    }

    fn rel_id(&self) -> (r: EntityId)
        ensures
            r == self.spec_rel_id(),
    {
        self.rel_id
    }

    fn amount(&self) -> (r: i64)
        ensures
            r == self.spec_amount(),
    {
        self.amount
    }
}

/// The bar of this object became full.
#[derive(Clone, Copy, Debug, PartialEq, Eq, Structural)]
pub struct ProgressBarFullEvent(pub EntityId);

/// The bar of this object became empty.
#[derive(Clone, Copy, Debug, PartialEq, Eq, Structural)]
pub struct ProgressBarEmptyEvent(pub EntityId);

/// `k` is the first bar that belongs to `id`.
pub open spec fn first_of(bars: Seq<(EntityId, ProgressBar)>, id: EntityId, k: int) -> bool {
    &&& 0 <= k < bars.len()
    &&& bars[k].0 == id
    &&& forall|j: int| 0 <= j < k ==> bars[j].0 != id
}

/// One event applied: the first bar of its object moves by the amount,
/// clamped to an empty or full bar; without such a bar nothing changes.
pub open spec fn count_up_first(bars: Seq<(EntityId, ProgressBar)>, ev: ProgressBarCountUpEvent) -> Seq<
    (EntityId, ProgressBar),
> {
    if exists|k: int| first_of(bars, ev.spec_rel_id(), k) {
        let k = choose|k: int| first_of(bars, ev.spec_rel_id(), k);
        bars.update(
            k,
            (
                bars[k].0,
                ProgressBar(spec_clamp(bars[k].1.0 + ev.spec_amount(), 0, PROGRESS_ONE as int) as i64),
            ),
        )
    } else {
        bars
    }
}

/// The events applied in order.
pub open spec fn count_up_all(
    bars: Seq<(EntityId, ProgressBar)>,
    evs: Seq<ProgressBarCountUpEvent>,
) -> Seq<(EntityId, ProgressBar)>
    decreases evs.len(),
{
    if evs.len() == 0 {
        bars
    } else {
        count_up_first(count_up_all(bars, evs.drop_last()), evs.last())
    }
}

fn count_up_one(bars: &mut Vec<(EntityId, ProgressBar)>, ev: &ProgressBarCountUpEvent)
    ensures
        final(bars)@ == count_up_first(old(bars)@, *ev),
{
    let id = ev.rel_id();
    let mut i: usize = 0;
    while i < bars.len()
        invariant
            i <= bars@.len(),
            bars@ == old(bars)@,
            id == ev.spec_rel_id(),
            forall|j: int| 0 <= j < i ==> bars@[j].0 != id,
        decreases bars@.len() - i,
    {
        let (bid, bar) = bars[i];
        if bid == id {
            let ghost k = i as int;
            assert(first_of(bars@, id, k));
            let ghost c = choose|k: int| first_of(bars@, id, k);
            assert(c == k) by {
                if c < k {
                    assert(bars@[c].0 != id);
                } else if c > k {
                    assert(bars@[k].0 != id);
                }
            }
            let sum: i128 = bar.0 as i128 + ev.amount() as i128;
            let new: i64 = if sum < 0 {
                0
            } else if sum > PROGRESS_ONE as i128 {
                PROGRESS_ONE
            } else {
                sum as i64
            };
            bars.set(i, (bid, ProgressBar(new)));
            return;
        }
        i = i + 1;
    }
}

/// Applies the count-up events, in order, each to the first bar of its
/// object.
pub fn on_count_up(evs: &Vec<ProgressBarCountUpEvent>, bars: &mut Vec<(EntityId, ProgressBar)>)
    ensures
        final(bars)@ == count_up_all(old(bars)@, evs@),
{
    let mut k: usize = 0;
    while k < evs.len()
        invariant
            k <= evs@.len(),
            bars@ == count_up_all(old(bars)@, evs@.subrange(0, k as int)),
        decreases evs@.len() - k,
    {
        let ev = evs[k];
        count_up_one(bars, &ev);
        assert(evs@.subrange(0, k + 1).drop_last() =~= evs@.subrange(0, k as int));
        k = k + 1;
    }
    assert(evs@.subrange(0, evs@.len() as int) =~= evs@);
}

/// The objects of the full bars among `bars`, in order.
pub open spec fn full_ids(bars: Seq<(EntityId, ProgressBar)>) -> Seq<EntityId>
    decreases bars.len(),
{
    if bars.len() == 0 {
        Seq::empty()
    } else {
        let prev = full_ids(bars.drop_last());
        if bars.last().1.0 >= PROGRESS_ONE {
            prev.push(bars.last().0)
        } else {
            prev
        }
    }
}

/// The objects of the empty bars among `bars`, in order.
pub open spec fn empty_ids(bars: Seq<(EntityId, ProgressBar)>) -> Seq<EntityId>
    decreases bars.len(),
{
    if bars.len() == 0 {
        Seq::empty()
    } else {
        let prev = empty_ids(bars.drop_last());
        if bars.last().1.0 <= 0 {
            prev.push(bars.last().0)
        } else {
            prev
        }
    }
}

/// A full event for each full bar among the bars that changed, in order.
pub fn bar_full_system(changed: &Vec<(EntityId, ProgressBar)>) -> (r: Vec<ProgressBarFullEvent>)
    ensures
        r@.len() == full_ids(changed@).len(),
        forall|i: int| 0 <= i < r@.len() ==> #[trigger] r@[i].0 == full_ids(changed@)[i],
{
    let mut r: Vec<ProgressBarFullEvent> = Vec::new();
    let mut i: usize = 0;
    while i < changed.len()
        invariant
            i <= changed@.len(),
            r@.len() == full_ids(changed@.subrange(0, i as int)).len(),
            forall|j: int| 0 <= j < r@.len() ==> #[trigger] r@[j].0 == full_ids(
                changed@.subrange(0, i as int),
            )[j],
        decreases changed@.len() - i,
    {
        assert(changed@.subrange(0, i + 1).drop_last() =~= changed@.subrange(0, i as int));
        let (id, bar) = changed[i];
        if bar.is_full() {
            r.push(ProgressBarFullEvent(id));
        }
        i = i + 1;
    }
    assert(changed@.subrange(0, changed@.len() as int) =~= changed@);
    r
}

/// An empty event for each empty bar among the bars that changed, in order.
pub fn bar_empty_system(changed: &Vec<(EntityId, ProgressBar)>) -> (r: Vec<ProgressBarEmptyEvent>)
    ensures
        r@.len() == empty_ids(changed@).len(),
        forall|i: int| 0 <= i < r@.len() ==> #[trigger] r@[i].0 == empty_ids(changed@)[i],
{
    let mut r: Vec<ProgressBarEmptyEvent> = Vec::new();
    let mut i: usize = 0;
    while i < changed.len()
        invariant
            i <= changed@.len(),
            r@.len() == empty_ids(changed@.subrange(0, i as int)).len(),
            forall|j: int| 0 <= j < r@.len() ==> #[trigger] r@[j].0 == empty_ids(
                changed@.subrange(0, i as int),
            )[j],
        decreases changed@.len() - i,
    {
        assert(changed@.subrange(0, i + 1).drop_last() =~= changed@.subrange(0, i as int));
        let (id, bar) = changed[i];
        if bar.is_empty() {
            r.push(ProgressBarEmptyEvent(id));
        }
        i = i + 1;
    }
    assert(changed@.subrange(0, changed@.len() as int) =~= changed@);
    r
}

/// A bar's progress lies between empty and full.
pub open spec fn bars_in_range(bars: Seq<(EntityId, ProgressBar)>) -> bool {
    forall|i: int| 0 <= i < bars.len() ==> 0 <= #[trigger] bars[i].1.0 <= PROGRESS_ONE
}

/// Counting up never takes a bar below empty or beyond full, whatever the
/// amounts.
pub proof fn count_up_stays_in_range(bars: Seq<(EntityId, ProgressBar)>, evs: Seq<ProgressBarCountUpEvent>)
    requires
        bars_in_range(bars),
    ensures
        bars_in_range(count_up_all(bars, evs)),
        count_up_all(bars, evs).len() == bars.len(),
    decreases evs.len(),
{
    if evs.len() > 0 {
        count_up_stays_in_range(bars, evs.drop_last());
    }
}

} // verus!
