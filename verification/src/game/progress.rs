//! Progress bars: straight bars and radial bars that belong to another
//! object (`rel_id`), are counted up and down by events and report when
//! they are full.
use vstd::prelude::*;
use crate::entity::EntityId;
use crate::units::{PROGRESS_ONE, spec_clamp};

verus! {

/// A progress value, in `PROGRESS_ONE` parts of a full bar.
#[derive(Clone, Copy, Debug, PartialEq, Eq, Structural)]
pub struct Progress(pub i64);

impl Progress {
    pub fn is_full(&self) -> (r: bool)
        ensures
            r == (self.0 >= PROGRESS_ONE),
    {
        self.0 >= PROGRESS_ONE
    }
}

/// Adds `amount` to the bars of `rel_id`.
#[derive(Clone, Copy, Debug, PartialEq, Eq, Structural)]
pub struct ProgressBarCountUpEvent {
    rel_id: EntityId,
    amount: i64,
}

impl ProgressBarCountUpEvent {
    pub closed spec fn spec_rel_id(self) -> EntityId {
        self.rel_id
    }

    pub closed spec fn spec_amount(self) -> i64 {
        self.amount
    }

    pub fn new(rel_id: EntityId, amount: i64) -> (r: Self)
        ensures
            r.spec_rel_id() == rel_id,
            r.spec_amount() == amount,
    {
        Self { rel_id, amount }
    }

    pub fn rel_id(&self) -> (r: EntityId)
        ensures
            r == self.spec_rel_id(),
    {
        self.rel_id
    }

    pub fn amount(&self) -> (r: i64)
        ensures
            r == self.spec_amount(),
    {
        self.amount
    }
}

/// The bars of the carried object are full.
#[derive(Clone, Copy, Debug, PartialEq, Eq, Structural)]
pub struct ProgressBarFullEvent(pub EntityId);

/// Empties the bars of `rel_id`.
#[derive(Clone, Copy, Debug, PartialEq, Eq, Structural)]
pub struct ProgressBarResetEvent {
    rel_id: EntityId,
}

impl ProgressBarResetEvent {
    pub closed spec fn spec_rel_id(self) -> EntityId {
        self.rel_id
    }

    pub fn new(rel_id: EntityId) -> (r: Self)
        ensures
            r.spec_rel_id() == rel_id,
    {
        Self { rel_id }
    }

    pub fn rel_id(&self) -> (r: EntityId)
        ensures
            r == self.spec_rel_id(),
    {
        self.rel_id
    }
}

/// A radial bar: after a reset it winds forward once around before it
/// follows its progress again.
#[derive(Clone, Copy, Debug, PartialEq, Eq, Structural)]
pub struct RadialProgressBar {
    pub rewinding: bool,
}

impl RadialProgressBar {
    pub fn is_rewinding(&self) -> (r: bool)
        ensures
            r == self.rewinding,
    {
        self.rewinding
    }

    pub fn is_fast_forwarding(&self) -> (r: bool)
        ensures
            r == self.rewinding,
    {
        self.rewinding
    }

    pub fn start_fast_forward(&mut self)
        ensures
            final(self).rewinding,
    {
        self.rewinding = true;
    }

    pub fn stop_fast_forward(&mut self)
        ensures
            !final(self).rewinding,
    {
        self.rewinding = false;
    }
}

/// A bar as the rules see it: whose it is, its progress, and its radial
/// part if it is a radial bar.
#[derive(Clone, Copy, Debug, PartialEq, Eq, Structural)]
pub struct Bar {
    pub rel_id: EntityId,
    pub progress: Progress,
    pub radial: Option<RadialProgressBar>,
}

/// One count-up event applied to one bar: the progress moves by the amount,
/// clamped to an empty or full bar; a bar whose progress changed stops
/// fast forwarding.
pub open spec fn count_up_bar(b: Bar, ev: ProgressBarCountUpEvent) -> Bar {
    if b.rel_id != ev.spec_rel_id() {
        b
    } else {
        let new = spec_clamp(b.progress.0 + ev.spec_amount(), 0, PROGRESS_ONE as int);
        if new == b.progress.0 {
            b
        } else {
            Bar {
                rel_id: b.rel_id,
                progress: Progress(new as i64),
                radial: match b.radial {
                    Some(_) => Some(RadialProgressBar { rewinding: false }),
                    None => None,
                },
            }
        }
    }
}

pub open spec fn count_up_bars(bars: Seq<Bar>, ev: ProgressBarCountUpEvent) -> Seq<Bar> {
    Seq::new(bars.len(), |i: int| count_up_bar(bars[i], ev))
}

/// The events applied in order.
pub open spec fn count_up_all(bars: Seq<Bar>, evs: Seq<ProgressBarCountUpEvent>) -> Seq<Bar>
    decreases evs.len(),
{
    if evs.len() == 0 {
        bars
    } else {
        count_up_bars(count_up_all(bars, evs.drop_last()), evs.last())
    }
}

fn count_up_one(bar: &mut Bar, ev: &ProgressBarCountUpEvent)
    ensures
        *final(bar) == count_up_bar(*old(bar), *ev),
{
    if bar.rel_id == ev.rel_id() {
        let sum: i128 = bar.progress.0 as i128 + ev.amount() as i128;
        let new: i64 = if sum < 0 {
            0
        } else if sum > PROGRESS_ONE as i128 {
            PROGRESS_ONE
        } else {
            sum as i64
        };
        assert(new as int == spec_clamp(bar.progress.0 + ev.spec_amount(), 0, PROGRESS_ONE as int));
        if new != bar.progress.0 {
            bar.progress = Progress(new);
            match bar.radial {
                Some(mut r) => {
                    r.stop_fast_forward();
                    bar.radial = Some(r);
                },
                None => {},
            }
        }
    }
}

/// Applies the count-up events, in order, to every bar of their object.
pub fn on_count_up(evs: &Vec<ProgressBarCountUpEvent>, bars: &mut Vec<Bar>)
    ensures
        final(bars)@ == count_up_all(old(bars)@, evs@),
{
    let mut k: usize = 0;
    while k < evs.len()
        invariant
            k <= evs@.len(),
            bars@ == count_up_all(old(bars)@, evs@.subrange(0, k as int)),
        decreases evs@.len() - k,
    {
        let ghost before = bars@;
        let ev = evs[k];
        let mut i: usize = 0;
        while i < bars.len()
            invariant
                i <= bars@.len(),
                bars@.len() == before.len(),
                forall|j: int| 0 <= j < i ==> bars@[j] == count_up_bar(before[j], ev),
                forall|j: int| i <= j < bars@.len() ==> bars@[j] == before[j],
            decreases bars@.len() - i,
        {
            let mut b = bars[i];
            count_up_one(&mut b, &ev);
            bars.set(i, b);
            i = i + 1;
        }
        assert(evs@.subrange(0, k + 1).drop_last() =~= evs@.subrange(0, k as int));
        assert(bars@ =~= count_up_bars(before, ev));
        k = k + 1;
    }
    assert(evs@.subrange(0, evs@.len() as int) =~= evs@);
}

/// One reset applied to one bar: its progress becomes zero and a radial bar
/// starts fast forwarding.
pub open spec fn reset_bar(b: Bar, ev: ProgressBarResetEvent) -> Bar {
    if b.rel_id != ev.spec_rel_id() {
        b
    } else {
        Bar {
            rel_id: b.rel_id,
            progress: Progress(0),
            radial: match b.radial {
                Some(_) => Some(RadialProgressBar { rewinding: true }),
                None => None,
            },
        }
    }
}

pub open spec fn reset_all(bars: Seq<Bar>, evs: Seq<ProgressBarResetEvent>) -> Seq<Bar>
    decreases evs.len(),
{
    if evs.len() == 0 {
        bars
    } else {
        let prev = reset_all(bars, evs.drop_last());
        Seq::new(prev.len(), |i: int| reset_bar(prev[i], evs.last()))
    }
}

/// Applies the reset events, in order, to every bar of their object.
pub fn on_reset(evs: &Vec<ProgressBarResetEvent>, bars: &mut Vec<Bar>)
    ensures
        final(bars)@ == reset_all(old(bars)@, evs@),
{
    let mut k: usize = 0;
    while k < evs.len()
        invariant
            k <= evs@.len(),
            bars@ == reset_all(old(bars)@, evs@.subrange(0, k as int)),
        decreases evs@.len() - k,
    {
        let ghost before = bars@;
        let ev = evs[k];
        let mut i: usize = 0;
        while i < bars.len()
            invariant
                i <= bars@.len(),
                bars@.len() == before.len(),
                forall|j: int| 0 <= j < i ==> bars@[j] == reset_bar(before[j], ev),
                forall|j: int| i <= j < bars@.len() ==> bars@[j] == before[j],
            decreases bars@.len() - i,
        {
            let mut b = bars[i];
            if b.rel_id == ev.rel_id() {
                b.progress = Progress(0);
                match b.radial {
                    Some(mut r) => {
                        r.start_fast_forward();
                        b.radial = Some(r);
                    },
                    None => {},
                }
            }
            bars.set(i, b);
            i = i + 1;
        }
        assert(evs@.subrange(0, k + 1).drop_last() =~= evs@.subrange(0, k as int));
        assert(bars@ =~= Seq::new(before.len(), |j: int| reset_bar(before[j], ev)));
        k = k + 1;
    }
    assert(evs@.subrange(0, evs@.len() as int) =~= evs@);
}

/// A bar whose progress changed this frame: its object, progress, and
/// whether it is a drawn bar (straight or radial) rather than an overlay.
#[derive(Clone, Copy, Debug, PartialEq, Eq, Structural)]
pub struct ChangedBar {
    pub rel_id: EntityId,
    pub progress: Progress,
    pub is_physical: bool,
}

pub open spec fn full_events(bars: Seq<ChangedBar>) -> Seq<ProgressBarFullEvent>
    decreases bars.len(),
{
    if bars.len() == 0 {
        Seq::empty()
    } else {
        let prev = full_events(bars.drop_last());
        let b = bars.last();
        if b.is_physical && b.progress.0 >= PROGRESS_ONE {
            prev.push(ProgressBarFullEvent(b.rel_id))
        } else {
            prev
        }
    }
}

/// The full events of the changed bars, in order: one for each drawn bar
/// that is full.
pub fn bar_full_system(bars: &Vec<ChangedBar>) -> (r: Vec<ProgressBarFullEvent>)
    ensures
        r@ == full_events(bars@),
{
    let mut r: Vec<ProgressBarFullEvent> = Vec::new();
    let mut i: usize = 0;
    while i < bars.len()
        invariant
            i <= bars@.len(),
            r@ == full_events(bars@.subrange(0, i as int)),
        decreases bars@.len() - i,
    {
        assert(bars@.subrange(0, i + 1).drop_last() =~= bars@.subrange(0, i as int));
        let b = bars[i];
        if b.is_physical && b.progress.is_full() {
            r.push(ProgressBarFullEvent(b.rel_id));
        }
        i = i + 1;
    }
    assert(bars@.subrange(0, bars@.len() as int) =~= bars@);
    r
}

/// A bar's progress lies between empty and full.
pub open spec fn bars_in_range(bars: Seq<Bar>) -> bool {
    forall|i: int| 0 <= i < bars.len() ==> 0 <= #[trigger] bars[i].progress.0 <= PROGRESS_ONE
}

/// Counting up never takes a bar below empty or beyond full, whatever the
/// amounts.
pub proof fn count_up_stays_in_range(bars: Seq<Bar>, evs: Seq<ProgressBarCountUpEvent>)
    requires
        bars_in_range(bars),
    ensures
        bars_in_range(count_up_all(bars, evs)),
        count_up_all(bars, evs).len() == bars.len(),
    decreases evs.len(),
{
    if evs.len() > 0 {
        count_up_stays_in_range(bars, evs.drop_last());
        let prev = count_up_all(bars, evs.drop_last());
        assert forall|i: int| 0 <= i < prev.len() implies 0 <= #[trigger] count_up_bars(
            prev,
            evs.last(),
        )[i].progress.0 <= PROGRESS_ONE by {
            assert(0 <= prev[i].progress.0 <= PROGRESS_ONE);
        }
    }
}

/// After a reset every bar of its object is empty; the others keep their
/// progress.
pub proof fn reset_empties_bar(bars: Seq<Bar>, ev: ProgressBarResetEvent, i: int)
    requires
        0 <= i < bars.len(),
    ensures
        reset_all(bars, seq![ev])[i].progress.0 == if bars[i].rel_id == ev.spec_rel_id() {
            0
        } else {
            bars[i].progress.0
        },
{
    assert(seq![ev].drop_last() =~= Seq::<ProgressBarResetEvent>::empty());
    assert(reset_all(bars, seq![ev].drop_last()) == bars);
    assert(reset_all(bars, seq![ev]) == Seq::new(bars.len(), |j: int| reset_bar(bars[j], ev)));
}

} // verus!
