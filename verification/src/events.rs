//! What full and empty bars of the first table layout lead to.
use vstd::prelude::*;
use crate::entity::EntityId;
use crate::game::ball::{contains_id, has_id};
use crate::game::progress_bar::{ProgressBarEmptyEvent, ProgressBarFullEvent};

verus! {

/// The foundations among the objects of full bars, in order: each is ready
/// to build on.
pub open spec fn ready_foundations(full: Seq<ProgressBarFullEvent>, foundations: Seq<EntityId>) -> Seq<EntityId>
    decreases full.len(),
{
    if full.len() == 0 {
        Seq::empty()
    } else {
        let prev = ready_foundations(full.drop_last(), foundations);
        if contains_id(foundations, full.last().0) {
            prev.push(full.last().0)
        } else {
            prev
        }
    }
}

/// The foundations whose bar became full, in order; they become ready to
/// build on. Full bars of other objects change nothing.
pub fn on_progress_bar_full(full: &Vec<ProgressBarFullEvent>, foundations: &Vec<EntityId>) -> (r: Vec<EntityId>)
    ensures
        r@ == ready_foundations(full@, foundations@),
{
    let mut r: Vec<EntityId> = Vec::new();
    let mut i: usize = 0;
    while i < full.len()
        invariant
            i <= full@.len(),
            r@ == ready_foundations(full@.subrange(0, i as int), foundations@),
        decreases full@.len() - i,
    {
        assert(full@.subrange(0, i + 1).drop_last() =~= full@.subrange(0, i as int));
        let id = full[i].0;
        if has_id(foundations, id) {
            r.push(id);
        }
        i = i + 1;
    }
    assert(full@.subrange(0, full@.len() as int) =~= full@);
    r
}

/// The number of empty bars that belong to a life bar: each one ends the
/// game.
pub open spec fn empty_life_bars(empty: Seq<ProgressBarEmptyEvent>, life_bars: Seq<EntityId>) -> nat
    decreases empty.len(),
{
    if empty.len() == 0 {
        0
    } else {
        empty_life_bars(empty.drop_last(), life_bars) + if contains_id(life_bars, empty.last().0) {
            1nat
        } else {
            0nat
        }
    }
}

/// How many empty bars of this frame are life bars; each announces the end
/// of the game.
pub fn on_progress_bar_empty(empty: &Vec<ProgressBarEmptyEvent>, life_bars: &Vec<EntityId>) -> (r: usize)
    ensures
        r == empty_life_bars(empty@, life_bars@),
{
    let mut n: usize = 0;
    let mut i: usize = 0;
    while i < empty.len()
        invariant
            i <= empty@.len(),
            n <= i,
            n == empty_life_bars(empty@.subrange(0, i as int), life_bars@),
        decreases empty@.len() - i,
    {
        assert(empty@.subrange(0, i + 1).drop_last() =~= empty@.subrange(0, i as int));
        if has_id(life_bars, empty[i].0) {
            n = n + 1;
        }
        i = i + 1;
    }
    assert(empty@.subrange(0, empty@.len() as int) =~= empty@);
    n
}

} // verus!
