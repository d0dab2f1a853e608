//! Which tower parts the ball starts touching.
use vstd::prelude::*;
use crate::entity::EntityId;
use crate::game::ball::{contains_id, has_id};

verus! {

/// A collision between two bodies starts or stops.
#[derive(Clone, Copy, Debug, PartialEq, Eq, Structural)]
pub enum CollisionEvent {
    Started(EntityId, EntityId),
    Stopped(EntityId, EntityId),
}

/// A collision with this tower base started.
#[derive(Clone, Copy, Debug, PartialEq, Eq, Structural)]
pub struct TowerBaseCollisionStartEvent(pub EntityId);

/// A collision with this tower foundation started.
#[derive(Clone, Copy, Debug, PartialEq, Eq, Structural)]
pub struct TowerFoundationCollisionStartEvent(pub EntityId);

/// The tower part, if any, whose collision the event starts: the first
/// body of a started collision, as a base if it is one, else as a
/// foundation if it is one.
pub open spec fn tower_start(
    ev: CollisionEvent,
    bases: Seq<EntityId>,
    foundations: Seq<EntityId>,
) -> Option<Result<TowerBaseCollisionStartEvent, TowerFoundationCollisionStartEvent>> {
    match ev {
        CollisionEvent::Started(e, _) => if contains_id(bases, e) {
            Some(Ok(TowerBaseCollisionStartEvent(e)))
        } else if contains_id(foundations, e) {
            Some(Err(TowerFoundationCollisionStartEvent(e)))
        } else {
            None
        },
        CollisionEvent::Stopped(_, _) => None,
    }
}

/// The base events of `evs`, in order.
pub open spec fn base_starts(
    evs: Seq<CollisionEvent>,
    bases: Seq<EntityId>,
    foundations: Seq<EntityId>,
) -> Seq<TowerBaseCollisionStartEvent>
    decreases evs.len(),
{
    if evs.len() == 0 {
        Seq::empty()
    } else {
        let prev = base_starts(evs.drop_last(), bases, foundations);
        match tower_start(evs.last(), bases, foundations) {
            Some(Ok(b)) => prev.push(b),
            _ => prev,
        }
    }
}

/// The foundation events of `evs`, in order.
pub open spec fn foundation_starts(
    evs: Seq<CollisionEvent>,
    bases: Seq<EntityId>,
    foundations: Seq<EntityId>,
) -> Seq<TowerFoundationCollisionStartEvent>
    decreases evs.len(),
{
    if evs.len() == 0 {
        Seq::empty()
    } else {
        let prev = foundation_starts(evs.drop_last(), bases, foundations);
        match tower_start(evs.last(), bases, foundations) {
            Some(Err(f)) => prev.push(f),
            _ => prev,
        }
    }
}

/// For this frame's collision events, in order, the tower bases and the
/// tower foundations whose collision started.
pub fn collision_system(
    evs: &Vec<CollisionEvent>,
    bases: &Vec<EntityId>,
    foundations: &Vec<EntityId>,
) -> (r: (Vec<TowerBaseCollisionStartEvent>, Vec<TowerFoundationCollisionStartEvent>))
    ensures
        r.0@ == base_starts(evs@, bases@, foundations@),
        r.1@ == foundation_starts(evs@, bases@, foundations@),
{
    let mut rb: Vec<TowerBaseCollisionStartEvent> = Vec::new();
    let mut rf: Vec<TowerFoundationCollisionStartEvent> = Vec::new();
    let mut i: usize = 0;
    while i < evs.len()
        invariant
            i <= evs@.len(),
            rb@ == base_starts(evs@.subrange(0, i as int), bases@, foundations@),
            rf@ == foundation_starts(evs@.subrange(0, i as int), bases@, foundations@),
        decreases evs@.len() - i,
    {
        assert(evs@.subrange(0, i + 1).drop_last() =~= evs@.subrange(0, i as int));
        match evs[i] {
            CollisionEvent::Started(e, _) => {
                if has_id(bases, e) {
                    rb.push(TowerBaseCollisionStartEvent(e));
                } else if has_id(foundations, e) {
                    rf.push(TowerFoundationCollisionStartEvent(e));
                }
            },
            CollisionEvent::Stopped(_, _) => {},
        }
        i = i + 1;
    }
    assert(evs@.subrange(0, evs@.len() as int) =~= evs@);
    (rb, rf)
}

} // verus!
