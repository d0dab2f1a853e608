//! The pinball menu: tower choices that rise from the table. It is ready
//! once it has risen, active while it can be hit, and disabled when gone.
use vstd::prelude::*;
use crate::entity::EntityId;
use crate::geometry::Vec3;
use super::events::collision::TowerType;

verus! {

/// Requests to the pinball menu.
#[derive(Clone, Copy, Debug, PartialEq, Eq, Structural)]
pub enum PinballMenuEvent {
    Disable,
    SetReady,
    Activate,
    Deactivate,
}

/// Where the pinball menu stands.
#[derive(Clone, Copy, Debug, PartialEq, Eq, Structural)]
pub enum PinballMenuStatus {
    Disabled,
    Ready,
    Activated,
}

impl Default for PinballMenuStatus {
    fn default() -> (r: Self)
        ensures
            r == PinballMenuStatus::Disabled,
    {
        PinballMenuStatus::Disabled
    }
}

/// The work that goes with a change of status.
#[derive(Clone, Copy, Debug, PartialEq, Eq, Structural)]
pub enum PinballMenuAction {
    /// Lower the elements, then remove the menu; lights off, hit areas off.
    Despawn,
    /// Lights on and hit areas on.
    Activate,
    /// Lights off and hit areas off.
    Deactivate,
    /// Nothing to do.
    Nothing,
}

/// The status after `ev`, with its work; `None` where the request does not
/// apply to the current status.
pub open spec fn spec_transition(ev: PinballMenuEvent, status: PinballMenuStatus) -> Option<(PinballMenuStatus, PinballMenuAction)> {
    match (ev, status) {
        (PinballMenuEvent::Disable, PinballMenuStatus::Activated) => Some((PinballMenuStatus::Disabled, PinballMenuAction::Despawn)),
        (PinballMenuEvent::SetReady, PinballMenuStatus::Disabled) => Some((PinballMenuStatus::Ready, PinballMenuAction::Nothing)),
        (PinballMenuEvent::Deactivate, PinballMenuStatus::Activated) => Some((PinballMenuStatus::Ready, PinballMenuAction::Deactivate)),
        (PinballMenuEvent::Activate, PinballMenuStatus::Ready) => Some((PinballMenuStatus::Activated, PinballMenuAction::Activate)),
        _ => None,
    }
}

pub fn transition(ev: PinballMenuEvent, status: PinballMenuStatus) -> (r: Option<(PinballMenuStatus, PinballMenuAction)>)
    ensures
        r == spec_transition(ev, status),
{
    match (ev, status) {
        (PinballMenuEvent::Disable, PinballMenuStatus::Activated) => Some((PinballMenuStatus::Disabled, PinballMenuAction::Despawn)),
        (PinballMenuEvent::SetReady, PinballMenuStatus::Disabled) => Some((PinballMenuStatus::Ready, PinballMenuAction::Nothing)),
        (PinballMenuEvent::Deactivate, PinballMenuStatus::Activated) => Some((PinballMenuStatus::Ready, PinballMenuAction::Deactivate)),
        (PinballMenuEvent::Activate, PinballMenuStatus::Ready) => Some((PinballMenuStatus::Activated, PinballMenuAction::Activate)),
        _ => None,
    }
}

/// Handles the first request of the frame (the others are dropped): the
/// status moves as `spec_transition` says and the work to do is returned.
pub fn menu_event_system(evs: &Vec<PinballMenuEvent>, status: &mut PinballMenuStatus) -> (r: PinballMenuAction)
    ensures
        evs@.len() == 0 ==> *final(status) == *old(status) && r == PinballMenuAction::Nothing,
        evs@.len() > 0 ==> match spec_transition(evs@[0], *old(status)) {
            Some((s, a)) => *final(status) == s && r == a,
            None => *final(status) == *old(status) && r == PinballMenuAction::Nothing,
        },
{
    if evs.len() == 0 {
        return PinballMenuAction::Nothing;
    }
    match transition(evs[0], *status) {
        Some((s, a)) => {
            *status = s;
            a
        },
        None => PinballMenuAction::Nothing,
    }
}

/// The menu becomes active only from ready: it has to rise first.
pub proof fn activated_only_from_ready(ev: PinballMenuEvent, status: PinballMenuStatus)
    ensures
        spec_transition(ev, status) matches Some((s, _)) && s == PinballMenuStatus::Activated
            ==> status == PinballMenuStatus::Ready && ev == PinballMenuEvent::Activate,
{
}

/// Every accepted request changes the status.
pub proof fn accepted_requests_change_status(ev: PinballMenuEvent, status: PinballMenuStatus)
    ensures
        spec_transition(ev, status) matches Some((s, _)) ==> s != status,
{
}

/// Deactivating and activating again returns to the active menu: the menu
/// can be switched off and on while it stands.
pub proof fn deactivate_then_activate(status: PinballMenuStatus)
    ensures
        spec_transition(PinballMenuEvent::Deactivate, status) matches Some((s1, _)) ==> (
        spec_transition(PinballMenuEvent::Activate, s1) matches Some((s2, _)) && s2 == status),
{
}

/// What each request does: disabling an active menu removes it (it goes
/// once a tower is chosen); a disabled menu that has risen becomes ready;
/// deactivating an active menu leaves it ready, lights and hit areas off;
/// activating a ready menu switches lights and hit areas on. Any other
/// request is ignored.
pub proof fn menu_requests(status: PinballMenuStatus)
    ensures
        spec_transition(PinballMenuEvent::Disable, status) == if status == PinballMenuStatus::Activated {
            Some((PinballMenuStatus::Disabled, PinballMenuAction::Despawn))
        } else {
            None
        },
        spec_transition(PinballMenuEvent::SetReady, status) == if status == PinballMenuStatus::Disabled {
            Some((PinballMenuStatus::Ready, PinballMenuAction::Nothing))
        } else {
            None
        },
        spec_transition(PinballMenuEvent::Deactivate, status) == if status == PinballMenuStatus::Activated {
            Some((PinballMenuStatus::Ready, PinballMenuAction::Deactivate))
        } else {
            None
        },
        spec_transition(PinballMenuEvent::Activate, status) == if status == PinballMenuStatus::Ready {
            Some((PinballMenuStatus::Activated, PinballMenuAction::Activate))
        } else {
            None
        },
{
}

/// The foundation under the menu goes once a tower is chosen.
#[derive(Clone, Copy, Debug, PartialEq, Eq, Structural)]
pub struct DespawnFoundationEvent;

/// Builds a tower of this type at this place.
#[derive(Clone, Copy, Debug, PartialEq, Eq, Structural)]
pub struct SpawnTowerEvent(pub TowerType, pub Vec3);

/// Height at which a tower stands on the table, millimetres.
pub const TOWER_Y: i64 = -25;

/// The tower type of the first menu element `id` among `elements`.
pub open spec fn element_type(elements: Seq<(EntityId, TowerType)>, id: EntityId) -> Option<TowerType>
    decreases elements.len(),
{
    if elements.len() == 0 {
        None
    } else {
        match element_type(elements.drop_last(), id) {
            Some(t) => Some(t),
            None => if elements.last().0 == id {
                Some(elements.last().1)
            } else {
                None
            },
        }
    }
}

/// The first sensor hit of a menu element among `hits` (pairs of what the
/// ball touched and whether it is a sensor), as its tower type.
pub open spec fn menu_choice(hits: Seq<(EntityId, bool)>, elements: Seq<(EntityId, TowerType)>) -> Option<TowerType>
    decreases hits.len(),
{
    if hits.len() == 0 {
        None
    } else {
        match menu_choice(hits.drop_last(), elements) {
            Some(t) => Some(t),
            None => if hits.last().1 {
                element_type(elements, hits.last().0)
            } else {
                None
            },
        }
    }
}

fn element_type_exec(elements: &Vec<(EntityId, TowerType)>, id: EntityId) -> (r: Option<TowerType>)
    ensures
        r == element_type(elements@, id),
{
    let mut i: usize = 0;
    while i < elements.len()
        invariant
            i <= elements@.len(),
            element_type(elements@.subrange(0, i as int), id) is None,
        decreases elements@.len() - i,
    {
        assert(elements@.subrange(0, i + 1).drop_last() =~= elements@.subrange(0, i as int));
        let (e, t) = elements[i];
        if e == id {
            proof { lemma_element_prefix_stable(elements@, id, i + 1); }
            return Some(t);
        }
        i = i + 1;
    }
    assert(elements@.subrange(0, elements@.len() as int) =~= elements@);
    None
}

proof fn lemma_element_prefix_stable(elements: Seq<(EntityId, TowerType)>, id: EntityId, n: int)
    requires
        0 <= n <= elements.len(),
        element_type(elements.subrange(0, n), id) is Some,
    ensures
        element_type(elements, id) == element_type(elements.subrange(0, n), id),
    decreases elements.len() - n,
{
    if n < elements.len() {
        assert(elements.subrange(0, n + 1).drop_last() =~= elements.subrange(0, n));
        lemma_element_prefix_stable(elements, id, n + 1);
    } else {
        assert(elements.subrange(0, n) =~= elements);
    }
}

proof fn lemma_choice_prefix_stable(hits: Seq<(EntityId, bool)>, elements: Seq<(EntityId, TowerType)>, n: int)
    requires
        0 <= n <= hits.len(),
        menu_choice(hits.subrange(0, n), elements) is Some,
    ensures
        menu_choice(hits, elements) == menu_choice(hits.subrange(0, n), elements),
    decreases hits.len() - n,
{
    if n < hits.len() {
        assert(hits.subrange(0, n + 1).drop_last() =~= hits.subrange(0, n));
        lemma_choice_prefix_stable(hits, elements, n + 1);
    } else {
        assert(hits.subrange(0, n) =~= hits);
    }
}

/// What the ball chose in the menu this frame: with a selected foundation
/// at `selected`, the first sensor hit of a menu element removes the
/// foundation, closes the menu and builds that tower on the table below
/// the foundation; without a selected foundation nothing is chosen.
pub fn execute(
    hits: &Vec<(EntityId, bool)>,
    elements: &Vec<(EntityId, TowerType)>,
    selected: Option<Vec3>,
) -> (r: Option<(DespawnFoundationEvent, PinballMenuEvent, SpawnTowerEvent)>)
    ensures
        r == match (selected, menu_choice(hits@, elements@)) {
            (Some(p), Some(t)) => Some(
                (
                    DespawnFoundationEvent,
                    PinballMenuEvent::Disable,
                    SpawnTowerEvent(t, Vec3 { x: p.x, y: TOWER_Y, z: p.z }),
                ),
            ),
            _ => None,
        },
{
    let pos = match selected {
        Some(p) => p,
        None => return None,
    };
    let mut i: usize = 0;
    while i < hits.len()
        invariant
            i <= hits@.len(),
            selected == Some(pos),
            menu_choice(hits@.subrange(0, i as int), elements@) is None,
        decreases hits@.len() - i,
    {
        assert(hits@.subrange(0, i + 1).drop_last() =~= hits@.subrange(0, i as int));
        let (id, sensor) = hits[i];
        if sensor {
            match element_type_exec(elements, id) {
                Some(t) => {
                    proof { lemma_choice_prefix_stable(hits@, elements@, i + 1); }
                    return Some(
                        (
                            DespawnFoundationEvent,
                            PinballMenuEvent::Disable,
                            SpawnTowerEvent(t, Vec3 { x: pos.x, y: TOWER_Y, z: pos.z }),
                        ),
                    );
                },
                None => {},
            }
        }
        i = i + 1;
    }
    assert(hits@.subrange(0, hits@.len() as int) =~= hits@);
    None
}

/// A menu rises over a selected foundation when there is none yet.
pub fn spawn_menu_wanted(foundation_selected: bool, menu_exists: bool) -> (r: bool)
    ensures
        r == (foundation_selected && !menu_exists),
{
    foundation_selected && !menu_exists
}

} // verus!
