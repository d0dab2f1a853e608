//! Collision layers and groups, and the collision events of the table.
use vstd::prelude::*;
use crate::entity::EntityId;
use crate::units::PROGRESS_ONE;
use crate::game::pinball_menu::PinballMenuEvent;

verus! {

/// The physics layers of the table.
#[derive(Clone, Copy, Debug, PartialEq, Eq, Structural)]
pub enum GameLayer {
    Ball,
    Enemy,
    Tower,
    Board,
}

impl Default for GameLayer {
    fn default() -> (r: Self)
        ensures
            r == GameLayer::Board,
    {
        GameLayer::Board
    }
}

/// Collision groups as bit masks: a collider is a member of `memberships`
/// and collides with the members of `filters`.
#[derive(Clone, Copy, Debug, PartialEq, Eq, Structural)]
pub struct CollisionGroups {
    pub memberships: u32,
    pub filters: u32,
}

/// The ball's group.
pub const BALL: u32 = 1;
/// The group of objects the ball can hit.
pub const INTERACT_WITH_BALL: u32 = 2;
/// The enemies' group.
pub const ENEMY: u32 = 4;
/// The group of objects enemies can hit.
pub const INTERACT_WITH_ENEMY: u32 = 8;

/// A collider that only the ball hits.
pub fn collider_only_interact_with_ball() -> (r: CollisionGroups)
    ensures
        r == (CollisionGroups { memberships: INTERACT_WITH_BALL, filters: BALL }),
{
    CollisionGroups { memberships: INTERACT_WITH_BALL, filters: BALL }
}

/// A collider that only enemies hit.
pub fn collider_only_interact_with_enemy() -> (r: CollisionGroups)
    ensures
        r == (CollisionGroups { memberships: INTERACT_WITH_ENEMY, filters: ENEMY }),
{
    CollisionGroups { memberships: INTERACT_WITH_ENEMY, filters: ENEMY }
}

/// The kinds of tower.
#[derive(Clone, Copy, Debug, PartialEq, Eq, Structural)]
pub enum TowerType {
    Gun,
    Tesla,
    Microwave,
}

/// The ball touched an element of the tower menu.
#[derive(Clone, Copy, Debug, PartialEq, Eq, Structural)]
pub struct TowerMenuElementCollisionStartEvent(pub EntityId);

/// The contact light of the carried object turns on.
#[derive(Clone, Copy, Debug, PartialEq, Eq, Structural)]
pub struct ContactLightOnEvent(pub EntityId);

/// A tower of the carried type is to be built.
#[derive(Clone, Copy, Debug, PartialEq, Eq, Structural)]
pub struct BuildTowerEvent(pub TowerType);

/// The ball hit the carried enemy.
#[derive(Clone, Copy, Debug, PartialEq, Eq, Structural)]
pub struct PinballEnemyHitEvent(pub EntityId);

/// What the other party of a ball collision is. The fields say which kinds
/// of object it is; a tower menu element carries its tower type.
#[derive(Clone, Copy, Debug, PartialEq, Eq, Structural)]
pub struct Collider {
    pub id: EntityId,
    pub lights_on_collision: bool,
    pub is_tower_foundation: bool,
    pub menu_element: Option<TowerType>,
    pub is_enemy: bool,
    pub is_flipper: bool,
    pub is_tower_base: bool,
}

/// Progress to add to the bar of an object.
#[derive(Clone, Copy, Debug, PartialEq, Eq, Structural)]
pub struct BarProgress {
    pub rel_id: EntityId,
    pub amount: i64,
}

/// What one collision start leads to.
#[derive(Clone, Copy, Debug, PartialEq, Eq, Structural)]
pub struct CollisionOutcome {
    pub light_on: Option<ContactLightOnEvent>,
    /// Progress for the bar of a foundation or tower base.
    pub progress: Option<BarProgress>,
    pub build_tower: Option<BuildTowerEvent>,
    pub enemy_hit: Option<PinballEnemyHitEvent>,
    pub menu: Option<PinballMenuEvent>,
    /// No later collision of the frame is handled.
    pub stop: bool,
}

/// Progress of a foundation per hit: a quarter bar.
pub const FOUNDATION_HIT_PROGRESS: i64 = 180180;
/// Progress of a tower base per hit: a twentieth of a bar.
pub const TOWER_BASE_HIT_PROGRESS: i64 = 36036;

/// The outcome of the collision of the ball with `c`; `sensor` tells a
/// sensor contact from a solid one. Lights go on for any contact. Through a
/// sensor, a foundation charges and a menu element builds its tower (each
/// ends the frame's handling), and an enemy is hit. Solid contacts: a
/// flipper opens the pinball menu (ending the frame's handling), a tower
/// base charges.
pub open spec fn spec_collision(c: Collider, sensor: bool) -> CollisionOutcome {
    let light = if c.lights_on_collision { Some(ContactLightOnEvent(c.id)) } else { None };
    if sensor && c.is_tower_foundation {
        CollisionOutcome { light_on: light, progress: Some(BarProgress { rel_id: c.id, amount: FOUNDATION_HIT_PROGRESS }),
            build_tower: None, enemy_hit: None, menu: None, stop: true }
    } else if sensor && c.menu_element is Some {
        CollisionOutcome { light_on: light, progress: None,
            build_tower: Some(BuildTowerEvent(c.menu_element.unwrap())), enemy_hit: None, menu: None, stop: true }
    } else {
        let enemy = if sensor && c.is_enemy { Some(PinballEnemyHitEvent(c.id)) } else { None };
        if c.is_flipper {
            CollisionOutcome { light_on: light, progress: None, build_tower: None, enemy_hit: enemy,
                menu: Some(PinballMenuEvent::Activate), stop: true }
        } else {
            CollisionOutcome { light_on: light,
                progress: if c.is_tower_base { Some(BarProgress { rel_id: c.id, amount: TOWER_BASE_HIT_PROGRESS }) } else { None },
                build_tower: None, enemy_hit: enemy, menu: None, stop: false }
        }
    }
}

pub fn collision_outcome(c: Collider, sensor: bool) -> (r: CollisionOutcome)
    ensures
        r == spec_collision(c, sensor),
{
    let light = if c.lights_on_collision { Some(ContactLightOnEvent(c.id)) } else { None };
    if sensor && c.is_tower_foundation {
        return CollisionOutcome { light_on: light, progress: Some(BarProgress { rel_id: c.id, amount: FOUNDATION_HIT_PROGRESS }),
            build_tower: None, enemy_hit: None, menu: None, stop: true };
    }
    if sensor {
        match c.menu_element {
            Some(t) => {
                return CollisionOutcome { light_on: light, progress: None,
                    build_tower: Some(BuildTowerEvent(t)), enemy_hit: None, menu: None, stop: true };
            },
            None => {},
        }
    }
    let enemy = if sensor && c.is_enemy { Some(PinballEnemyHitEvent(c.id)) } else { None };
    if c.is_flipper {
        return CollisionOutcome { light_on: light, progress: None, build_tower: None, enemy_hit: enemy,
            menu: Some(PinballMenuEvent::Activate), stop: true };
    }
    CollisionOutcome { light_on: light,
        progress: if c.is_tower_base { Some(BarProgress { rel_id: c.id, amount: TOWER_BASE_HIT_PROGRESS }) } else { None },
        build_tower: None, enemy_hit: enemy, menu: None, stop: false }
}

/// What a ball contact does. The contact light of an object that lights on
/// collision goes on, through a sensor or not. Through a sensor: a tower
/// foundation gets a quarter bar and ends the frame's handling; else a tower
/// menu element builds its tower and ends it; else an enemy is hit. A solid
/// contact hits no enemy and builds nothing: a flipper opens the pinball
/// menu and ends the handling, else a tower base gets a twentieth of a bar.
/// Nothing else ends the handling.
pub proof fn ball_contacts(c: Collider, sensor: bool)
    ensures
        ({
            let r = spec_collision(c, sensor);
            &&& r.light_on == (if c.lights_on_collision { Some(ContactLightOnEvent(c.id)) } else { None })
            &&& sensor && c.is_tower_foundation ==> (r.progress matches Some(p) && p.rel_id == c.id
                && 4 * p.amount == PROGRESS_ONE) && r.stop && r.build_tower is None && r.enemy_hit is None && r.menu is None
            &&& sensor && !c.is_tower_foundation && c.menu_element is Some ==> r.build_tower == Some(
                BuildTowerEvent(c.menu_element->0)) && r.stop && r.progress is None && r.enemy_hit is None && r.menu is None
            &&& sensor && !c.is_tower_foundation && c.menu_element is None && c.is_enemy ==> r.enemy_hit == Some(
                PinballEnemyHitEvent(c.id))
            &&& sensor && !c.is_tower_foundation && c.menu_element is None && !c.is_enemy ==> r.enemy_hit is None
            &&& !sensor ==> r.enemy_hit is None && r.build_tower is None
            &&& !(sensor && (c.is_tower_foundation || c.menu_element is Some)) && c.is_flipper ==> r.menu == Some(
                PinballMenuEvent::Activate) && r.stop && r.progress is None
            &&& !(sensor && (c.is_tower_foundation || c.menu_element is Some)) && !c.is_flipper ==> r.menu is None
                && !r.stop && r.build_tower is None && (r.progress is Some <==> c.is_tower_base)
            &&& !(sensor && (c.is_tower_foundation || c.menu_element is Some)) && !c.is_flipper && c.is_tower_base
                ==> (r.progress matches Some(p) && p.rel_id == c.id && 20 * p.amount == PROGRESS_ONE)
        }),
{
}

/// The outcomes of the frame's collisions in order, up to and including the
/// first one that ends the handling.
pub fn collision_system(starts: &Vec<(Collider, bool)>) -> (r: Vec<CollisionOutcome>)
    ensures
        r@.len() <= starts@.len(),
        forall|i: int| 0 <= i < r@.len() ==> #[trigger] r@[i] == spec_collision(starts@[i].0, starts@[i].1),
        forall|i: int| 0 <= i < r@.len() - 1 ==> !(#[trigger] r@[i]).stop,
        r@.len() < starts@.len() ==> r@.len() > 0 && r@[r@.len() - 1].stop,
{
    let mut r: Vec<CollisionOutcome> = Vec::new();
    let mut i: usize = 0;
    while i < starts.len()
        invariant
            i <= starts@.len(),
            r@.len() == i,
            forall|k: int| 0 <= k < i ==> #[trigger] r@[k] == spec_collision(starts@[k].0, starts@[k].1),
            forall|k: int| 0 <= k < i ==> !(#[trigger] r@[k]).stop,
        decreases starts@.len() - i,
    {
        let (c, sensor) = starts[i];
        let o = collision_outcome(c, sensor);
        r.push(o);
        if o.stop {
            return r;
        }
        i = i + 1;
    }
    r
}


} // verus!
