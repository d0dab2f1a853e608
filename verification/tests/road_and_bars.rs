use pinball_defense::entity::EntityId;
use pinball_defense::events::{on_progress_bar_empty, on_progress_bar_full};
use pinball_defense::game::enemy::{Enemy, EnemyKind, Road, Step};
use pinball_defense::game::level::{on_add_worth, PointHub};
use pinball_defense::game::light::{
    add_flash_light, disable_flash_light, flash_idle_light, light_on_by_parent, ContactLight, Visibility,
};
use pinball_defense::game::progress_bar::{ProgressBarEmptyEvent, ProgressBarFullEvent};
use pinball_defense::geometry::Vec3;

fn road() -> Road {
    Road {
        points: vec![Vec3::new(0, 0, 0), Vec3::new(300, 400, 0), Vec3::new(300, 1400, 0)],
        dists: vec![500, 1000],
    }
}

#[test]
fn enemy_walks_the_road_to_its_end() {
    let road = road();
    let mut e = Enemy::new(0, EnemyKind::Normal);
    assert_eq!(e.current_speed(), 200);
    // One second at 200 mm/s along the first stretch (3-4-5 triangle).
    let p = e.walk(&road, Vec3::new(0, 0, 0), 1000).unwrap();
    assert_eq!(p, Vec3::new(120, 160, 0));
    assert_eq!(e.step(), Step { i_road_point: 1, distance_walked: 200 });
    // Another 1.5 s passes the first point: the enemy stands on it.
    let p = e.walk(&road, p, 1500).unwrap();
    assert_eq!(p, Vec3::new(300, 400, 0));
    assert_eq!(e.step(), Step { i_road_point: 2, distance_walked: 0 });
    let p = e.walk(&road, p, 2500).unwrap();
    assert_eq!(p, Vec3::new(300, 900, 0));
    // The rest of the last stretch ends the road.
    assert_eq!(e.walk(&road, p, 2500), None);
}

#[test]
fn slowed_enemy_walks_slower() {
    let road = road();
    let mut e = Enemy::new(0, EnemyKind::Speeder);
    assert_eq!(e.current_speed(), 600);
    e.slow_down(500);
    assert_eq!(e.current_speed(), 300);
    let p = e.walk(&road, Vec3::new(0, 0, 0), 1000).unwrap();
    assert_eq!(p, Vec3::new(180, 240, 0));
    e.recover_speed(1000);
    assert_eq!(e.current_speed(), 500);
    e.recover_speed(1000);
    assert_eq!(e.current_speed(), 600);
}

#[test]
fn full_foundations_and_empty_life_bars() {
    let foundation = EntityId(5);
    let life = EntityId(6);
    let full = vec![ProgressBarFullEvent(EntityId(1)), ProgressBarFullEvent(foundation)];
    assert_eq!(on_progress_bar_full(&full, &vec![foundation]), vec![foundation]);
    let empty = vec![ProgressBarEmptyEvent(life), ProgressBarEmptyEvent(EntityId(2)), ProgressBarEmptyEvent(life)];
    assert_eq!(on_progress_bar_empty(&empty, &vec![life]), 2);
    assert_eq!(on_progress_bar_empty(&empty, &vec![]), 0);
}

#[test]
fn object_worth_adds_points() {
    let mut hub = PointHub(5);
    on_add_worth(&mut hub, &vec![50, 20], 10);
    assert_eq!(hub.0, 705);
}

#[test]
fn selected_light_flashes_and_stops() {
    let a = EntityId(1);
    let mut lights = vec![
        ContactLight { parent: EntityId(9), visibility: Visibility::Hidden, intensity: 0, flashing: false },
        ContactLight { parent: a, visibility: Visibility::Hidden, intensity: 7, flashing: false },
    ];
    assert_eq!(add_flash_light(a, &mut lights), 1);
    assert_eq!(lights[1].visibility, Visibility::Inherited);
    assert_eq!(lights[1].intensity, 7);
    assert!(lights[1].flashing);
    assert_eq!(disable_flash_light(a, &mut lights), 1);
    assert_eq!(lights[1].visibility, Visibility::Hidden);
    assert!(!lights[1].flashing);
    assert_eq!(lights[0].visibility, Visibility::Hidden);
}

#[test]
fn disabling_hides_the_flashing_light_not_the_first() {
    let f = EntityId(3);
    let mut lights = vec![
        ContactLight { parent: f, visibility: Visibility::Inherited, intensity: 48000, flashing: false },
        ContactLight { parent: f, visibility: Visibility::Hidden, intensity: 0, flashing: false },
    ];
    // The first light is lit by a hit; the effect flashes the first one not flashing.
    assert_eq!(flash_idle_light(f, &mut lights), Some(0));
    assert!(lights[0].flashing);
    // A hit now lights the second light, the one that does not flash.
    light_on_by_parent(f, &mut lights);
    assert_eq!(lights[1].visibility, Visibility::Inherited);
    assert!(!lights[1].flashing);
    assert_eq!(disable_flash_light(f, &mut lights), 0);
    assert_eq!(lights[0].visibility, Visibility::Hidden);
    assert!(!lights[0].flashing);
    assert_eq!(lights[1].visibility, Visibility::Inherited);
    assert_eq!(flash_idle_light(EntityId(4), &mut lights), None);
}

#[test]
fn effect_flash_ends_on_the_light_it_started() {
    let f = EntityId(5);
    let before = vec![
        ContactLight { parent: EntityId(6), visibility: Visibility::Hidden, intensity: 0, flashing: true },
        ContactLight { parent: f, visibility: Visibility::Inherited, intensity: 300, flashing: false },
    ];
    let mut lights = before.clone();
    assert_eq!(flash_idle_light(f, &mut lights), Some(1));
    assert_eq!(disable_flash_light(f, &mut lights), 1);
    assert_eq!(lights[0], before[0]);
    assert_eq!(lights[1], ContactLight { visibility: Visibility::Hidden, ..before[1] });
}
