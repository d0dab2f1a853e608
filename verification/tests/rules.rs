use pinball_defense::ball::{ball_reset, limit_velocity, on_ball_despawn, OnBallDespawn, Velocity};
use pinball_defense::collision_handler::{
    collision_system, CollisionEvent, TowerBaseCollisionStartEvent,
    TowerFoundationCollisionStartEvent,
};
use pinball_defense::entity::EntityId;
use pinball_defense::game::analog_counter::{
    on_set, on_set_event, turn_digits, AnalogCounterSetEvent, Digit, NUMBER_ROT, ROT_FULL,
};
use pinball_defense::game::audio::SoundEvent;
use pinball_defense::game::ball::clamp_ball_speed;
use pinball_defense::game::events::collision::TowerType;
use pinball_defense::game::health::Health;
use pinball_defense::game::level::{
    level_up_animation, level_up_system, on_add_points, on_level_up_lamp, LevelHub, LevelUpEvent,
    LevelUpLamp, PointHub, PointsEvent, LEVEL_UP_FLASH_MS,
};
use pinball_defense::game::light::Visibility;
use pinball_defense::game::pinball_menu::{
    execute, menu_event_system, spawn_menu_wanted, DespawnFoundationEvent, PinballMenuAction,
    PinballMenuEvent, PinballMenuStatus, SpawnTowerEvent, TOWER_Y,
};
use pinball_defense::game::progress::{
    bar_full_system, on_count_up, on_reset, Bar, ChangedBar, Progress, ProgressBarCountUpEvent,
    ProgressBarResetEvent, RadialProgressBar,
};
use pinball_defense::game::progress_bar;
use pinball_defense::geometry::Vec3;
use pinball_defense::units::{integer_sqrt, scale_toward_zero, PROGRESS_ONE};

#[test]
fn bar_full_system_fires_only_for_physical_bars() {
    let parent = EntityId(1);
    let bars = vec![
        ChangedBar { rel_id: parent, progress: Progress(PROGRESS_ONE), is_physical: true },
        ChangedBar { rel_id: parent, progress: Progress(PROGRESS_ONE), is_physical: false },
    ];
    let events = bar_full_system(&bars);
    assert_eq!(events.len(), 1);
    assert_eq!(events[0].0, parent);
}

#[test]
fn count_up_clamps_and_stops_fast_forward() {
    let a = EntityId(1);
    let b = EntityId(2);
    let mut bars = vec![
        Bar { rel_id: a, progress: Progress(PROGRESS_ONE - 10), radial: Some(RadialProgressBar { rewinding: true }) },
        Bar { rel_id: b, progress: Progress(5), radial: None },
        Bar { rel_id: a, progress: Progress(0), radial: None },
    ];
    let evs = vec![ProgressBarCountUpEvent::new(a, 100), ProgressBarCountUpEvent::new(b, -100)];
    on_count_up(&evs, &mut bars);
    assert_eq!(bars[0].progress, Progress(PROGRESS_ONE));
    assert_eq!(bars[0].radial, Some(RadialProgressBar { rewinding: false }));
    assert_eq!(bars[1].progress, Progress(0));
    assert_eq!(bars[2].progress, Progress(100));

    on_reset(&vec![ProgressBarResetEvent::new(a)], &mut bars);
    assert_eq!(bars[0].progress, Progress(0));
    assert_eq!(bars[0].radial, Some(RadialProgressBar { rewinding: true }));
    assert_eq!(bars[1].progress, Progress(0));
}

#[test]
fn straight_bar_counts_up_only_its_first_bar() {
    let a = EntityId(4);
    let mut bars = vec![
        (EntityId(9), progress_bar::ProgressBar(0)),
        (a, progress_bar::ProgressBar(PROGRESS_ONE / 2)),
        (a, progress_bar::ProgressBar(0)),
    ];
    let evs = vec![
        progress_bar::ProgressBarCountUpEvent::new(a, PROGRESS_ONE),
        progress_bar::ProgressBarCountUpEvent::new(EntityId(9), -1),
    ];
    progress_bar::on_count_up(&evs, &mut bars);
    assert_eq!(bars[0].1, progress_bar::ProgressBar(0));
    assert_eq!(bars[1].1, progress_bar::ProgressBar(PROGRESS_ONE));
    assert_eq!(bars[2].1, progress_bar::ProgressBar(0));
    let full = progress_bar::bar_full_system(&bars);
    assert_eq!(full.len(), 1);
    assert_eq!(full[0].0, a);
    let empty = progress_bar::bar_empty_system(&bars);
    assert_eq!(empty.len(), 2);
    assert_eq!(empty[0].0, EntityId(9));
    assert_eq!(empty[1].0, a);
}

#[test]
fn counter_set_turns_each_place_to_its_digit() {
    let counter = EntityId(1);
    let other = EntityId(2);
    let mut digits = vec![
        (counter, Digit::new(0)),
        (counter, Digit::new(1)),
        (other, Digit::new(0)),
        (counter, Digit::new(2)),
    ];
    on_set(407, counter, &mut digits);
    assert_eq!(digits[0].1.number, 7);
    assert_eq!(digits[1].1.number, 0);
    assert_eq!(digits[3].1.number, 4);
    assert!(digits[0].1.is_active && digits[3].1.is_active);
    assert!(!digits[2].1.is_active);

    let ev = AnalogCounterSetEvent::new(EntityId(50), 3);
    on_set_event(&ev, &vec![(other, EntityId(50))], &mut digits);
    assert_eq!(digits[2].1.number, 3);
    on_set_event(&AnalogCounterSetEvent::new(EntityId(99), 8), &vec![(other, EntityId(50))], &mut digits);
    assert_eq!(digits[2].1.number, 3);
}

#[test]
fn cylinder_turns_ticks_and_stops_on_its_number() {
    let mut d = Digit::new(0);
    d.set_number(2);
    let mut digits = vec![d];
    // Standing on 0, it ticks and turns on.
    let ticks = turn_digits(&mut digits, 10);
    assert_eq!(ticks, vec![SoundEvent::CounterTick]);
    assert_eq!(digits[0].current_rot, 50);
    // Still within the tolerance of 0: another tick.
    let ticks = turn_digits(&mut digits, 190);
    assert_eq!(ticks.len(), 1);
    assert_eq!(digits[0].current_rot, 1000);
    // On 1: a tick.
    let ticks = turn_digits(&mut digits, 200);
    assert_eq!(ticks.len(), 1);
    assert_eq!(digits[0].current_rot, 2000);
    // On 2, its number: it stops without a tick.
    let ticks = turn_digits(&mut digits, 200);
    assert!(ticks.is_empty());
    assert!(!digits[0].is_active);
    assert_eq!(digits[0].current_rot, 2 * NUMBER_ROT);
    assert!(digits[0].current_rot < ROT_FULL);
}

#[test]
fn stopping_cylinder_ends_the_frame() {
    let mut a = Digit::new(0);
    a.set_number(0);
    let mut b = Digit::new(1);
    b.set_number(5);
    let mut digits = vec![a, b];
    let ticks = turn_digits(&mut digits, 100);
    assert!(ticks.is_empty());
    assert!(!digits[0].is_active);
    assert_eq!(digits[1], b);
}

#[test]
fn ball_leaves_table_and_closes_menu() {
    assert!(ball_reset(Vec3::new(0, -1000, 0)));
    assert!(ball_reset(Vec3::new(0, 400, 0)));
    assert!(ball_reset(Vec3::new(1201, 0, -299)));
    assert!(!ball_reset(Vec3::new(1201, 0, -300)));
    assert!(!ball_reset(Vec3::new(0, 0, 0)));
    assert_eq!(on_ball_despawn(&vec![OnBallDespawn, OnBallDespawn]), Some(PinballMenuEvent::Deactivate));
    assert_eq!(on_ball_despawn(&vec![]), None);
}

#[test]
fn velocity_limit_scales_by_squared_speed() {
    let mut v = Velocity { linvel: Vec3::new(8000, 0, 0), angvel: Vec3::new(200_000, 0, 0) };
    limit_velocity(&mut v);
    // 40e6 / 64e6 of each coordinate.
    assert_eq!(v.linvel, Vec3::new(5000, 0, 0));
    // 2e10 / 4e10 of the turn.
    assert_eq!(v.angvel, Vec3::new(100_000, 0, 0));
    let mut slow = Velocity { linvel: Vec3::new(6000, 0, 0), angvel: Vec3::new(900_000, 0, 0) };
    let before = slow;
    limit_velocity(&mut slow);
    assert_eq!(slow, before);
}

#[test]
fn clamped_ball_keeps_direction_and_max_speed() {
    assert_eq!(clamp_ball_speed(Vec3::new(30_000, 40_000, 7)), Vec3::new(6000, 8000, 7));
    assert_eq!(clamp_ball_speed(Vec3::new(-20_000, 0, 0)), Vec3::new(-10_000, 0, 0));
    assert_eq!(clamp_ball_speed(Vec3::new(6000, -8000, 1)), Vec3::new(6000, -8000, 1));
    let r = clamp_ball_speed(Vec3::new(12_345, -67_891, 0));
    assert!(r.x * r.x + r.y * r.y <= 10_000 * 10_000);
    assert!(r.x > 0 && r.y < 0);
}

#[test]
fn integer_square_root_and_scaling() {
    assert_eq!(integer_sqrt(0), 0);
    assert_eq!(integer_sqrt(15), 3);
    assert_eq!(integer_sqrt(16), 4);
    assert_eq!(integer_sqrt(2_500_000_000), 50_000);
    assert_eq!(scale_toward_zero(-7, 1, 2), -3);
    assert_eq!(scale_toward_zero(7, 1, 2), 3);
}

#[test]
fn tower_parts_hit_by_the_ball() {
    let base = EntityId(1);
    let foundation = EntityId(2);
    let evs = vec![
        CollisionEvent::Started(foundation, EntityId(9)),
        CollisionEvent::Stopped(base, EntityId(9)),
        CollisionEvent::Started(base, EntityId(9)),
        CollisionEvent::Started(EntityId(9), base),
    ];
    let (bases, foundations) = collision_system(&evs, &vec![base], &vec![foundation]);
    assert_eq!(bases, vec![TowerBaseCollisionStartEvent(base)]);
    assert_eq!(foundations, vec![TowerFoundationCollisionStartEvent(foundation)]);
}

#[test]
fn menu_choice_builds_tower_on_selected_foundation() {
    let gun = EntityId(10);
    let tesla = EntityId(11);
    let elements = vec![(gun, TowerType::Gun), (tesla, TowerType::Tesla)];
    let hits = vec![(gun, false), (EntityId(3), true), (tesla, true), (gun, true)];
    let r = execute(&hits, &elements, Some(Vec3::new(100, 50, -200)));
    assert_eq!(
        r,
        Some((
            DespawnFoundationEvent,
            PinballMenuEvent::Disable,
            SpawnTowerEvent(TowerType::Tesla, Vec3::new(100, TOWER_Y, -200))
        ))
    );
    assert_eq!(execute(&hits, &elements, None), None);
    assert!(spawn_menu_wanted(true, false));
    assert!(!spawn_menu_wanted(true, true));
}

#[test]
fn menu_status_follows_first_request() {
    let mut status = PinballMenuStatus::Disabled;
    assert_eq!(menu_event_system(&vec![PinballMenuEvent::SetReady, PinballMenuEvent::Activate], &mut status), PinballMenuAction::Nothing);
    assert_eq!(status, PinballMenuStatus::Ready);
    assert_eq!(menu_event_system(&vec![PinballMenuEvent::Activate], &mut status), PinballMenuAction::Activate);
    assert_eq!(status, PinballMenuStatus::Activated);
    assert_eq!(menu_event_system(&vec![PinballMenuEvent::Deactivate], &mut status), PinballMenuAction::Deactivate);
    assert_eq!(status, PinballMenuStatus::Ready);
    assert_eq!(menu_event_system(&vec![PinballMenuEvent::Disable], &mut status), PinballMenuAction::Nothing);
    assert_eq!(status, PinballMenuStatus::Ready);
}

#[test]
fn points_and_level_up() {
    let mut hub = PointHub::default();
    on_add_points(&mut hub, &vec![PointsEvent::EnemyDied, PointsEvent::FlipperHit], 10);
    assert_eq!(hub.0, 870);
    let mut level = LevelHub::default();
    assert_eq!(level_up_system(&mut level, true, 0), Some(LevelUpEvent(1)));
    assert_eq!(level.points_level_up(), 2100);
    assert_eq!(level_up_system(&mut level, true, 2099), None);
    assert_eq!(level_up_system(&mut level, false, 5000), None);
    assert_eq!(level_up_system(&mut level, true, 2100), Some(LevelUpEvent(2)));
    assert_eq!(level.points_level_up(), 4400);
}

#[test]
fn level_up_lamp_flashes_four_seconds() {
    let mut lamp = LevelUpLamp { visibility: Visibility::Hidden, flashing: false, elapsed_ms: None };
    on_level_up_lamp(&vec![], &mut lamp);
    assert_eq!(lamp.elapsed_ms, None);
    on_level_up_lamp(&vec![LevelUpEvent(3)], &mut lamp);
    assert_eq!(lamp.visibility, Visibility::Inherited);
    assert!(lamp.flashing);
    level_up_animation(&mut lamp, 3000);
    assert_eq!(lamp.elapsed_ms, Some(3000));
    level_up_animation(&mut lamp, 3000);
    assert_eq!(lamp.elapsed_ms, Some(LEVEL_UP_FLASH_MS));
    assert!(lamp.flashing);
    level_up_animation(&mut lamp, 16);
    assert_eq!(lamp, LevelUpLamp { visibility: Visibility::Hidden, flashing: false, elapsed_ms: None });
}

#[test]
fn health_stays_between_empty_and_full() {
    let mut h = Health::new(100_000);
    h.add(-30_000);
    assert_eq!(h.current(), 70_000);
    h.add(50_000);
    assert_eq!(h.current(), 100_000);
    assert!(h.is_full());
    h.add(-500_000);
    assert_eq!(h.current(), 0);
    assert!(h.is_empty());
    assert_eq!(h.to_progress(-50_000), -PROGRESS_ONE / 2);
}

#[test]
fn slowed_ball_ends_below_the_speed_limit_keeping_signs() {
    let mut v = Velocity { linvel: Vec3::new(-7000, 3000, 2500), angvel: Vec3::new(3000, -4000, 0) };
    limit_velocity(&mut v);
    let l = v.linvel;
    assert!(l.x * l.x + l.y * l.y + l.z * l.z < 40_000_000);
    assert!(l.x < 0 && l.x >= -7000 && l.y > 0 && l.y <= 3000 && l.z > 0 && l.z <= 2500);
    // A slow turn is kept.
    assert_eq!(v.angvel, Vec3::new(3000, -4000, 0));
}
