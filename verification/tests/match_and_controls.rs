use pinball_defense::entity::EntityId;
use pinball_defense::game::audio::{sounds_to_play, SoundEvent};
use pinball_defense::game::ball_starter::{
    charge_system, fire_speed_by_pull, fire_system, on_charge_started, on_enter_idle,
    on_fire_started, plate_pull_factor, setup, spawn_ball_at_charge, spring_scale,
    BallStarterFireEndEvent, BallStarterState, Plate, SpawnBallEvent, STARTER_MAX_X, STARTER_MIN_X,
};
use pinball_defense::game::camera::{
    ball_start_tracking_shot, cam_ball_start_pos, cam_low_pos, init_tracking_shot, lens_at,
    look_pos, on_ball_start_cam, start_pos,
};
use pinball_defense::game::controls::{
    gamepad_connection, key_system, on_btn_changed, pause_btn_changed, pause_key_system,
    set_flipper_status, track_input_kind, GamepadAction, GamepadButton, GamepadButtonChanged,
    InputKind, Key, KeyboardControls, MyGamepad,
};
use pinball_defense::game::enemy::{
    ball_slow_down, enemy_color, enemy_max_health, on_health_empty, on_pinball_hit,
    on_road_end_reached, wave_sat, BallSlowDown, EnemyKind, OnEnemyDespawnEvent,
};
use pinball_defense::game::events::collision::{
    collision_outcome, collision_system, BarProgress, Collider, TowerType,
    FOUNDATION_HIT_PROGRESS, TOWER_BASE_HIT_PROGRESS,
};
use pinball_defense::game::events::tween_completed::{on_tween_completed, AfterTween};
use pinball_defense::game::flipper::{flipper_step, sound_for, Flipper, FlipperStatus, FlipperType};
use pinball_defense::game::health::{health_empty, health_recovery, Health, HealthEmptyEvent, HealthRecovery};
use pinball_defense::game::level::PointsEvent;
use pinball_defense::game::light::{fade_out, light_on_by_parent, ContactLight, Visibility, LIGHT_INTENSITY};
use pinball_defense::game::pinball_menu::PinballMenuEvent;
use pinball_defense::game::player_life::{life_bar_health, on_game_over};
use pinball_defense::game::{
    clean_up_on_exit_game, init_game, on_resume_game, on_set_pause, start_game, tick_ingame_timer,
    Clocks, EventState, GameState, IngameTime, UiState,
};
use pinball_defense::geometry::Vec3;
use pinball_defense::units::PROGRESS_ONE;

#[test]
fn match_starts_pauses_and_resumes() {
    assert_eq!(init_game(), GameState::Init);
    let m = start_game();
    assert_eq!(m.game, GameState::Ingame);
    assert_eq!(m.events, EventState::Active);
    assert_eq!(m.ui, UiState::Controls);
    let mut t = m.time;
    tick_ingame_timer(&mut t, 16);
    assert_eq!(t, IngameTime(16));
    let mut c = Clocks { physics_paused: false, virtual_paused: false };
    assert_eq!(on_set_pause(false, &mut c), None);
    assert_eq!(on_set_pause(true, &mut c), Some(GameState::Pause));
    assert!(c.physics_paused && c.virtual_paused);
    assert_eq!(on_resume_game(true, &mut c), Some(GameState::Ingame));
    assert!(!c.physics_paused && !c.virtual_paused);
    on_set_pause(true, &mut c);
    assert_eq!(clean_up_on_exit_game(&mut c), GameState::NoMatch);
    assert!(!c.physics_paused);
}

#[test]
fn keys_while_playing_and_paused() {
    let c = KeyboardControls::default();
    let a = key_system(&c, &vec![Key::KeyA, Key::Space, Key::KeyK], &vec![], UiState::Hidden);
    assert_eq!(a.left, Some(FlipperStatus::Pushed));
    assert_eq!(a.right, None);
    assert_eq!(a.ball_starter, Some(BallStarterState::Charge));
    assert_eq!(a.ui, Some(UiState::Controls));
    assert!(!a.spawn_ball && !a.open_menu && !a.game_over);
    let b = key_system(&c, &vec![Key::KeyD, Key::Escape], &vec![Key::KeyD, Key::Space], UiState::Controls);
    assert_eq!(b.right, Some(FlipperStatus::Idle));
    assert_eq!(b.ball_starter, Some(BallStarterState::Fire));
    assert!(b.open_menu);
    assert_eq!(b.pause_events, 1);
    let p = pause_key_system(&c, &vec![Key::KeyP], &vec![Key::KeyA]);
    assert!(p.resume && p.left_idle && !p.right_idle && !p.fire);
    let mut kind = InputKind::default();
    track_input_kind(true, true, &mut kind);
    assert_eq!(kind, InputKind::Keyboard);
    track_input_kind(false, true, &mut kind);
    assert_eq!(kind, InputKind::Gamepad);
}

#[test]
fn gamepad_buttons_and_connections() {
    let evs = vec![
        GamepadButtonChanged { button: GamepadButton::LeftTrigger, pressed: true, value: 800 },
        GamepadButtonChanged { button: GamepadButton::RightTrigger, pressed: false, value: 200 },
        GamepadButtonChanged { button: GamepadButton::South, pressed: false, value: 0 },
        GamepadButtonChanged { button: GamepadButton::East, pressed: true, value: 1000 },
        GamepadButtonChanged { button: GamepadButton::Start, pressed: true, value: 1000 },
    ];
    let acts = on_btn_changed(&evs, false, GameState::Ingame, BallStarterState::Charge);
    assert_eq!(
        acts,
        vec![
            GamepadAction::SetFlipper(FlipperType::Left, FlipperStatus::Pushed),
            GamepadAction::SetFlipper(FlipperType::Right, FlipperStatus::Idle),
            GamepadAction::SetBallStarter(BallStarterState::Fire),
            GamepadAction::SpawnBall,
            GamepadAction::Pause,
        ]
    );
    assert!(on_btn_changed(&evs, true, GameState::Ingame, BallStarterState::Idle).is_empty());
    assert_eq!(pause_btn_changed(&evs, false, GameState::Pause), 1);
    assert_eq!(pause_btn_changed(&evs, false, GameState::Ingame), 0);
    let g = gamepad_connection(true, 3, None);
    assert_eq!(g, Some(MyGamepad(3)));
    assert_eq!(gamepad_connection(true, 4, g), g);
    assert_eq!(gamepad_connection(false, 4, g), g);
    assert_eq!(gamepad_connection(false, 3, g), None);
}

#[test]
fn flipper_status_goes_to_first_of_its_type() {
    let mut fl = vec![
        (FlipperStatus::Idle, FlipperType::Right),
        (FlipperStatus::Idle, FlipperType::Left),
        (FlipperStatus::Idle, FlipperType::Left),
    ];
    set_flipper_status(FlipperType::Left, FlipperStatus::Pushed, &mut fl);
    assert_eq!(fl[1].0, FlipperStatus::Pushed);
    assert_eq!(fl[2].0, FlipperStatus::Idle);
    assert_eq!(fl[0].0, FlipperStatus::Idle);
    assert_eq!(FlipperStatus::by_value(499), FlipperStatus::Idle);
    assert_eq!(FlipperStatus::by_value(500), FlipperStatus::Pushed);
    assert_eq!(sound_for(FlipperStatus::Pushed), SoundEvent::FlipperPress);
}

#[test]
fn flipper_physics_step() {
    let mut f = Flipper::new();
    let speed = flipper_step(&mut f, FlipperStatus::Pushed, FlipperType::Right, 0, 10);
    assert_eq!(f.curr_angle, -10);
    assert_eq!(speed, -1000);
    assert_eq!(f.acceleration_factor, 1000 + 10 * 256);
    let speed = flipper_step(&mut f, FlipperStatus::Idle, FlipperType::Right, 390, 10);
    assert_eq!(f.curr_angle, 400);
    assert_eq!(speed, 1000);
    assert_eq!(flipper_step(&mut f, FlipperStatus::Idle, FlipperType::Left, 0, 0), 0);
}

#[test]
fn ball_starter_charges_and_fires() {
    assert_eq!(setup().0, Vec3::new(1020, 657, -20));
    assert_eq!(plate_pull_factor(STARTER_MIN_X), 0);
    assert_eq!(plate_pull_factor(STARTER_MAX_X), 1000);
    assert_eq!(fire_speed_by_pull(0), -1800);
    assert_eq!(fire_speed_by_pull(1000), -4200);
    assert_eq!(spring_scale(STARTER_MAX_X), 450);
    let mut p = Plate { x: -200, velocity_x: 5 };
    on_enter_idle(&mut p);
    assert_eq!(p, Plate { x: STARTER_MIN_X, velocity_x: 0 });
    let (_, sound) = on_charge_started(&mut p);
    assert_eq!(sound, SoundEvent::BallStarterCharge);
    assert_eq!(p.velocity_x, 240);
    p.x = 5;
    let (next, scale) = charge_system(&mut p, true);
    assert_eq!(next, None);
    assert_eq!(p, Plate { x: STARTER_MAX_X, velocity_x: 0 });
    assert_eq!(scale, 450);
    assert_eq!(charge_system(&mut p, false).0, Some(BallStarterState::Fire));
    assert_eq!(on_fire_started(&mut p), SoundEvent::BallStarterFire);
    assert_eq!(p.velocity_x, -4200);
    assert_eq!(fire_system(&mut p).1, None);
    p.x = -110;
    let (s, end, scale) = fire_system(&mut p);
    assert_eq!(s, Some(BallStarterState::Idle));
    assert_eq!(end, Some(BallStarterFireEndEvent));
    assert_eq!(scale, 1000);
    assert_eq!(spawn_ball_at_charge(0), Some(SpawnBallEvent));
    assert_eq!(spawn_ball_at_charge(2), None);
}

#[test]
fn camera_moves() {
    let opening = init_tracking_shot();
    assert_eq!(opening.start, start_pos());
    assert_eq!(opening.end, cam_low_pos());
    let (pos, look) = lens_at(&opening, 500);
    assert_eq!(pos, Vec3::new(2400, 900, 1400));
    assert_eq!(look, look_pos());
    let there = ball_start_tracking_shot(false, Vec3::new(1, 2, 3));
    let back = ball_start_tracking_shot(true, Vec3::new(1, 2, 3));
    assert_eq!(there.end, cam_ball_start_pos());
    assert_eq!(back.start, there.end);
    assert_eq!(back.look_at_start, there.look_at_end);
    assert_eq!(on_ball_start_cam(true, true, Vec3::new(1, 2, 3)), Some(there));
    assert_eq!(on_ball_start_cam(false, true, Vec3::new(1, 2, 3)), Some(back));
    assert_eq!(on_ball_start_cam(false, false, Vec3::new(1, 2, 3)), None);
}

#[test]
fn ball_collisions_lead_to() {
    let base = Collider {
        id: EntityId(1),
        lights_on_collision: true,
        is_tower_foundation: false,
        menu_element: None,
        is_enemy: false,
        is_flipper: false,
        is_tower_base: true,
    };
    let o = collision_outcome(base, false);
    assert_eq!(o.progress, Some(BarProgress { rel_id: EntityId(1), amount: TOWER_BASE_HIT_PROGRESS }));
    assert!(o.light_on.is_some() && !o.stop);
    let foundation = Collider { id: EntityId(2), is_tower_foundation: true, is_tower_base: false, ..base };
    let o = collision_outcome(foundation, true);
    assert_eq!(o.progress, Some(BarProgress { rel_id: EntityId(2), amount: FOUNDATION_HIT_PROGRESS }));
    assert!(o.stop);
    assert_eq!(FOUNDATION_HIT_PROGRESS * 4, PROGRESS_ONE);
    let menu = Collider { id: EntityId(3), menu_element: Some(TowerType::Gun), is_tower_base: false, ..base };
    assert_eq!(collision_outcome(menu, true).build_tower.map(|b| b.0), Some(TowerType::Gun));
    let flipper = Collider { id: EntityId(4), is_flipper: true, is_tower_base: false, ..base };
    assert_eq!(collision_outcome(flipper, false).menu, Some(PinballMenuEvent::Activate));
    let all = collision_system(&vec![(base, false), (flipper, false), (base, false)]);
    assert_eq!(all.len(), 2);
}

#[test]
fn finished_animations_follow_up() {
    let f = on_tween_completed(AfterTween::DeleteEntity, true);
    assert!(f.despawn_anim && !f.remove_marker);
    let f = on_tween_completed(AfterTween::ActivatePinballMenu, false);
    assert_eq!(f.menu, Some(PinballMenuEvent::SetReady));
    let f = on_tween_completed(AfterTween::ActivateTower, false);
    assert!(f.tower_ready && f.remove_marker);
}

#[test]
fn contact_lights_turn_on_and_fade() {
    let p = EntityId(7);
    let mut lights = vec![
        ContactLight { parent: p, visibility: Visibility::Hidden, intensity: 0, flashing: false },
        ContactLight { parent: p, visibility: Visibility::Hidden, intensity: 0, flashing: false },
    ];
    light_on_by_parent(p, &mut lights);
    assert_eq!(lights[0], ContactLight { parent: p, visibility: Visibility::Inherited, intensity: LIGHT_INTENSITY, flashing: false });
    assert_eq!(lights[1].visibility, Visibility::Hidden);
    let mut l = lights[0];
    fade_out(&mut l, 500);
    assert_eq!(l.intensity, LIGHT_INTENSITY / 2);
    fade_out(&mut l, 600);
    assert_eq!(l, ContactLight { parent: p, visibility: Visibility::Hidden, intensity: 0, flashing: false });
    let mut flashing = ContactLight { parent: p, visibility: Visibility::Inherited, intensity: 9, flashing: true };
    fade_out(&mut flashing, 600);
    assert_eq!(flashing.intensity, 9);
}

#[test]
fn life_bar_recovers_and_empty_life_ends_the_game() {
    let (h, rec) = life_bar_health();
    assert_eq!(h.current(), 100_000);
    let mut hurt = h;
    hurt.add(-10_000);
    assert_eq!(health_recovery(EntityId(1), &h, &rec, 0, 100), None);
    let ev = health_recovery(EntityId(1), &hurt, &rec, 0, 500).unwrap();
    assert_eq!(ev.amount(), 2000);
    let mut later = rec;
    later.set_time(1000);
    assert_eq!(health_recovery(EntityId(1), &hurt, &later, 6999, 500), None);
    assert!(health_recovery(EntityId(1), &hurt, &later, 7000, 500).is_some());
    let mut dead = Health::new(10);
    dead.add(-10);
    assert_eq!(health_empty(EntityId(1), &dead), Some(HealthEmptyEvent(EntityId(1))));
    assert_eq!(health_empty(EntityId(1), &h), None);
    let bars = vec![EntityId(1)];
    assert_eq!(on_game_over(&vec![HealthEmptyEvent(EntityId(1))], &bars), Some((GameState::GameOver, EventState::Inactive)));
    assert_eq!(on_game_over(&vec![HealthEmptyEvent(EntityId(2))], &bars), None);
    assert_eq!(HealthRecovery::new(5, 6).timeout(), 6);
}

#[test]
fn enemies_by_kind_and_wave() {
    assert_eq!(enemy_max_health(0, EnemyKind::Normal), 100_000);
    assert_eq!(enemy_max_health(4, EnemyKind::Tank), 900_000);
    assert_eq!(wave_sat(70_000), 65_535);
    assert_eq!(enemy_color(0), (30_000, 900, 600));
    assert_eq!(enemy_color(200), (220_000, 900, 50));
    assert_eq!(ball_slow_down(EnemyKind::Tank), BallSlowDown(900));
    let (change, slow, sound) = on_pinball_hit(EntityId(3), BallSlowDown(900), -250_000);
    assert_eq!(change.amount(), -250_000);
    assert_eq!(slow, Some(900));
    assert_eq!(sound, SoundEvent::BallHitsEnemy);
    assert_eq!(on_pinball_hit(EntityId(3), BallSlowDown(1000), -1).1, None);
    assert_eq!(on_health_empty(EntityId(3)), (OnEnemyDespawnEvent(EntityId(3)), PointsEvent::EnemyDied));
    let (up, s) = on_road_end_reached(EntityId(9));
    assert_eq!(up.amount() * 10, -PROGRESS_ONE);
    assert_eq!(s, SoundEvent::EnemyReachEnd);
}

#[test]
fn sounds_need_some_volume() {
    let evs = vec![SoundEvent::BallSpawn, SoundEvent::CounterTick];
    assert_eq!(sounds_to_play(500, &evs), evs);
    assert!(sounds_to_play(0, &evs).is_empty());
    assert!(SoundEvent::CounterTick.has_variants());
    assert!(!SoundEvent::BallSpawn.has_variants());
}
