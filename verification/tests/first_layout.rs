use pinball_defense::ball_starter::{
    charge_system, fire_system, spawn_ball_at_charge, BallStarterState, Plate, HALF_SIZE_X,
    START_SPEED,
};
use pinball_defense::flipper::{flipper_name, flipper_system, MAX_ANGLE};
use pinball_defense::game::flipper::{Flipper, FlipperStatus, FlipperType};
use pinball_defense::game::level::LevelHub;
use pinball_defense::units::PROGRESS_ONE;

#[test]
fn plate_charges_back_and_stops_at_the_end() {
    let mut p = Plate::new();
    assert_eq!(p, Plate { x: -HALF_SIZE_X, speed: START_SPEED });
    charge_system(&mut p, 100);
    assert_eq!(p.x, -HALF_SIZE_X + 20_000);
    charge_system(&mut p, 10_000);
    assert_eq!(p.x, HALF_SIZE_X);
    assert!(spawn_ball_at_charge(0));
    assert!(!spawn_ball_at_charge(1));
}

#[test]
fn fired_plate_speeds_up_and_goes_idle_at_the_front() {
    let mut p = Plate { x: HALF_SIZE_X, speed: START_SPEED };
    // 10 ms: the speed grows by 32 % per second, 0.32 % here.
    assert_eq!(fire_system(&mut p, 10), None);
    assert_eq!(p.speed, 1_320_000);
    assert_eq!(p.x, HALF_SIZE_X - 13_200);
    let mut frames = 0;
    loop {
        frames += 1;
        if let Some(s) = fire_system(&mut p, 10) {
            assert_eq!(s, BallStarterState::Idle);
            break;
        }
        assert!(frames < 100);
    }
    assert_eq!(p, Plate { x: -HALF_SIZE_X, speed: START_SPEED });
    assert_eq!(fire_system(&mut p, 0), Some(BallStarterState::Idle));
}

#[test]
fn direct_flipper_swings_up_faster_and_falls_back() {
    let mut f = Flipper::new();
    flipper_system(&mut f, FlipperStatus::Pushed, FlipperType::Right, 10);
    assert_eq!(f.curr_angle, -10);
    assert_eq!(f.acceleration_factor, 6000);
    flipper_system(&mut f, FlipperStatus::Pushed, FlipperType::Right, 10);
    assert_eq!(f.curr_angle, -70);
    flipper_system(&mut f, FlipperStatus::Pushed, FlipperType::Right, 100);
    assert_eq!(f.curr_angle, -MAX_ANGLE);
    flipper_system(&mut f, FlipperStatus::Idle, FlipperType::Right, 10);
    assert_eq!(f.curr_angle, -MAX_ANGLE + 80);
    assert_eq!(f.acceleration_factor, 1000);
    flipper_system(&mut f, FlipperStatus::Idle, FlipperType::Left, 1000);
    assert_eq!(f.curr_angle, -MAX_ANGLE);
    assert_eq!(flipper_name(FlipperType::Left), "Flipper Left");
    assert_eq!(flipper_name(FlipperType::Right), "Flipper Right");
}

#[test]
fn foundation_hits_shrink_with_the_level() {
    let mut level = LevelHub::default();
    assert_eq!(level.foundation_hit_progress(), None);
    level.level_up();
    assert_eq!(level.foundation_hit_progress(), Some(PROGRESS_ONE / 3));
    level.level_up();
    assert_eq!(level.foundation_hit_progress(), Some(PROGRESS_ONE / 6));
}
