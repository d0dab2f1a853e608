use pinball_defense::game::enemy_animation::{advance_phase, clip_weights, Clip, ModelConfig};

const CONFIG: ModelConfig = ModelConfig { walk_speed: 100, scale: 2000, curve_speed: 500, turn_speed: 1000 };

fn weight(weights: &[(Clip, i64)], kind: Clip) -> i64 {
    weights.iter().find(|(clip, _)| *clip == kind).map_or(0, |(_, value)| *value)
}

#[test]
fn missing_optional_clips_fall_back_to_walk() {
    let clips = [Clip::Walk];
    for (speed, yaw) in [(0, 0), (0, 2000), (200, 2000), (200, -2000)] {
        let weights = clip_weights(&clips, &CONFIG, speed, yaw);
        assert_eq!(weight(&weights, Clip::Walk), 1000);
        assert_eq!(weights.iter().map(|(_, value)| value).sum::<i64>(), 1000);
    }
}

#[test]
fn curve_weights_follow_turn_sign_and_relative_speed() {
    let clips = [
        Clip::Walk,
        Clip::WalkLeft,
        Clip::WalkRight,
        Clip::Idle,
        Clip::TurnLeft,
        Clip::TurnRight,
    ];
    let left = clip_weights(&clips, &CONFIG, 200, 250);
    let right = clip_weights(&clips, &CONFIG, 200, -250);
    let fast = clip_weights(&clips, &CONFIG, 400, 250);
    assert_eq!(weight(&left, Clip::WalkLeft), 500);
    assert_eq!(weight(&right, Clip::WalkRight), 500);
    assert_eq!(weight(&fast, Clip::WalkLeft), 250);
    assert_eq!(weight(&clip_weights(&clips, &CONFIG, 0, 0), Clip::Idle), 1000);
    assert_eq!(weight(&clip_weights(&clips, &CONFIG, 0, 200), Clip::TurnLeft), 1000);
    assert_eq!(weight(&clip_weights(&clips, &CONFIG, 0, -200), Clip::TurnRight), 1000);
}

#[test]
fn sharp_turn_is_all_curve_and_tiny_speed_too() {
    let clips = [Clip::Walk, Clip::WalkLeft];
    let w = clip_weights(&clips, &CONFIG, 200, 5000);
    assert_eq!(w, vec![(Clip::Walk, 0), (Clip::WalkLeft, 1000)]);
    let slow = ModelConfig { walk_speed: 1_000_000, scale: 1_000_000, ..CONFIG };
    assert_eq!(clip_weights(&clips, &slow, 1, 1), vec![(Clip::Walk, 0), (Clip::WalkLeft, 1000)]);
    assert_eq!(clip_weights(&clips, &slow, 1, 0), vec![(Clip::Walk, 1000), (Clip::WalkLeft, 0)]);
    // No right curve clip: turning right is plain walking.
    assert_eq!(clip_weights(&clips, &CONFIG, 200, -250), vec![(Clip::Walk, 1000), (Clip::WalkRight, 0)]);
}

#[test]
fn walking_phase_moves_by_frame_over_clip_length_and_wraps() {
    let clips = [(Clip::Idle, 2000), (Clip::Walk, 1000)];
    assert_eq!(advance_phase(&clips, &CONFIG, 200, 0, 0, 250), 250_000);
    assert_eq!(advance_phase(&clips, &CONFIG, 200, 0, 900_000, 250), 150_000);
    assert_eq!(advance_phase(&clips, &CONFIG, 100, 0, 0, 250), 125_000);
}

#[test]
fn turning_and_idle_phases_use_their_own_clips() {
    let clips = [(Clip::Idle, 2000), (Clip::TurnLeft, 500), (Clip::TurnRight, 250)];
    assert_eq!(advance_phase(&clips, &CONFIG, 0, 2000, 0, 100), 400_000);
    assert_eq!(advance_phase(&clips, &CONFIG, 0, -2000, 0, 100), 800_000);
    assert_eq!(advance_phase(&clips, &CONFIG, 0, 5, 0, 500), 250_000);
}

#[test]
fn empty_frame_or_missing_clip_keeps_phase() {
    let clips = [(Clip::Idle, 2000)];
    assert_eq!(advance_phase(&clips, &CONFIG, 200, 0, 123_456, 250), 123_456);
    assert_eq!(advance_phase(&clips, &CONFIG, 0, 0, 123_456, 0), 123_456);
    assert_eq!(advance_phase(&clips, &CONFIG, 0, 0, 123_456, -5), 123_456);
}
