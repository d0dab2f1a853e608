use pinball_defense::game::extra_field::{
    charge_amount, inactive_indices, pick_inactive_at, pick_random_inactive, ActiveEffects, ExtraFieldFireEvent, ExtraFieldKind,
};
use pinball_defense::game::extra_field_effects::{
    ball_damage, on_extra_field_fire, slow_reapply, EFFECT_MS, SLOW_FACTOR,
};
use pinball_defense::geometry::Vec3;
use pinball_defense::units::PROGRESS_ONE;
use rand::rngs::SmallRng;
use rand::SeedableRng;

#[test]
fn extra_field_extra_field_pick_returns_none_when_all_active() {
    let mut rng = SmallRng::seed_from_u64(42);
    let kinds = [
        Some(ExtraFieldKind::ExtraBall),
        Some(ExtraFieldKind::SlowDown),
        Some(ExtraFieldKind::DoubleDamage),
        Some(ExtraFieldKind::InstaKill),
    ];
    assert_eq!(pick_random_inactive(&mut rng, &kinds), None);
}

#[test]
fn extra_field_pick_returns_some_when_inactive_exist() {
    let mut rng = SmallRng::seed_from_u64(42);
    let kinds = [Some(ExtraFieldKind::ExtraBall), None, None, None];
    assert!(pick_random_inactive(&mut rng, &kinds).is_some());
}

#[test]
fn extra_field_pick_never_returns_active_kind() {
    let mut rng = SmallRng::seed_from_u64(7);
    let kinds = [
        Some(ExtraFieldKind::ExtraBall),
        None,
        Some(ExtraFieldKind::InstaKill),
        None,
    ];
    for _ in 0..100 {
        let picked = pick_random_inactive(&mut rng, &kinds).unwrap();
        assert!(kinds[picked].is_none());
    }
}

#[test]
fn random_pick_reaches_every_inactive_field() {
    let mut rng = SmallRng::seed_from_u64(11);
    let kinds = [None, Some(ExtraFieldKind::SlowDown), None, None];
    let mut seen = [false; 4];
    for _ in 0..200 {
        seen[pick_random_inactive(&mut rng, &kinds).unwrap()] = true;
    }
    assert_eq!(seen, [true, false, true, true]);
}

#[test]
fn extra_field_extra_field_charge_amount_is_inverse_of_hits() {
    assert_eq!(charge_amount(2), PROGRESS_ONE / 2);
    assert_eq!(charge_amount(4), PROGRESS_ONE / 4);
    assert_eq!(charge_amount(8), PROGRESS_ONE / 8);
    assert_eq!(charge_amount(0), PROGRESS_ONE);
}

#[test]
fn extra_field_effects_extra_field_effect_active_boundary() {
    let mut effects = ActiveEffects::default();
    assert!(!effects.is_active(0, ExtraFieldKind::SlowDown));
    effects.slow_until = 5000;
    assert!(effects.is_active(4900, ExtraFieldKind::SlowDown));
    assert!(!effects.is_active(5000, ExtraFieldKind::SlowDown));
    assert!(!effects.is_active(5100, ExtraFieldKind::SlowDown));
    assert!(!effects.is_active(4900, ExtraFieldKind::ExtraBall));
}

#[test]
fn extra_field_effects_extra_field_ball_damage_modes() {
    let mut effects = ActiveEffects::default();
    assert_eq!(ball_damage(&effects, 10_000, 300_000), -100_000);
    effects.double_damage_until = 5000;
    assert_eq!(ball_damage(&effects, 4900, 300_000), -200_000);
    assert_eq!(ball_damage(&effects, 5000, 300_000), -100_000);
    effects.insta_kill_until = 20_000;
    assert_eq!(ball_damage(&effects, 15_000, 300_000), -300_000);
    assert_eq!(ball_damage(&effects, 20_000, 300_000), -100_000);
}

#[test]
fn short_effects_last_five_seconds() {
    let mut effects = ActiveEffects::default();
    let spawned = on_extra_field_fire(
        &mut effects,
        2000,
        ExtraFieldFireEvent(ExtraFieldKind::InstaKill),
        Vec3::new(1020, 657, 0),
        &[],
    );
    assert!(!spawned);
    assert_eq!(effects.insta_kill_until, 2000 + EFFECT_MS);
    assert_eq!(ball_damage(&effects, 6999, 42_000), -42_000);
    assert_eq!(ball_damage(&effects, 7000, 42_000), -100_000);
    assert_eq!(slow_reapply(&effects, 3000), None);

    let before = effects;
    let spawned = on_extra_field_fire(
        &mut effects,
        2000,
        ExtraFieldFireEvent(ExtraFieldKind::ExtraBall),
        Vec3::new(1020, 657, 0),
        &[],
    );
    assert!(spawned);
    assert_eq!(effects, before);

    on_extra_field_fire(
        &mut effects,
        0,
        ExtraFieldFireEvent(ExtraFieldKind::SlowDown),
        Vec3::new(1020, 657, 0),
        &[],
    );
    assert_eq!(slow_reapply(&effects, 4999), Some(SLOW_FACTOR));
}

#[test]
fn inactive_fields_are_listed_in_order_and_picked_by_position() {
    let kinds = [
        None,
        Some(ExtraFieldKind::ExtraBall),
        None,
        Some(ExtraFieldKind::SlowDown),
        None,
    ];
    assert_eq!(inactive_indices(&kinds), vec![0, 2, 4]);
    assert_eq!(pick_inactive_at(&kinds, 0), 0);
    assert_eq!(pick_inactive_at(&kinds, 1), 2);
    assert_eq!(pick_inactive_at(&kinds, 2), 4);
    assert!(inactive_indices(&[Some(ExtraFieldKind::InstaKill)]).is_empty());
}
