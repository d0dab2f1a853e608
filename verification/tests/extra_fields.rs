use pinball_defense::entity::EntityId;
use pinball_defense::game::audio::SoundEvent;
use pinball_defense::game::extra::charge::{charge_amount, on_charge, on_fire};
use pinball_defense::game::extra::effects::{
    ActiveEffects, BallDamageConfig, ball_damage, on_extra_field_fire, slow_reapply, EFFECT_MS,
    SLOW_FACTOR,
};
use pinball_defense::game::extra::field::{lane_occupied, pick_next_inactive};
use pinball_defense::game::extra::{ExtraField, ExtraFieldFireEvent, ExtraFieldKind};
use pinball_defense::game::progress::{
    bar_full_system, on_count_up, Bar, ChangedBar, Progress, ProgressBarCountUpEvent,
    ProgressBarFullEvent, RadialProgressBar,
};
use pinball_defense::geometry::Vec3;
use pinball_defense::units::PROGRESS_ONE;

const CFG: BallDamageConfig = BallDamageConfig {
    ball_enemy_damage: 100_000,
    ball_damage_per_level: 10_000,
};

#[test]
fn field_extra_field_pick_returns_none_when_all_active() {
    let kinds = [
        Some(ExtraFieldKind::ExtraBall),
        Some(ExtraFieldKind::SlowDown),
        Some(ExtraFieldKind::DoubleDamage),
        Some(ExtraFieldKind::InstaKill),
    ];
    assert_eq!(pick_next_inactive(&kinds), None);
}

#[test]
fn extra_field_pick_returns_first_inactive() {
    let kinds = [Some(ExtraFieldKind::ExtraBall), None, None, None];
    assert_eq!(pick_next_inactive(&kinds), Some(1));
    assert_eq!(pick_next_inactive(&[None, None, None, None]), Some(0));
}

#[test]
fn extra_field_lane_occupied_guard() {
    assert!(!lane_occupied(Vec3::new(1020, 657, 0), &[]));
    assert!(lane_occupied(Vec3::new(1020, 657, 0), &[Vec3::new(1020, 657, 0)]));
    assert!(!lane_occupied(Vec3::new(1020, 657, 0), &[Vec3::new(0, 0, 0)]));
    assert!(!lane_occupied(Vec3::new(1020, 657, 0), &[Vec3::new(1200, 657, 0)]));
}

#[test]
fn charge_extra_field_charge_amount_is_inverse_of_hits() {
    assert_eq!(charge_amount(2), PROGRESS_ONE / 2);
    assert_eq!(charge_amount(4), PROGRESS_ONE / 4);
    assert_eq!(charge_amount(8), PROGRESS_ONE / 8);
    assert_eq!(charge_amount(0), PROGRESS_ONE);
}

#[test]
fn ball_hit_on_extra_field_emits_count_up_event() {
    let field_id = EntityId(7);
    let field = ExtraField::new(ExtraFieldKind::SlowDown);
    let r = on_charge(field_id, &field, &ActiveEffects::default(), 0, false);
    let (ev, sound) = r.unwrap();
    assert_eq!(ev.rel_id(), field_id);
    assert_eq!(sound, SoundEvent::ExtraFieldHit);
}

#[test]
fn effects_extra_field_effect_active_boundary() {
    let mut effects = ActiveEffects::default();
    assert!(!effects.is_active(0, ExtraFieldKind::SlowDown));
    effects.slow_until = 5000;
    assert!(effects.is_active(4900, ExtraFieldKind::SlowDown));
    assert!(!effects.is_active(5000, ExtraFieldKind::SlowDown));
    assert!(!effects.is_active(5100, ExtraFieldKind::SlowDown));
    assert!(!effects.is_active(4900, ExtraFieldKind::ExtraBall));
    effects.extra_ball_until = 5000;
    assert!(effects.is_active(4900, ExtraFieldKind::ExtraBall));
    assert!(!effects.is_active(5000, ExtraFieldKind::ExtraBall));
}

#[test]
fn effects_extra_field_ball_damage_modes() {
    let mut effects = ActiveEffects::default();
    assert_eq!(ball_damage(&effects, 10_000, 300_000, 0, &CFG), -CFG.ball_enemy_damage);
    effects.double_damage_until = 5000;
    assert_eq!(ball_damage(&effects, 4900, 300_000, 0, &CFG), -2 * CFG.ball_enemy_damage);
    assert_eq!(ball_damage(&effects, 5000, 300_000, 0, &CFG), -CFG.ball_enemy_damage);
    effects.insta_kill_until = 20_000;
    assert_eq!(ball_damage(&effects, 15_000, 300_000, 0, &CFG), -300_000);
    assert_eq!(ball_damage(&effects, 20_000, 300_000, 0, &CFG), -CFG.ball_enemy_damage);
}

#[test]
fn ball_damage_scales_with_level() {
    let effects = ActiveEffects::default();
    let expected = |lvl: u8| -(CFG.ball_enemy_damage + i64::from(lvl) * CFG.ball_damage_per_level);
    assert_eq!(ball_damage(&effects, 10_000, 300_000, 0, &CFG), expected(0));
    assert_eq!(ball_damage(&effects, 10_000, 300_000, 3, &CFG), expected(3));
}

#[test]
fn charge_is_refused_while_effect_runs_or_bar_rewinds() {
    let field = ExtraField::new(ExtraFieldKind::InstaKill);
    let mut effects = ActiveEffects::default();
    assert!(on_charge(EntityId(1), &field, &effects, 0, true).is_none());
    effects.insta_kill_until = 100;
    assert!(on_charge(EntityId(1), &field, &effects, 50, false).is_none());
    let (ev, _) = on_charge(EntityId(1), &field, &effects, 100, false).unwrap();
    assert_eq!(ev.amount(), PROGRESS_ONE / 16);
}

#[test]
fn hits_needed_charges_fill_a_bar_exactly() {
    for kind in [
        ExtraFieldKind::ExtraBall,
        ExtraFieldKind::SlowDown,
        ExtraFieldKind::DoubleDamage,
        ExtraFieldKind::InstaKill,
    ] {
        let h = kind.hits_needed();
        let a = charge_amount(h);
        assert_eq!(a * i64::from(h), PROGRESS_ONE);
        assert!(a * i64::from(h - 1) < PROGRESS_ONE);
    }
}

#[test]
fn full_field_fires_its_kind() {
    let field = ExtraField::new(ExtraFieldKind::DoubleDamage);
    let fire = on_fire(ProgressBarFullEvent(EntityId(3)), &field);
    assert_eq!(fire, ExtraFieldFireEvent(ExtraFieldKind::DoubleDamage));
}

#[test]
fn fired_effect_lasts_its_time_and_extra_ball_needs_free_lane() {
    let mut effects = ActiveEffects::default();
    let spawned = on_extra_field_fire(
        &mut effects,
        1000,
        ExtraFieldFireEvent(ExtraFieldKind::SlowDown),
        Vec3::new(1020, 657, 0),
        &[],
    );
    assert!(!spawned);
    assert_eq!(effects.slow_until, 1000 + EFFECT_MS);
    assert!(effects.is_active(1000 + EFFECT_MS - 1, ExtraFieldKind::SlowDown));
    assert!(!effects.is_active(1000 + EFFECT_MS, ExtraFieldKind::SlowDown));
    assert_eq!(slow_reapply(&effects, 2000), Some(SLOW_FACTOR));
    assert_eq!(slow_reapply(&effects, 1000 + EFFECT_MS), None);

    let free = on_extra_field_fire(
        &mut effects,
        0,
        ExtraFieldFireEvent(ExtraFieldKind::ExtraBall),
        Vec3::new(1020, 657, 0),
        &[Vec3::new(0, 0, 0)],
    );
    assert!(free);
    let blocked = on_extra_field_fire(
        &mut effects,
        0,
        ExtraFieldFireEvent(ExtraFieldKind::ExtraBall),
        Vec3::new(1020, 657, 0),
        &[Vec3::new(1000, 600, 0)],
    );
    assert!(!blocked);
}

#[test]
fn slow_down_field_fires_on_its_fourth_hit() {
    let id = EntityId(40);
    let field = ExtraField::new(ExtraFieldKind::SlowDown);
    let mut bars = vec![Bar { rel_id: id, progress: Progress(0), radial: Some(RadialProgressBar { rewinding: false }) }];
    for hit in 1..=4 {
        let (ev, _) = on_charge(id, &field, &ActiveEffects::default(), 0, false).unwrap();
        on_count_up(&vec![ProgressBarCountUpEvent::new(ev.rel_id(), ev.amount())], &mut bars);
        let changed = vec![ChangedBar { rel_id: id, progress: bars[0].progress, is_physical: true }];
        let full = bar_full_system(&changed);
        if hit < 4 {
            assert!(full.is_empty());
        } else {
            assert_eq!(full, vec![ProgressBarFullEvent(id)]);
            assert_eq!(on_fire(full[0], &field), ExtraFieldFireEvent(ExtraFieldKind::SlowDown));
        }
    }
}
