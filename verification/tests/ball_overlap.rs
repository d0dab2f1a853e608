use pinball_defense::entity::EntityId;
use pinball_defense::game::ball::{enemy_ball_overlap, CollisionWithBallEvent, EnemyDisc};
use pinball_defense::geometry::Vec3;

fn disc(id: u64, x: i64, y: i64, radius: i64) -> EnemyDisc {
    EnemyDisc { id: EntityId(id), pos: Vec3::new(x, y, 0), radius }
}

#[test]
fn overlapping_enemies_are_listed_once_and_new_ones_collide() {
    let ball = Vec3::new(0, 0, 0);
    let enemies = vec![disc(1, 20, 0, 30), disc(2, 500, 0, 30), disc(3, 0, -40, 30)];
    let (now, events) = enemy_ball_overlap(ball, &enemies, &vec![EntityId(1)]);
    assert_eq!(now, vec![EntityId(1), EntityId(3)]);
    assert_eq!(events, vec![CollisionWithBallEvent(EntityId(3))]);
    let (again, none) = enemy_ball_overlap(ball, &enemies, &now);
    assert_eq!(again, now);
    assert!(none.is_empty());
}
