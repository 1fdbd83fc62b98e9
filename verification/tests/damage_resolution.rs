use swarm_combat::arena::ArenaLayout;
use swarm_combat::arena::Viewport;
use swarm_combat::enemy::Enemy;
use swarm_combat::geom::Vec2;
use swarm_combat::motion::MovementDirectionX;
use swarm_combat::weapon::Weapon;
use swarm_combat::weapon::WeaponShotDamage;
use swarm_combat::weapon::WeaponShotParameters;

fn arena() -> ArenaLayout {
    ArenaLayout::new(&Viewport::new(1000, 1000))
}

fn enemy_at(a: &ArenaLayout, x: i64, y: i64) -> Enemy {
    Enemy::new(x, y, a, 0, 0, MovementDirectionX::Right)
}

fn direct_weapon(damage: i64) -> Weapon {
    Weapon::new(WeaponShotParameters {
        fire_interval: 1000,
        reload_duration: 1000,
        mag_capacity: 1,
        spread_cd: 0,
        projectiles: 1,
        damage: WeaponShotDamage::direct(damage),
        shot_speed: 100,
    })
}

#[test]
fn direct_hit_reduces_exactly_one_enemy() {
    let a = arena();
    let w = direct_weapon(15);
    let mut enemies = vec![enemy_at(&a, 500, 500), enemy_at(&a, 700, 500)];
    let shot = Vec2::new(500, 490);
    let applied = w.try_apply_damage(&shot, &mut enemies);
    assert_eq!(applied, Some(15));
    assert_eq!(enemies[0].health.actual, 85);
    assert_eq!(enemies[0].health.max, 100);
    assert_eq!(enemies[1].health.actual, 100);
}

#[test]
fn direct_shot_out_of_range_is_a_miss() {
    let a = arena();
    let w = direct_weapon(15);
    let mut enemies = vec![enemy_at(&a, 500, 500)];
    // Distance 16 is just outside the hit radius of 15.
    let applied = w.try_apply_damage(&Vec2::new(500, 484), &mut enemies);
    assert_eq!(applied, None);
    assert_eq!(enemies[0].health.actual, 100);
}

#[test]
fn direct_hit_at_exact_radius_counts() {
    let a = arena();
    let w = direct_weapon(10);
    let mut enemies = vec![enemy_at(&a, 500, 500)];
    let applied = w.try_apply_damage(&Vec2::new(500, 485), &mut enemies);
    assert_eq!(applied, Some(10));
    assert_eq!(enemies[0].health.actual, 90);
}

#[test]
fn hit_test_is_exact_euclidean() {
    let a = arena();
    let w = direct_weapon(10);
    // True distance sqrt(226), just over the radius of 15: a miss, even
    // though the distance rounded down is exactly 15.
    let mut enemies = vec![enemy_at(&a, 515, 501)];
    assert_eq!(w.try_apply_damage(&Vec2::new(500, 500), &mut enemies), None);
    assert_eq!(enemies[0].health.actual, 100);
    // A 9-12-15 triangle: true distance exactly 15, a hit.
    let mut enemies2 = vec![enemy_at(&a, 509, 512)];
    assert_eq!(w.try_apply_damage(&Vec2::new(500, 500), &mut enemies2), Some(10));
    assert_eq!(enemies2[0].health.actual, 90);
}

#[test]
fn direct_damage_goes_to_first_in_iteration_order() {
    let a = arena();
    let w = direct_weapon(15);
    // Both enemies are within hit range of the shot; only the first in
    // iteration order takes damage, and the scan stops there.
    let mut enemies = vec![enemy_at(&a, 500, 510), enemy_at(&a, 500, 495)];
    let applied = w.try_apply_damage(&Vec2::new(500, 500), &mut enemies);
    assert_eq!(applied, Some(15));
    assert_eq!(enemies[0].health.actual, 85);
    assert_eq!(enemies[1].health.actual, 100);
}

#[test]
fn explosive_without_trigger_does_nothing() {
    let a = arena();
    let w = Weapon::autocannon();
    // The enemy is inside the damage radius (100) but outside the hit
    // radius (15): no detonation, no damage.
    let mut enemies = vec![enemy_at(&a, 550, 500)];
    let applied = w.try_apply_damage(&Vec2::new(500, 500), &mut enemies);
    assert_eq!(applied, None);
    assert_eq!(enemies[0].health.actual, 100);
}

#[test]
fn explosive_linear_falloff_and_total() {
    let a = arena();
    let w = Weapon::autocannon();
    // Detonation at the first enemy: it takes the full 50; the enemy at
    // distance 60 takes 50 * (100 - 60) / 100 = 20; the total equals the
    // sum of the applied amounts.
    let mut enemies = vec![enemy_at(&a, 500, 500), enemy_at(&a, 560, 500)];
    let applied = w.try_apply_damage(&Vec2::new(500, 500), &mut enemies);
    assert_eq!(applied, Some(70));
    assert_eq!(enemies[0].health.actual, 50);
    assert_eq!(enemies[1].health.actual, 80);
}

#[test]
fn explosive_zero_at_radius_edge_and_beyond() {
    let a = arena();
    let w = Weapon::autocannon();
    // Enemy at exactly the damage radius receives zero; one beyond it is
    // untouched; the triggering enemy still takes the full damage.
    let mut enemies = vec![
        enemy_at(&a, 500, 500),
        enemy_at(&a, 600, 500),
        enemy_at(&a, 700, 500),
    ];
    let applied = w.try_apply_damage(&Vec2::new(500, 500), &mut enemies);
    assert_eq!(applied, Some(50));
    assert_eq!(enemies[0].health.actual, 50);
    assert_eq!(enemies[1].health.actual, 100);
    assert_eq!(enemies[2].health.actual, 100);
}

#[test]
fn explosive_radius_test_is_exact_euclidean() {
    let a = arena();
    let w = Weapon::autocannon();
    // Detonation at the first enemy. The second stands a 28-96-100
    // triangle away: true distance exactly the radius of 100, inside the
    // blast but dealt zero. The third is at squared distance 10004, just
    // beyond the radius: untouched.
    let mut enemies = vec![
        enemy_at(&a, 500, 500),
        enemy_at(&a, 528, 596),
        enemy_at(&a, 520, 598),
    ];
    let applied = w.try_apply_damage(&Vec2::new(500, 500), &mut enemies);
    assert_eq!(applied, Some(50));
    assert_eq!(enemies[0].health.actual, 50);
    assert_eq!(enemies[1].health.actual, 100);
    assert_eq!(enemies[2].health.actual, 100);
}

#[test]
fn explosive_damage_can_kill_through_zero() {
    let a = arena();
    let w = Weapon::new(WeaponShotParameters {
        fire_interval: 1000,
        reload_duration: 1000,
        mag_capacity: 1,
        spread_cd: 0,
        projectiles: 1,
        damage: WeaponShotDamage::explosive(150, 150),
        shot_speed: 100,
    });
    let mut enemies = vec![enemy_at(&a, 500, 500)];
    let applied = w.try_apply_damage(&Vec2::new(500, 500), &mut enemies);
    assert_eq!(applied, Some(150));
    // Health is not clamped at zero before death cleanup.
    assert_eq!(enemies[0].health.actual, -50);
    assert!(enemies[0].health.dead());
}
