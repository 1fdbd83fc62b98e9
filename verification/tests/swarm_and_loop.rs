use rand::SeedableRng;
use swarm_combat::arena::ArenaLayout;
use swarm_combat::arena::Viewport;
use swarm_combat::encounter::move_projectile;
use swarm_combat::encounter::EncounterState;
use swarm_combat::encounter::InputState;
use swarm_combat::enemy::game_over_swarm_criteria;
use swarm_combat::enemy::move_enemies;
use swarm_combat::enemy::spawn_enemy_swarm;
use swarm_combat::enemy::Enemy;
use swarm_combat::enemy::ENEMY_SWARM_COUNT;
use swarm_combat::geom::Vec2;
use swarm_combat::motion::MovementDirectionX;
use swarm_combat::player::Player;
use swarm_combat::projectile::Projectile;
use swarm_combat::weapon::TimerState;
use swarm_combat::weapon::Weapon;
use swarm_combat::weapon::WeaponShotDamage;
use swarm_combat::weapon::WeaponShotParameters;

fn rng() -> rand::rngs::StdRng {
    rand::rngs::StdRng::seed_from_u64(42)
}

fn arena() -> ArenaLayout {
    // Viewport 1000x1000: left 50, right 950, bottom 50, top 900,
    // spawn band 700..900, touchdown line at 65.
    ArenaLayout::new(&Viewport::new(1000, 1000))
}

#[test]
fn swarm_spawns_fifty_inside_spawn_band() {
    let a = arena();
    let mut r = rng();
    let enemies = spawn_enemy_swarm(&a, &mut r);
    assert_eq!(enemies.len(), ENEMY_SWARM_COUNT);
    for e in &enemies {
        assert!(a.left + 15 <= e.pos.x && e.pos.x <= a.right - 15);
        assert!(a.spawn_bottom <= e.pos.y && e.pos.y < a.spawn_top);
        assert!(30 <= e.movable_x.speed.0 && e.movable_x.speed.0 < 100);
        assert!(5 <= e.movable_y.speed.0 && e.movable_y.speed.0 < 15);
        assert_eq!(e.movable_x.bound.min, a.left + 15);
        assert_eq!(e.movable_x.bound.max, a.right - 15);
        assert_eq!(e.movable_y.bound.min, a.bottom + 15);
        assert_eq!(e.movable_y.bound.max, a.top - 15);
        assert_eq!(e.health.actual, 100);
    }
}

#[test]
fn swarm_draws_vary_between_enemies() {
    // The random draws come from the seeded generator: positions differ
    // between enemies, so the ranged draw is not a constant.
    let a = arena();
    let mut r = rng();
    let enemies = spawn_enemy_swarm(&a, &mut r);
    let first = enemies[0].pos;
    assert!(enemies.iter().any(|e| e.pos != first));
    // The coin flip picks both initial directions across fifty enemies.
    assert!(enemies
        .iter()
        .any(|e| e.movement_direction == MovementDirectionX::Left));
    assert!(enemies
        .iter()
        .any(|e| e.movement_direction == MovementDirectionX::Right));
}

#[test]
fn enemy_flips_at_left_bound_without_moving() {
    let a = arena();
    // At the left bound (x = 65), moving left: the tick flips the
    // direction and does not move horizontally.
    let mut e = Enemy::new(65, 500, &a, 80, 0, MovementDirectionX::Left);
    e.advance(1000);
    assert_eq!(e.movement_direction, MovementDirectionX::Right);
    assert_eq!(e.pos.x, 65);
    // The next tick moves right.
    e.advance(1000);
    assert_eq!(e.pos.x, 145);
    assert_eq!(e.movement_direction, MovementDirectionX::Right);
}

#[test]
fn enemy_flips_at_right_bound() {
    let a = arena();
    let mut e = Enemy::new(935, 500, &a, 80, 0, MovementDirectionX::Right);
    e.advance(1000);
    assert_eq!(e.movement_direction, MovementDirectionX::Left);
    assert_eq!(e.pos.x, 935);
}

#[test]
fn enemy_never_overshoots_bound() {
    let a = arena();
    // One unit from the bound at high speed: the move clamps exactly at
    // the bound and the flip comes on the next evaluation.
    let mut e = Enemy::new(66, 500, &a, 500, 0, MovementDirectionX::Left);
    e.advance(1000);
    assert_eq!(e.pos.x, 65);
    assert_eq!(e.movement_direction, MovementDirectionX::Left);
    e.advance(1000);
    assert_eq!(e.movement_direction, MovementDirectionX::Right);
    assert_eq!(e.pos.x, 65);
}

#[test]
fn enemy_descends_monotonically() {
    let a = arena();
    let mut e = Enemy::new(500, 800, &a, 0, 25, MovementDirectionX::Right);
    e.advance(1000);
    assert_eq!(e.pos.y, 775);
    e.advance(400);
    assert_eq!(e.pos.y, 765);
}

#[test]
fn loss_raised_on_crossing_tick_not_before() {
    // One enemy descending at 10 units/second, 100 units above the
    // touchdown line, dt = 1 second per tick: the loss signal appears on
    // tick 10 and not on tick 9.
    let a = arena();
    let touchdown = a.bottom + 15;
    let mut enemies = vec![Enemy::new(
        500,
        touchdown + 100,
        &a,
        0,
        10,
        MovementDirectionX::Right,
    )];
    for tick in 1..=9 {
        move_enemies(&mut enemies, 1000);
        assert!(
            !game_over_swarm_criteria(&enemies, &a),
            "loss raised too early at tick {}",
            tick
        );
    }
    move_enemies(&mut enemies, 1000);
    assert!(game_over_swarm_criteria(&enemies, &a));
    assert_eq!(enemies[0].pos.y, touchdown);
    // Level-triggered: it keeps holding on later ticks.
    move_enemies(&mut enemies, 1000);
    assert!(game_over_swarm_criteria(&enemies, &a));
}

#[test]
fn projectiles_despawn_beyond_travel_bound() {
    let a = arena();
    let mut projectiles = vec![
        Projectile::new(Vec2::new(500, 1850), 500, 0),
        Projectile::new(Vec2::new(500, 500), 500, 0),
    ];
    // The first projectile crosses top + margin = 1900; the second stays
    // inside.
    move_projectile(&mut projectiles, &a, 1000);
    assert_eq!(projectiles.len(), 1);
    assert_eq!(projectiles[0].pos, Vec2::new(500, 1000));
}

#[test]
fn encounter_setup_counts() {
    let w = Viewport::new(1000, 1000);
    let mut r = rng();
    let state = EncounterState::new(&w, &mut r);
    assert_eq!(state.enemies.len(), ENEMY_SWARM_COUNT);
    assert_eq!(state.projectiles.len(), 0);
    assert_eq!(state.live_enemy_count(), ENEMY_SWARM_COUNT);
    // The arena and player are determined by the viewport alone.
    assert_eq!(state.arena, ArenaLayout::new(&w));
    assert_eq!(state.player, Player::new(&w, 250));
    assert_eq!(state.player.pos, Vec2::new(500, 95));
}

#[test]
fn end_to_end_loss_at_tick_ten() {
    // The same descent scenario through the full tick pipeline.
    let w = Viewport::new(1000, 1000);
    let mut r = rng();
    let mut state = EncounterState::new(&w, &mut r);
    let a = state.arena;
    state.enemies = vec![Enemy::new(
        500,
        a.bottom + 115,
        &a,
        0,
        10,
        MovementDirectionX::Right,
    )];
    let idle = InputState { move_left: false, move_right: false, fire: false };
    for tick in 1..=9 {
        let out = state.tick(idle, 1000, &mut r);
        assert!(!out.game_over, "loss raised too early at tick {}", tick);
    }
    let out = state.tick(idle, 1000, &mut r);
    assert!(out.game_over);
}

#[test]
fn end_to_end_direct_weapon_cycle() {
    // A direct weapon with one shot per magazine, fire interval one
    // second: on the first trigger-held tick the enemy within hit range
    // loses exactly the damage, then the weapon reloads for its full
    // duration before it can fire again.
    let w = Viewport::new(1000, 1000);
    let mut r = rng();
    let mut state = EncounterState::new(&w, &mut r);
    let a = state.arena;
    state.player.weapon = Weapon::new(WeaponShotParameters {
        fire_interval: 1000,
        reload_duration: 2000,
        mag_capacity: 1,
        spread_cd: 0,
        projectiles: 1,
        damage: WeaponShotDamage::direct(15),
        shot_speed: 0,
    });
    // One stationary enemy 5 units from the player's muzzle.
    state.enemies = vec![Enemy::new(
        505,
        95,
        &a,
        0,
        0,
        MovementDirectionX::Right,
    )];
    let firing = InputState { move_left: false, move_right: false, fire: true };
    let out = state.tick(firing, 1000, &mut r);
    assert!(out.fired);
    assert_eq!(state.enemies[0].health.actual, 85);
    // The projectile despawned on the hit.
    assert_eq!(state.projectiles.len(), 0);
    // Magazine empty: the next trigger-held tick enters the reload.
    let out2 = state.tick(firing, 1000, &mut r);
    assert!(!out2.fired);
    assert_eq!(state.player.weapon.timer_state, TimerState::Reload);
    assert_eq!(state.enemies[0].health.actual, 85);
    // 2000 time units of reload: one tick counts it down, the next
    // trigger pull completes it, and the one after fires again.
    let out3 = state.tick(firing, 1000, &mut r);
    assert!(!out3.fired);
    assert_eq!(state.player.weapon.timer_state, TimerState::Reload);
    let out4 = state.tick(firing, 1000, &mut r);
    assert!(!out4.fired);
    assert_eq!(state.player.weapon.timer_state, TimerState::InterShot);
    let out5 = state.tick(firing, 1000, &mut r);
    assert!(out5.fired);
    assert_eq!(state.enemies[0].health.actual, 70);
}

#[test]
fn dead_enemy_despawns_within_the_tick() {
    let w = Viewport::new(1000, 1000);
    let mut r = rng();
    let mut state = EncounterState::new(&w, &mut r);
    let a = state.arena;
    state.player.weapon = Weapon::new(WeaponShotParameters {
        fire_interval: 1000,
        reload_duration: 2000,
        mag_capacity: 5,
        spread_cd: 0,
        projectiles: 1,
        damage: WeaponShotDamage::direct(150),
        shot_speed: 0,
    });
    state.enemies = vec![Enemy::new(505, 95, &a, 0, 0, MovementDirectionX::Right)];
    let firing = InputState { move_left: false, move_right: false, fire: true };
    let out = state.tick(firing, 1000, &mut r);
    assert!(out.fired);
    assert_eq!(state.enemies.len(), 0);
    assert_eq!(state.live_enemy_count(), 0);
}

#[test]
fn player_movement_clamps_at_side_gap() {
    let w = Viewport::new(1000, 1000);
    let mut player = Player::new(&w, 250);
    assert_eq!(player.movable.bound.min, 70);
    assert_eq!(player.movable.bound.max, 930);
    swarm_combat::player::movement_controls_handler(&mut player, true, false, 1000);
    assert_eq!(player.pos.x, 250);
    for _ in 0..10 {
        swarm_combat::player::movement_controls_handler(&mut player, true, false, 1000);
    }
    assert_eq!(player.pos.x, 70);
}
