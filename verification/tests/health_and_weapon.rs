use rand::SeedableRng;
use swarm_combat::geom::Vec2;
use swarm_combat::health::Health;
use swarm_combat::health::RATIO_SCALE;
use swarm_combat::weapon::GunTimer;
use swarm_combat::weapon::TimerState;
use swarm_combat::weapon::Weapon;
use swarm_combat::weapon::WeaponShotDamage;
use swarm_combat::weapon::WeaponShotParameters;

fn rng() -> rand::rngs::StdRng {
    rand::rngs::StdRng::seed_from_u64(7)
}

#[test]
fn health_starts_full() {
    let h = Health::new(100);
    assert_eq!(h.max, 100);
    assert_eq!(h.actual, 100);
    assert!(!h.dead());
    assert_eq!(h.ratio(), RATIO_SCALE);
}

#[test]
fn health_dead_iff_nonpositive() {
    let mut h = Health::new(100);
    h.apply_damage(99);
    assert!(!h.dead());
    h.apply_damage(1);
    assert!(h.dead());
    assert_eq!(h.ratio(), 0);
    let mut deep = Health::new(50);
    deep.apply_damage(80);
    assert_eq!(deep.actual, -30);
    assert!(deep.dead());
}

#[test]
fn health_ratio_is_scaled_fraction() {
    let mut h = Health::new(200);
    h.apply_damage(50);
    assert_eq!(h.ratio(), 750);
    h.apply_damage(100);
    assert_eq!(h.ratio(), 250);
}

#[test]
fn health_ratio_zero_means_dead_exactly() {
    // A living entity always reports a positive ratio, even when the
    // exact scaled fraction would round down to zero.
    let mut h = Health::new(2000);
    h.apply_damage(1999);
    assert_eq!(h.actual, 1);
    assert!(!h.dead());
    assert_eq!(h.ratio(), 1);
    h.apply_damage(1);
    assert!(h.dead());
    assert_eq!(h.ratio(), 0);
}

#[test]
fn gun_timer_counts_down_and_resets() {
    let mut t = GunTimer::new(1000);
    assert!(!t.finished());
    t.tick(999);
    assert!(!t.finished());
    t.tick(1);
    assert!(t.finished());
    t.tick(500);
    assert!(t.finished());
    t.reset();
    assert!(!t.finished());
    assert_eq!(t.remaining, 1000);
}

#[test]
fn gun_timer_default_is_100() {
    let t = GunTimer::default();
    assert_eq!(t.duration, 100);
    assert_eq!(t.remaining, 100);
}

#[test]
fn weapon_not_ready_before_interval() {
    let mut w = Weapon::shotgun();
    let mut r = rng();
    w.tick(999);
    assert!(w.shoot(Vec2::new(0, 0), &mut r).is_none());
}

#[test]
fn weapon_fires_full_batch_with_bounded_spread() {
    let mut w = Weapon::shotgun();
    let mut r = rng();
    w.tick(1000);
    let shots = w.shoot(Vec2::new(500, 95), &mut r).expect("ready weapon fires");
    assert_eq!(shots.len(), 10);
    for s in &shots {
        assert_eq!(s.pos, Vec2::new(500, 95));
        assert_eq!(s.velocity.speed.0, 500);
        assert!(-1500 <= s.heading_cd && s.heading_cd <= 1500);
    }
    assert_eq!(w.shots_left, 4);
}

fn test_params(mag: usize, fire_interval: i64, reload_duration: i64) -> WeaponShotParameters {
    WeaponShotParameters {
        fire_interval,
        reload_duration,
        mag_capacity: mag,
        spread_cd: 0,
        projectiles: 1,
        damage: WeaponShotDamage::direct(15),
        shot_speed: 100,
    }
}

#[test]
fn magazine_drains_exactly_then_reloads_full_duration() {
    // Trigger held continuously: a magazine of 3 fires exactly 3 times,
    // then the weapon reloads, and it resumes firing only after the full
    // reload duration has elapsed in simulation time.
    let mut w = Weapon::new(test_params(3, 100, 500));
    let mut r = rng();
    let pos = Vec2::new(0, 0);
    let mut fired = 0usize;
    let mut steps = 0usize;
    while w.timer_state == TimerState::InterShot {
        w.tick(100);
        if w.shoot(pos, &mut r).is_some() {
            fired += 1;
        }
        steps += 1;
        assert!(steps < 100, "weapon never entered reload");
    }
    assert_eq!(fired, 3);
    // Now reloading with 500 time units to go: 4 ticks of 100 leave it
    // still reloading, the 5th completes the reload.
    for _ in 0..4 {
        w.tick(100);
        assert!(w.shoot(pos, &mut r).is_none());
        assert_eq!(w.timer_state, TimerState::Reload);
    }
    w.tick(100);
    assert!(w.shoot(pos, &mut r).is_none());
    assert_eq!(w.timer_state, TimerState::InterShot);
    assert_eq!(w.shots_left, 3);
    // And it fires again after one fire interval.
    w.tick(100);
    assert!(w.shoot(pos, &mut r).is_some());
}

#[test]
fn reload_completes_while_trigger_released() {
    // The timer ticks every simulation tick even without input; a reload
    // finishes although shoot is never called while it counts down.
    let mut w = Weapon::new(test_params(1, 100, 300));
    let mut r = rng();
    let pos = Vec2::new(0, 0);
    w.tick(100);
    assert!(w.shoot(pos, &mut r).is_some());
    w.tick(100);
    assert!(w.shoot(pos, &mut r).is_none());
    assert_eq!(w.timer_state, TimerState::Reload);
    // Trigger released: only tick.
    w.tick(300);
    // First trigger pull completes the reload, the next fires.
    assert!(w.shoot(pos, &mut r).is_none());
    assert_eq!(w.timer_state, TimerState::InterShot);
    assert_eq!(w.shots_left, 1);
    w.tick(100);
    assert!(w.shoot(pos, &mut r).is_some());
}

#[test]
fn archetype_parameter_table() {
    let shotgun = Weapon::shotgun();
    assert_eq!(shotgun.shot_params.fire_interval, 1000);
    assert_eq!(shotgun.shot_params.reload_duration, 1667);
    assert_eq!(shotgun.shot_params.mag_capacity, 5);
    assert_eq!(shotgun.shot_params.spread_cd, 3000);
    assert_eq!(shotgun.shot_params.projectiles, 10);
    assert_eq!(shotgun.shot_params.shot_speed, 500);
    assert_eq!(shotgun.shot_params.damage, WeaponShotDamage::direct(10));

    let rifle = Weapon::rifle();
    assert_eq!(rifle.shot_params.fire_interval, 100);
    assert_eq!(rifle.shot_params.mag_capacity, 30);
    assert_eq!(rifle.shot_params.damage, WeaponShotDamage::direct(15));

    let mg = Weapon::machine_gun();
    assert_eq!(mg.shot_params.fire_interval, 67);
    assert_eq!(mg.shot_params.mag_capacity, 100);

    let auto = Weapon::autocannon();
    assert_eq!(auto.shot_params.damage, WeaponShotDamage::explosive(50, 100));

    let cannon = Weapon::cannon();
    assert_eq!(cannon.shot_params.mag_capacity, 1);
    assert_eq!(cannon.shot_params.damage, WeaponShotDamage::explosive(150, 150));

    let rocket = Weapon::rocket();
    assert_eq!(rocket.shot_params.shot_speed, 200);
    assert_eq!(rocket.shot_params.damage, WeaponShotDamage::explosive(200, 200));
}
