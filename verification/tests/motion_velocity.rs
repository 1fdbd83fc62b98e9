use swarm_combat::geom::Vec2;
use swarm_combat::motion::MovableX;
use swarm_combat::motion::MovableY;
use swarm_combat::motion::MovementBound;
use swarm_combat::motion::Speed;
use swarm_combat::projectile::Projectile;

fn mover_x(min: i64, max: i64, speed: i64) -> MovableX {
    MovableX { bound: MovementBound::new(min, max), speed: Speed::new(speed) }
}

fn mover_y(min: i64, max: i64, speed: i64) -> MovableY {
    MovableY { bound: MovementBound::new(min, max), speed: Speed::new(speed) }
}

#[test]
fn move_left_exact_displacement() {
    let m = mover_x(0, 1000, 10);
    let mut pos = Vec2::new(100, 50);
    m.move_left(&mut pos, 1000);
    assert_eq!(pos.x, 90);
    assert_eq!(pos.y, 50);
}

#[test]
fn move_right_exact_displacement() {
    let m = mover_x(0, 1000, 25);
    let mut pos = Vec2::new(100, 50);
    m.move_right(&mut pos, 2000);
    assert_eq!(pos.x, 150);
}

#[test]
fn clamping_holds_for_any_step_magnitude() {
    // The clamping law: however large speed * dt, the result stays inside
    // the bound.
    let m = mover_x(40, 60, 1_000_000);
    let mut pos = Vec2::new(50, 0);
    m.move_left(&mut pos, 1_000_000);
    assert_eq!(pos.x, 40);
    m.move_right(&mut pos, 1_000_000);
    assert_eq!(pos.x, 60);
    let my = mover_y(40, 60, 1_000_000);
    let mut posy = Vec2::new(0, 50);
    my.move_down(&mut posy, 1_000_000);
    assert_eq!(posy.y, 40);
    my.move_up(&mut posy, 1_000_000);
    assert_eq!(posy.y, 60);
}

#[test]
fn motion_stops_exactly_at_bound() {
    let m = mover_y(10, 500, 30);
    let mut pos = Vec2::new(0, 40);
    m.move_down(&mut pos, 1000);
    assert_eq!(pos.y, 10);
    m.move_down(&mut pos, 1000);
    assert_eq!(pos.y, 10);
}

#[test]
fn can_move_is_strict_at_bound() {
    let m = mover_x(10, 90, 5);
    assert!(!m.can_move_left(&Vec2::new(10, 0)));
    assert!(m.can_move_left(&Vec2::new(11, 0)));
    assert!(!m.can_move_right(&Vec2::new(90, 0)));
    assert!(m.can_move_right(&Vec2::new(89, 0)));
}

#[test]
fn sub_unit_displacement_rounds_down() {
    let m = mover_x(0, 1000, 10);
    let mut pos = Vec2::new(100, 0);
    m.move_left(&mut pos, 50);
    assert_eq!(pos.x, 100);
}

#[test]
fn conversions_from_plain_values() {
    let s: Speed = Speed::from(250);
    assert_eq!(s.0, 250);
    let b: MovementBound = MovementBound::from((10, 90));
    assert_eq!(b.min, 10);
    assert_eq!(b.max, 90);
}

#[test]
fn projectile_straight_up() {
    let mut p = Projectile::new(Vec2::new(500, 100), 500, 0);
    p.advance(1000);
    assert_eq!(p.pos.x, 500);
    assert_eq!(p.pos.y, 600);
}

#[test]
fn projectile_quarter_turn_moves_left() {
    // Heading a quarter turn counterclockwise from up points along the
    // negative x axis.
    let mut p = Projectile::new(Vec2::new(500, 100), 200, 9000);
    p.advance(1000);
    assert_eq!(p.pos.x, 300);
    assert_eq!(p.pos.y, 100);
}

#[test]
fn projectile_heading_is_fixed_at_spawn() {
    let mut p = Projectile::new(Vec2::new(0, 0), 100, 3000);
    let heading_before = p.heading_cd;
    p.advance(500);
    assert_eq!(p.heading_cd, heading_before);
}
