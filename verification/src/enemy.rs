//! Enemies and the swarm controller: randomized spawning in the spawn
//! band, bounce-and-descend motion, and the touchdown loss condition.

use vstd::prelude::*;

use crate::arena::ArenaLayout;
use crate::geom::COORD_LIMIT;
use crate::geom::EntitySize;
use crate::geom::Vec2;
use crate::health::Health;
use crate::motion::clamped_down;
use crate::motion::clamped_up;
use crate::motion::displacement;
use crate::motion::valid_dt;
use crate::motion::MovableX;
use crate::motion::MovableY;
use crate::motion::MovementBound;
use crate::motion::MovementDirectionX;
use crate::motion::Speed;
use crate::motion::SPEED_LIMIT;
use crate::rng::rng_flip;
use crate::rng::rng_range;

verus! {

/// Enemy rectangle width, in units.
pub const ENEMY_ENTITY_WIDTH: i64 = 30;

/// Enemy rectangle height, in units.
pub const ENEMY_ENTITY_HEIGHT: i64 = 30;

/// Smallest random horizontal speed, units per second.
pub const ENEMY_HORIZONTAL_SPEED_MIN: i64 = 30;

/// Largest random horizontal speed, units per second (exclusive).
pub const ENEMY_HORIZONTAL_SPEED_MAX: i64 = 100;

/// Smallest random descent speed, units per second.
pub const ENEMY_VERTICAL_SPEED_MIN: i64 = 5;

/// Largest random descent speed, units per second (exclusive).
pub const ENEMY_VERTICAL_SPEED_MAX: i64 = 15;

/// Enemies spawned per encounter.
pub const ENEMY_SWARM_COUNT: usize = 50;

/// Hit points every enemy starts with.
pub const ENEMY_MAX_HP: i64 = 100;

/// The vertical touchdown line of an arena: an enemy whose center is at or
/// below it has reached the ground band.
pub open spec fn touchdown_y(arena: ArenaLayout) -> int {
    arena.bottom + ENEMY_ENTITY_HEIGHT / 2
}

/// One swarm enemy: position, bounded movers for both axes, current
/// horizontal direction, and its health record.
#[derive(Clone, Copy, Debug, PartialEq, Eq, Structural)]
pub struct Enemy {
    pub pos: Vec2,
    pub size: EntitySize,
    pub movable_x: MovableX,
    pub movable_y: MovableY,
    pub movement_direction: MovementDirectionX,
    pub health: Health,
}

impl Enemy {
    /// Invariant: movers and health are well-formed, the position sits
    /// inside the horizontal bound and above the vertical bound (spawning
    /// may place an enemy above its top bound; it only ever descends).
    pub open spec fn wf(self) -> bool {
        self.movable_x.wf()
        && self.movable_y.wf()
        && self.health.wf()
        && self.movable_x.bound.min <= self.pos.x <= self.movable_x.bound.max
        && self.movable_y.bound.min <= self.pos.y <= COORD_LIMIT
    }

    /// Build an enemy at `(x, y)` with its movement bounds derived from
    /// the arena edges, at full health.
    pub fn new(
        x: i64,
        y: i64,
        arena: &ArenaLayout,
        horizontal_speed: i64,
        vertical_speed: i64,
        movement_direction: MovementDirectionX,
    ) -> (r: Enemy)
        requires
            arena.wf(),
            arena.left + ENEMY_ENTITY_WIDTH / 2 <= x <= arena.right - ENEMY_ENTITY_WIDTH / 2,
            arena.bottom + ENEMY_ENTITY_HEIGHT / 2 <= y <= COORD_LIMIT,
            0 <= horizontal_speed <= SPEED_LIMIT,
            0 <= vertical_speed <= SPEED_LIMIT,
        ensures
            r.wf(),
            r.pos == (Vec2 { x, y }),
            r.bounded_by(*arena),
            r.movable_x.speed.0 == horizontal_speed,
            r.movable_y.speed.0 == vertical_speed,
            r.movement_direction == movement_direction,
            r.health == (Health { max: ENEMY_MAX_HP, actual: ENEMY_MAX_HP }),
    {
        Enemy {
            pos: Vec2::new(x, y),
            size: EntitySize::new(ENEMY_ENTITY_WIDTH, ENEMY_ENTITY_HEIGHT),
            movable_x: MovableX {
                bound: MovementBound::new(
                    arena.left + ENEMY_ENTITY_WIDTH / 2,
                    arena.right - ENEMY_ENTITY_WIDTH / 2,
                ),
                speed: Speed::new(horizontal_speed),
            },
            movable_y: MovableY {
                bound: MovementBound::new(
                    arena.bottom + ENEMY_ENTITY_HEIGHT / 2,
                    arena.top - ENEMY_ENTITY_HEIGHT / 2,
                ),
                speed: Speed::new(vertical_speed),
            },
            movement_direction,
            health: Health::new(ENEMY_MAX_HP),
        }
    }

    /// The movement bounds the swarm controller derives from the arena:
    /// the battle-area edges inset by half the enemy size on the clamped
    /// sides.
    pub open spec fn bounded_by(self, arena: ArenaLayout) -> bool {
        &&& self.movable_x.bound.min == arena.left + ENEMY_ENTITY_WIDTH / 2
        &&& self.movable_x.bound.max == arena.right - ENEMY_ENTITY_WIDTH / 2
        &&& self.movable_y.bound.min == arena.bottom + ENEMY_ENTITY_HEIGHT / 2
        &&& self.movable_y.bound.max == arena.top - ENEMY_ENTITY_HEIGHT / 2
    }

    /// Whether this enemy has reached the touchdown line.
    pub open spec fn touched_down(self, arena: ArenaLayout) -> bool {
        self.pos.y <= touchdown_y(arena)
    }

    /// One tick of swarm motion: bounce on the horizontal axis — move in
    /// the current direction if the bound ahead is strictly away, flip the
    /// direction without moving otherwise — then descend unconditionally.
    pub open spec fn moved(self, dt: int) -> Enemy {
        let dx = displacement(self.movable_x.speed.0 as int, dt);
        let dy = displacement(self.movable_y.speed.0 as int, dt);
        let bounced = if self.movement_direction == MovementDirectionX::Left {
            if self.pos.x > self.movable_x.bound.min {
                Enemy {
                    pos: Vec2 {
                        x: clamped_down(self.pos.x as int, dx, self.movable_x.bound.min as int) as i64,
                        y: self.pos.y,
                    },
                    ..self
                }
            } else {
                Enemy { movement_direction: MovementDirectionX::Right, ..self }
            }
        } else {
            if self.pos.x < self.movable_x.bound.max {
                Enemy {
                    pos: Vec2 {
                        x: clamped_up(self.pos.x as int, dx, self.movable_x.bound.max as int) as i64,
                        y: self.pos.y,
                    },
                    ..self
                }
            } else {
                Enemy { movement_direction: MovementDirectionX::Left, ..self }
            }
        };
        Enemy {
            pos: Vec2 {
                x: bounced.pos.x,
                y: clamped_down(bounced.pos.y as int, dy, bounced.movable_y.bound.min as int) as i64,
            },
            ..bounced
        }
    }

    /// Run one tick of bounce-and-descend motion.
    pub fn advance(&mut self, dt: i64)
        requires
            old(self).wf(),
            valid_dt(dt as int),
        ensures
            *final(self) == old(self).moved(dt as int),
            final(self).wf(),
    {
        match self.movement_direction {
            MovementDirectionX::Left => {
                if self.movable_x.can_move_left(&self.pos) {
                    let m = self.movable_x;
                    m.move_left(&mut self.pos, dt);
                } else {
                    self.movement_direction = MovementDirectionX::Right;
                }
            },
            MovementDirectionX::Right => {
                if self.movable_x.can_move_right(&self.pos) {
                    let m = self.movable_x;
                    m.move_right(&mut self.pos, dt);
                } else {
                    self.movement_direction = MovementDirectionX::Left;
                }
            },
        }
        let m = self.movable_y;
        m.move_down(&mut self.pos, dt);
    }
}

/// Direction-flip law: an enemy moving left that stands at its left bound
/// flips to moving right without moving that tick, and symmetrically on
/// the right; and a tick of motion never takes the position past either
/// horizontal bound, nor below the vertical bound, nor upward.
pub proof fn lemma_direction_flip(e: Enemy, dt: int)
    requires
        e.wf(),
        valid_dt(dt),
    ensures
        e.movement_direction == MovementDirectionX::Left && e.pos.x == e.movable_x.bound.min
            ==> e.moved(dt).movement_direction == MovementDirectionX::Right
                && e.moved(dt).pos.x == e.pos.x,
        e.movement_direction == MovementDirectionX::Right && e.pos.x == e.movable_x.bound.max
            ==> e.moved(dt).movement_direction == MovementDirectionX::Left
                && e.moved(dt).pos.x == e.pos.x,
        e.movable_x.bound.min <= e.moved(dt).pos.x <= e.movable_x.bound.max,
        e.movable_y.bound.min <= e.moved(dt).pos.y <= e.pos.y,
        e.moved(dt).wf(),
{
    crate::motion::lemma_displacement_nonneg(e.movable_x.speed.0 as int, dt);
    crate::motion::lemma_displacement_nonneg(e.movable_y.speed.0 as int, dt);
}

/// Whether any enemy of the swarm has reached the touchdown line.
pub open spec fn any_touched_down(enemies: Seq<Enemy>, arena: ArenaLayout) -> bool {
    exists|i: int| 0 <= i < enemies.len() && (#[trigger] enemies[i]).touched_down(arena)
}

/// Touchdown persistence: an enemy at or below the touchdown line is still
/// at or below it after any further tick of motion — the loss condition is
/// level-triggered and keeps holding while the enemy lives.
pub proof fn lemma_touchdown_persists(e: Enemy, arena: ArenaLayout, dt: int)
    requires
        e.wf(),
        valid_dt(dt),
        e.touched_down(arena),
    ensures
        e.moved(dt).touched_down(arena),
{
    lemma_direction_flip(e, dt);
}

/// Loss timing law: a swarm in which every enemy is still strictly above
/// the touchdown line raises no loss signal, and after one tick of motion
/// the signal is raised exactly when some enemy's descent has brought it
/// to or below the line — on the crossing tick, not before.
pub proof fn lemma_loss_on_crossing_tick(enemies: Seq<Enemy>, arena: ArenaLayout, dt: int)
    requires
        forall|i: int| 0 <= i < enemies.len() ==> (#[trigger] enemies[i]).wf(),
        valid_dt(dt),
        forall|i: int| 0 <= i < enemies.len()
            ==> (#[trigger] enemies[i]).pos.y > touchdown_y(arena),
    ensures
        !any_touched_down(enemies, arena),
        any_touched_down(enemies.map_values(|e: Enemy| e.moved(dt)), arena)
            <==> exists|i: int| 0 <= i < enemies.len()
                && (#[trigger] enemies[i]).moved(dt).pos.y <= touchdown_y(arena),
{
    let after = enemies.map_values(|e: Enemy| e.moved(dt));
    assert forall|i: int| 0 <= i < after.len() && (#[trigger] after[i]).touched_down(arena)
        implies exists|j: int| 0 <= j < enemies.len()
            && (#[trigger] enemies[j]).moved(dt).pos.y <= touchdown_y(arena) by {
        assert(enemies[i].moved(dt).pos.y <= touchdown_y(arena));
    }
    assert forall|i: int| 0 <= i < enemies.len()
        && (#[trigger] enemies[i]).moved(dt).pos.y <= touchdown_y(arena)
        implies any_touched_down(after, arena) by {
        assert(after[i].touched_down(arena));
    }
}

/// Spawn one enemy at a uniformly random position inside the spawn band,
/// with random speeds and a random initial direction.
pub fn spawn_enemy(arena: &ArenaLayout, rng: &mut rand::rngs::StdRng) -> (r: Enemy)
    requires
        arena.wf(),
    ensures
        r.wf(),
        arena.left + ENEMY_ENTITY_WIDTH / 2 <= r.pos.x
            <= arena.right - ENEMY_ENTITY_WIDTH / 2,
        arena.spawn_bottom <= r.pos.y < arena.spawn_top,
        ENEMY_HORIZONTAL_SPEED_MIN <= r.movable_x.speed.0 < ENEMY_HORIZONTAL_SPEED_MAX,
        ENEMY_VERTICAL_SPEED_MIN <= r.movable_y.speed.0 < ENEMY_VERTICAL_SPEED_MAX,
        r.bounded_by(*arena),
        r.health == (Health { max: ENEMY_MAX_HP, actual: ENEMY_MAX_HP }),
        !r.touched_down(*arena),
{
    let x = rng_range(rng, arena.left + ENEMY_ENTITY_WIDTH / 2, arena.right - ENEMY_ENTITY_WIDTH / 2);
    let y = rng_range(rng, arena.spawn_bottom, arena.spawn_top);
    let horizontal_speed = rng_range(rng, ENEMY_HORIZONTAL_SPEED_MIN, ENEMY_HORIZONTAL_SPEED_MAX);
    let vertical_speed = rng_range(rng, ENEMY_VERTICAL_SPEED_MIN, ENEMY_VERTICAL_SPEED_MAX);
    let movement_direction = if rng_flip(rng) {
        MovementDirectionX::Left
    } else {
        MovementDirectionX::Right
    };
    Enemy::new(x, y, arena, horizontal_speed, vertical_speed, movement_direction)
}

/// Spawn the full swarm.
pub fn spawn_enemy_swarm(arena: &ArenaLayout, rng: &mut rand::rngs::StdRng) -> (r: Vec<Enemy>)
    requires
        arena.wf(),
    ensures
        r@.len() == ENEMY_SWARM_COUNT,
        forall|i: int| 0 <= i < r@.len() ==> {
            &&& (#[trigger] r@[i]).wf()
            &&& arena.left + ENEMY_ENTITY_WIDTH / 2 <= r@[i].pos.x
                <= arena.right - ENEMY_ENTITY_WIDTH / 2
            &&& arena.spawn_bottom <= r@[i].pos.y < arena.spawn_top
            &&& ENEMY_HORIZONTAL_SPEED_MIN <= r@[i].movable_x.speed.0
                < ENEMY_HORIZONTAL_SPEED_MAX
            &&& ENEMY_VERTICAL_SPEED_MIN <= r@[i].movable_y.speed.0
                < ENEMY_VERTICAL_SPEED_MAX
            &&& r@[i].bounded_by(*arena)
            &&& r@[i].health == (Health { max: ENEMY_MAX_HP, actual: ENEMY_MAX_HP })
            &&& !r@[i].touched_down(*arena)
        },
{
    let mut enemies: Vec<Enemy> = Vec::new();
    let mut n: usize = 0;
    while n < ENEMY_SWARM_COUNT
        invariant
            arena.wf(),
            enemies@.len() == n,
            0 <= n <= ENEMY_SWARM_COUNT,
            forall|i: int| 0 <= i < enemies@.len() ==> {
                &&& (#[trigger] enemies@[i]).wf()
                &&& arena.left + ENEMY_ENTITY_WIDTH / 2 <= enemies@[i].pos.x
                    <= arena.right - ENEMY_ENTITY_WIDTH / 2
                &&& arena.spawn_bottom <= enemies@[i].pos.y < arena.spawn_top
                &&& ENEMY_HORIZONTAL_SPEED_MIN <= enemies@[i].movable_x.speed.0
                    < ENEMY_HORIZONTAL_SPEED_MAX
                &&& ENEMY_VERTICAL_SPEED_MIN <= enemies@[i].movable_y.speed.0
                    < ENEMY_VERTICAL_SPEED_MAX
                &&& enemies@[i].bounded_by(*arena)
                &&& enemies@[i].health == (Health { max: ENEMY_MAX_HP, actual: ENEMY_MAX_HP })
                &&& !enemies@[i].touched_down(*arena)
            },
        decreases ENEMY_SWARM_COUNT - n,
    {
        let e = spawn_enemy(arena, rng);
        enemies.push(e);
        n = n + 1;
    }
    enemies
}

/// One tick of motion for the whole swarm: each enemy independently
/// bounces on its horizontal axis and descends.
pub fn move_enemies(enemies: &mut Vec<Enemy>, dt: i64)
    requires
        forall|i: int| 0 <= i < old(enemies)@.len() ==> (#[trigger] old(enemies)@[i]).wf(),
        valid_dt(dt as int),
    ensures
        final(enemies)@.len() == old(enemies)@.len(),
        forall|i: int| 0 <= i < old(enemies)@.len()
            ==> #[trigger] final(enemies)@[i] == old(enemies)@[i].moved(dt as int),
        forall|i: int| 0 <= i < final(enemies)@.len() ==> (#[trigger] final(enemies)@[i]).wf(),
{
    let n = enemies.len();
    let mut i: usize = 0;
    while i < n
        invariant
            n == enemies@.len(),
            n == old(enemies)@.len(),
            0 <= i <= n,
            valid_dt(dt as int),
            forall|j: int| 0 <= j < n ==> (#[trigger] old(enemies)@[j]).wf(),
            forall|j: int| i <= j < n ==> #[trigger] enemies@[j] == old(enemies)@[j],
            forall|j: int| 0 <= j < i
                ==> #[trigger] enemies@[j] == old(enemies)@[j].moved(dt as int),
            forall|j: int| 0 <= j < i ==> (#[trigger] enemies@[j]).wf(),
        decreases n - i,
    {
        let mut e = enemies[i];
        e.advance(dt);
        enemies.set(i, e);
        i = i + 1;
    }
}

/// The loss condition: true exactly when some enemy of the swarm stands at
/// or below the touchdown line. Level-triggered: evaluated anew each tick.
pub fn game_over_swarm_criteria(enemies: &Vec<Enemy>, arena: &ArenaLayout) -> (r: bool)
    requires
        arena.wf(),
    ensures
        r == any_touched_down(enemies@, *arena),
{
    let n = enemies.len();
    let mut i: usize = 0;
    while i < n
        invariant
            arena.wf(),
            n == enemies@.len(),
            0 <= i <= n,
            forall|j: int| 0 <= j < i ==> !(#[trigger] enemies@[j]).touched_down(*arena),
        decreases n - i,
    {
        let e = enemies[i];
        if e.pos.y <= arena.bottom + ENEMY_ENTITY_HEIGHT / 2 {
            return true;
        }
        i = i + 1;
    }
    false
}

} // verus!
