//! The player unit: a horizontally bounded mover carrying the weapon,
//! standing on the ground band.

use vstd::prelude::*;

use crate::arena::Viewport;
use crate::arena::ARENA_LAYOUT_GROUND_HEIGHT_PERCENT;
use crate::arena::ARENA_LAYOUT_SIDE_GAP_WIDTH_PERCENT;
use crate::geom::COORD_LIMIT;
use crate::geom::EntitySize;
use crate::geom::Vec2;
use crate::motion::clamped_down;
use crate::motion::clamped_up;
use crate::motion::displacement;
use crate::motion::valid_dt;
use crate::motion::MovableX;
use crate::motion::MovementBound;
use crate::motion::Speed;
use crate::motion::SPEED_LIMIT;
use crate::weapon::Weapon;

verus! {

/// Player rectangle width, in units.
pub const PLAYER_SPRITE_WIDTH: i64 = 40;

/// Player rectangle height, in units.
pub const PLAYER_SPRITE_HEIGHT: i64 = 90;

/// Player movement speed, units per second.
pub const PLAYER_SPEED: i64 = 250;

/// The player a viewport determines at encounter start: centered
/// horizontally, standing on the ground band, bounded by the battle area
/// inset by half the player width, holding a fresh shotgun.
pub open spec fn initial_player(window: Viewport, speed: i64) -> Player {
    Player {
        pos: Vec2 {
            x: (window.width / 2) as i64,
            y: (window.height * ARENA_LAYOUT_GROUND_HEIGHT_PERCENT / 100
                + PLAYER_SPRITE_HEIGHT / 2) as i64,
        },
        size: EntitySize { vec: Vec2 { x: PLAYER_SPRITE_WIDTH, y: PLAYER_SPRITE_HEIGHT } },
        movable: MovableX {
            bound: MovementBound {
                min: (window.width * ARENA_LAYOUT_SIDE_GAP_WIDTH_PERCENT / 100
                    + PLAYER_SPRITE_WIDTH / 2) as i64,
                max: (window.width * (100 - ARENA_LAYOUT_SIDE_GAP_WIDTH_PERCENT) / 100
                    - PLAYER_SPRITE_WIDTH / 2) as i64,
            },
            speed: Speed(speed),
        },
        weapon: Weapon {
            timer: crate::weapon::GunTimer::fresh(crate::weapon::shotgun_params().fire_interval),
            timer_state: crate::weapon::TimerState::InterShot,
            shots_left: crate::weapon::shotgun_params().mag_capacity,
            shot_params: crate::weapon::shotgun_params(),
        },
    }
}

/// The player: position, horizontal mover bounded by the battle area with
/// a margin of half the player width, and the weapon.
#[derive(Clone, Copy, Debug, PartialEq, Eq, Structural)]
pub struct Player {
    pub pos: Vec2,
    pub size: EntitySize,
    pub movable: MovableX,
    pub weapon: Weapon,
}

impl Player {
    pub open spec fn wf(self) -> bool {
        self.movable.wf()
        && self.weapon.wf()
        && self.movable.bound.min <= self.pos.x <= self.movable.bound.max
        && 0 <= self.pos.y <= COORD_LIMIT
    }

    /// Build the player centered at the bottom of the viewport, with the
    /// shotgun, standing on the ground band.
    pub fn new(window: &Viewport, speed: i64) -> (r: Player)
        requires
            window.wf(),
            0 <= speed <= SPEED_LIMIT,
        ensures
            r.wf(),
            r == initial_player(*window, speed),
            r.pos.x == window.width / 2,
            r.pos.y == window.height * ARENA_LAYOUT_GROUND_HEIGHT_PERCENT / 100
                + PLAYER_SPRITE_HEIGHT / 2,
            r.movable.bound.min == window.width * ARENA_LAYOUT_SIDE_GAP_WIDTH_PERCENT / 100
                + PLAYER_SPRITE_WIDTH / 2,
            r.movable.bound.max == window.width * (100 - ARENA_LAYOUT_SIDE_GAP_WIDTH_PERCENT)
                / 100 - PLAYER_SPRITE_WIDTH / 2,
            r.movable.speed.0 == speed,
            r.weapon.wf(),
            r.weapon.is_fresh(),
            r.weapon.shot_params == crate::weapon::shotgun_params(),
    {
        let left_bound = window.width * ARENA_LAYOUT_SIDE_GAP_WIDTH_PERCENT / 100
            + PLAYER_SPRITE_WIDTH / 2;
        let right_bound = window.width * (100 - ARENA_LAYOUT_SIDE_GAP_WIDTH_PERCENT) / 100
            - PLAYER_SPRITE_WIDTH / 2;
        let x = window.width / 2;
        let y = window.height * ARENA_LAYOUT_GROUND_HEIGHT_PERCENT / 100 + PLAYER_SPRITE_HEIGHT
            / 2;
        proof {
            let w = window.width as int;
            let h = window.height as int;
            assert(w * 5 / 100 + 20 <= w / 2 <= w * 95 / 100 - 20) by (nonlinear_arith)
                requires 200 <= w <= 1_000_000;
            assert(0 <= h * 5 / 100 + 45 <= COORD_LIMIT) by (nonlinear_arith)
                requires 200 <= h <= 1_000_000;
            assert(w * 95 / 100 - 20 <= COORD_LIMIT) by (nonlinear_arith)
                requires 200 <= w <= 1_000_000;
        }
        Player {
            pos: Vec2::new(x, y),
            size: EntitySize::new(PLAYER_SPRITE_WIDTH, PLAYER_SPRITE_HEIGHT),
            movable: MovableX {
                bound: MovementBound::new(left_bound, right_bound),
                speed: Speed::new(speed),
            },
            weapon: Weapon::shotgun(),
        }
    }

    /// The player after one tick of held movement input: a held left key
    /// moves toward the left bound, then a held right key moves toward the
    /// right bound, each clamped.
    pub open spec fn moved(self, move_left: bool, move_right: bool, dt: int) -> Player {
        let step = displacement(self.movable.speed.0 as int, dt);
        let x1 = if move_left {
            clamped_down(self.pos.x as int, step, self.movable.bound.min as int)
        } else {
            self.pos.x as int
        };
        let x2 = if move_right {
            clamped_up(x1, step, self.movable.bound.max as int)
        } else {
            x1
        };
        Player { pos: Vec2 { x: x2 as i64, y: self.pos.y }, ..self }
    }
}

/// Apply one tick of held movement input to the player.
pub fn movement_controls_handler(player: &mut Player, move_left: bool, move_right: bool, dt: i64)
    requires
        old(player).wf(),
        valid_dt(dt as int),
    ensures
        *final(player) == old(player).moved(move_left, move_right, dt as int),
        final(player).wf(),
{
    if move_left {
        let m = player.movable;
        m.move_left(&mut player.pos, dt);
    }
    if move_right {
        let m = player.movable;
        m.move_right(&mut player.pos, dt);
    }
}

} // verus!
