//! Bounded 1-D motion and unbounded heading-relative motion.
//!
//! A bounded mover advances a coordinate by `speed * dt` scaled to time
//! units and clamps at the bound in the direction of travel, so an entity
//! stops exactly at its bound however large the step. A `Velocity` advances
//! a pose along its heading without any bound.

use vstd::prelude::*;

use crate::geom::COORD_LIMIT;
use crate::geom::Vec2;
use crate::trig::cos_scaled;
use crate::trig::sin_scaled;
use crate::trig::HALF_TURN_CD;
use crate::trig::QUARTER_TURN_CD;
use crate::trig::TRIG_SCALE;
use crate::trig::cos_cd;
use crate::trig::sin_cd;

verus! {

/// Time units per second: time deltas are in milliseconds.
pub const TIME_UNITS_PER_SECOND: i64 = 1000;

/// Largest admissible speed, in units per second.
pub const SPEED_LIMIT: i64 = 1_000_000;

/// Largest admissible tick delta, in time units.
pub const DT_LIMIT: i64 = 1_000_000;

/// A tick delta the movers accept: non-negative and bounded.
pub open spec fn valid_dt(dt: int) -> bool {
    0 <= dt <= DT_LIMIT
}

/// Distance covered in `dt` time units at `speed` units per second,
/// rounded down to whole units.
pub open spec fn displacement(speed: int, dt: int) -> int {
    speed * dt / (TIME_UNITS_PER_SECOND as int)
}

/// `[min, max]` range on one axis. Immutable after creation.
#[derive(Clone, Copy, Debug, PartialEq, Eq, Structural)]
pub struct MovementBound {
    pub min: i64,
    pub max: i64,
}

impl MovementBound {
    pub open spec fn wf(self) -> bool {
        -COORD_LIMIT <= self.min <= self.max <= COORD_LIMIT
    }

    pub fn new(min: i64, max: i64) -> (r: MovementBound)
        requires
            -COORD_LIMIT <= min <= max <= COORD_LIMIT,
        ensures
            r.wf(),
            r.min == min && r.max == max,
    {
        MovementBound { min, max }
    }
}

/// Non-negative scalar speed, in units per second.
#[derive(Clone, Copy, Debug, PartialEq, Eq, Structural)]
pub struct Speed(pub i64);

impl Speed {
    pub open spec fn wf(self) -> bool {
        0 <= self.0 <= SPEED_LIMIT
    }

    pub fn new(value: i64) -> (r: Speed)
        requires
            0 <= value <= SPEED_LIMIT,
        ensures
            r.wf(),
            r.0 == value,
    {
        Speed(value)
    }
}

impl From<i64> for Speed {
    fn from(value: i64) -> (r: Speed) {
        Speed(value)
    }
}

impl vstd::std_specs::convert::FromSpecImpl<i64> for Speed {
    open spec fn obeys_from_spec() -> bool {
        true
    }

    open spec fn from_spec(value: i64) -> Speed {
        Speed(value)
    }
}

impl From<(i64, i64)> for MovementBound {
    fn from(value: (i64, i64)) -> (r: MovementBound) {
        MovementBound { min: value.0, max: value.1 }
    }
}

impl vstd::std_specs::convert::FromSpecImpl<(i64, i64)> for MovementBound {
    open spec fn obeys_from_spec() -> bool {
        true
    }

    open spec fn from_spec(value: (i64, i64)) -> MovementBound {
        MovementBound { min: value.0, max: value.1 }
    }
}

/// Current horizontal travel direction of a bouncing entity.
#[derive(Clone, Copy, Debug, Default, PartialEq, Eq, Structural)]
pub enum MovementDirectionX {
    #[default]
    Left,
    Right,
}

/// Exec-side displacement, exact per [`displacement`].
fn displacement_exec(speed: Speed, dt: i64) -> (r: i64)
    requires
        speed.wf(),
        valid_dt(dt as int),
    ensures
        r == displacement(speed.0 as int, dt as int),
        0 <= r <= 1_000_000_000,
{
    proof {
        assert(0 <= speed.0 * dt <= 1_000_000_000_000) by (nonlinear_arith)
            requires 0 <= speed.0 <= SPEED_LIMIT, 0 <= dt <= DT_LIMIT;
    }
    (speed.0 * dt) / TIME_UNITS_PER_SECOND
}

/// A displacement over a valid delta at a non-negative speed is
/// non-negative.
pub proof fn lemma_displacement_nonneg(speed: int, dt: int)
    requires
        0 <= speed,
        0 <= dt,
    ensures
        displacement(speed, dt) >= 0,
{
    assert(speed * dt / 1000 >= 0) by (nonlinear_arith)
        requires 0 <= speed, 0 <= dt;
}

/// Clamped move of `pos` down by `step`, stopping at `min`.
pub open spec fn clamped_down(pos: int, step: int, min: int) -> int {
    if pos - step > min {
        pos - step
    } else {
        min
    }
}

/// Clamped move of `pos` up by `step`, stopping at `max`.
pub open spec fn clamped_up(pos: int, step: int, max: int) -> int {
    if pos + step < max {
        pos + step
    } else {
        max
    }
}

/// Clamping law: from a position inside the bound, a clamped move of any
/// non-negative step lands inside the bound again, in either direction.
pub proof fn lemma_clamped_move_stays_in_bound(pos: int, step: int, bound: MovementBound)
    requires
        bound.min <= pos <= bound.max,
        0 <= step,
    ensures
        bound.min <= clamped_down(pos, step, bound.min as int) <= bound.max,
        bound.min <= clamped_up(pos, step, bound.max as int) <= bound.max,
{
}

/// Horizontal bounded mover: bound and speed on the x axis.
#[derive(Clone, Copy, Debug, PartialEq, Eq, Structural)]
pub struct MovableX {
    pub bound: MovementBound,
    pub speed: Speed,
}

impl MovableX {
    pub open spec fn wf(self) -> bool {
        self.bound.wf() && self.speed.wf()
    }

    /// Strictly above the left bound: a left move can still make progress.
    pub fn can_move_left(&self, pos: &Vec2) -> (r: bool)
        ensures
            r == (pos.x > self.bound.min),
    {
        pos.x > self.bound.min
    }

    /// Strictly below the right bound: a right move can still make progress.
    pub fn can_move_right(&self, pos: &Vec2) -> (r: bool)
        ensures
            r == (pos.x < self.bound.max),
    {
        pos.x < self.bound.max
    }

    /// Move left by `speed * dt`, stopping at the left bound.
    pub fn move_left(&self, pos: &mut Vec2, dt: i64)
        requires
            self.wf(),
            valid_dt(dt as int),
            old(pos).in_coord_range(),
        ensures
            final(pos).x == clamped_down(
                old(pos).x as int,
                displacement(self.speed.0 as int, dt as int),
                self.bound.min as int,
            ),
            final(pos).y == old(pos).y,
            old(pos).x <= self.bound.max ==> final(pos).in_coord_range(),
    {
        let step = displacement_exec(self.speed, dt);
        let moved = pos.x - step;
        if moved > self.bound.min {
            pos.x = moved;
        } else {
            pos.x = self.bound.min;
        }
    }

    /// Move right by `speed * dt`, stopping at the right bound.
    pub fn move_right(&self, pos: &mut Vec2, dt: i64)
        requires
            self.wf(),
            valid_dt(dt as int),
            old(pos).in_coord_range(),
        ensures
            final(pos).x == clamped_up(
                old(pos).x as int,
                displacement(self.speed.0 as int, dt as int),
                self.bound.max as int,
            ),
            final(pos).y == old(pos).y,
            old(pos).x >= self.bound.min ==> final(pos).in_coord_range(),
    {
        let step = displacement_exec(self.speed, dt);
        let moved = pos.x + step;
        if moved < self.bound.max {
            pos.x = moved;
        } else {
            pos.x = self.bound.max;
        }
    }
}

/// Vertical bounded mover: bound and speed on the y axis.
#[derive(Clone, Copy, Debug, PartialEq, Eq, Structural)]
pub struct MovableY {
    pub bound: MovementBound,
    pub speed: Speed,
}

impl MovableY {
    pub open spec fn wf(self) -> bool {
        self.bound.wf() && self.speed.wf()
    }

    /// Strictly above the bottom bound: a downward move can still progress.
    pub fn can_move_down(&self, pos: &Vec2) -> (r: bool)
        ensures
            r == (pos.y > self.bound.min),
    {
        pos.y > self.bound.min
    }

    /// Strictly below the top bound: an upward move can still progress.
    pub fn can_move_up(&self, pos: &Vec2) -> (r: bool)
        ensures
            r == (pos.y < self.bound.max),
    {
        pos.y < self.bound.max
    }

    /// Move down by `speed * dt`, stopping at the bottom bound.
    pub fn move_down(&self, pos: &mut Vec2, dt: i64)
        requires
            self.wf(),
            valid_dt(dt as int),
            old(pos).in_coord_range(),
        ensures
            final(pos).y == clamped_down(
                old(pos).y as int,
                displacement(self.speed.0 as int, dt as int),
                self.bound.min as int,
            ),
            final(pos).x == old(pos).x,
            old(pos).y <= self.bound.max ==> final(pos).in_coord_range(),
    {
        let step = displacement_exec(self.speed, dt);
        let moved = pos.y - step;
        if moved > self.bound.min {
            pos.y = moved;
        } else {
            pos.y = self.bound.min;
        }
    }

    /// Move up by `speed * dt`, stopping at the top bound.
    pub fn move_up(&self, pos: &mut Vec2, dt: i64)
        requires
            self.wf(),
            valid_dt(dt as int),
            old(pos).in_coord_range(),
        ensures
            final(pos).y == clamped_up(
                old(pos).y as int,
                displacement(self.speed.0 as int, dt as int),
                self.bound.max as int,
            ),
            final(pos).x == old(pos).x,
            old(pos).y >= self.bound.min ==> final(pos).in_coord_range(),
    {
        let step = displacement_exec(self.speed, dt);
        let moved = pos.y + step;
        if moved < self.bound.max {
            pos.y = moved;
        } else {
            pos.y = self.bound.max;
        }
    }
}

/// A scaled component of a step along a heading: `travel * t / TRIG_SCALE`
/// with the rounding toward zero.
pub open spec fn heading_step(travel: int, t: int) -> int {
    if t >= 0 {
        travel * t / (TRIG_SCALE as int)
    } else {
        -(travel * -t / (TRIG_SCALE as int))
    }
}

/// Unbounded motion at a constant scalar speed along the owning entity's
/// heading; the heading is fixed at spawn time.
#[derive(Clone, Copy, Debug, PartialEq, Eq, Structural)]
pub struct Velocity {
    pub speed: Speed,
}

impl Velocity {
    pub open spec fn wf(self) -> bool {
        self.speed.wf()
    }

    pub fn new(speed: i64) -> (r: Velocity)
        requires
            0 <= speed <= SPEED_LIMIT,
        ensures
            r.wf(),
            r.speed.0 == speed,
    {
        Velocity { speed: Speed(speed) }
    }

    /// Advance `pos` along the heading `heading_cd` (centidegrees away
    /// from straight up, positive counterclockwise) by `speed * dt`,
    /// unclamped: the x component is `-sin`, the y component `cos` of the
    /// heading, scaled by the distance covered.
    pub fn advance(&self, pos: &mut Vec2, heading_cd: i64, dt: i64)
        requires
            self.wf(),
            valid_dt(dt as int),
            -QUARTER_TURN_CD <= heading_cd <= QUARTER_TURN_CD,
            old(pos).in_coord_range(),
        ensures
            final(pos).x == old(pos).x + heading_step(
                displacement(self.speed.0 as int, dt as int),
                -sin_cd(heading_cd as int),
            ),
            final(pos).y == old(pos).y + heading_step(
                displacement(self.speed.0 as int, dt as int),
                cos_cd(heading_cd as int),
            ),
    {
        let travel = displacement_exec(self.speed, dt);
        let s = sin_scaled(heading_cd);
        let c = cos_scaled(heading_cd);
        pos.x = pos.x + heading_step_exec(travel, -s);
        pos.y = pos.y + heading_step_exec(travel, c);
    }
}

/// Exec-side heading step, exact per [`heading_step`].
fn heading_step_exec(travel: i64, t: i64) -> (r: i64)
    requires
        0 <= travel <= 1_000_000_000,
        -TRIG_SCALE <= t <= TRIG_SCALE,
    ensures
        r == heading_step(travel as int, t as int),
        -1_000_000_000 <= r <= 1_000_000_000,
{
    let mag: i64 = if t >= 0 { t } else { -t };
    proof {
        assert(0 <= travel * mag <= 10_000_000_000_000) by (nonlinear_arith)
            requires 0 <= travel <= 1_000_000_000, 0 <= mag <= TRIG_SCALE;
        assert(0 <= travel * mag / 10_000 <= 1_000_000_000) by (nonlinear_arith)
            requires 0 <= travel * mag <= 10_000_000_000_000;
    }
    let q: i64 = (travel * mag) / TRIG_SCALE;
    if t >= 0 {
        q
    } else {
        -q
    }
}

} // verus!
