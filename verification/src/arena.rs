//! Arena geometry: the battle area, ground band, UI band and enemy spawn
//! band are fixed percentages of the viewport, computed once per encounter.

use vstd::prelude::*;

verus! {

/// Height of the ground band, in percent of the viewport height.
pub const ARENA_LAYOUT_GROUND_HEIGHT_PERCENT: i64 = 5;

/// Height of the battle area, in percent of the viewport height.
pub const ARENA_LAYOUT_BATTLE_ARENA_HEIGHT_PERCENT: i64 = 85;

/// Height of the UI band, in percent of the viewport height.
pub const ARENA_LAYOUT_UI_HEIGHT_PERCENT: i64 = 10;

/// Height of the enemy spawn band at the top of the battle area, in
/// percent of the viewport height.
pub const ARENA_LAYOUT_BATTLE_ARENA_ENEMY_SPAWN_HEIGHT_PERCENT: i64 = 20;

/// Width of the gap on each side of the battle area, in percent of the
/// viewport width.
pub const ARENA_LAYOUT_SIDE_GAP_WIDTH_PERCENT: i64 = 5;

/// Smallest viewport edge the layout is defined for, in units.
pub const VIEWPORT_MIN: i64 = 200;

/// Largest viewport edge the layout is defined for, in units.
pub const VIEWPORT_MAX: i64 = 1_000_000;

/// Window or viewport dimensions, in world units.
#[derive(Clone, Copy, Debug, PartialEq, Eq, Structural)]
pub struct Viewport {
    pub width: i64,
    pub height: i64,
}

impl Viewport {
    pub open spec fn wf(self) -> bool {
        VIEWPORT_MIN <= self.width <= VIEWPORT_MAX
            && VIEWPORT_MIN <= self.height <= VIEWPORT_MAX
    }

    pub fn new(width: i64, height: i64) -> (r: Viewport)
        requires
            VIEWPORT_MIN <= width <= VIEWPORT_MAX,
            VIEWPORT_MIN <= height <= VIEWPORT_MAX,
        ensures
            r.wf(),
            r.width == width && r.height == height,
    {
        Viewport { width, height }
    }
}

/// Left edge of the battle area.
pub fn battle_arena_left_bound(window: &Viewport) -> (r: i64)
    requires
        window.wf(),
    ensures
        r == window.width * ARENA_LAYOUT_SIDE_GAP_WIDTH_PERCENT / 100,
{
    window.width * ARENA_LAYOUT_SIDE_GAP_WIDTH_PERCENT / 100
}

/// Right edge of the battle area.
pub fn battle_arena_right_bound(window: &Viewport) -> (r: i64)
    requires
        window.wf(),
    ensures
        r == window.width * (100 - ARENA_LAYOUT_SIDE_GAP_WIDTH_PERCENT) / 100,
{
    window.width * (100 - ARENA_LAYOUT_SIDE_GAP_WIDTH_PERCENT) / 100
}

/// Top edge of the battle area: ground plus battle-area height.
pub fn battle_arena_top_bound(window: &Viewport) -> (r: i64)
    requires
        window.wf(),
    ensures
        r == window.height * (ARENA_LAYOUT_GROUND_HEIGHT_PERCENT
            + ARENA_LAYOUT_BATTLE_ARENA_HEIGHT_PERCENT) / 100,
{
    window.height * (ARENA_LAYOUT_GROUND_HEIGHT_PERCENT
        + ARENA_LAYOUT_BATTLE_ARENA_HEIGHT_PERCENT) / 100
}

/// Bottom edge of the battle area: the top of the ground band.
pub fn battle_arena_bottom_bound(window: &Viewport) -> (r: i64)
    requires
        window.wf(),
    ensures
        r == window.height * ARENA_LAYOUT_GROUND_HEIGHT_PERCENT / 100,
{
    window.height * ARENA_LAYOUT_GROUND_HEIGHT_PERCENT / 100
}

/// Top of the enemy spawn band: the top of the battle area.
pub fn battle_arena_spawn_top(window: &Viewport) -> (r: i64)
    requires
        window.wf(),
    ensures
        r == window.height * (ARENA_LAYOUT_GROUND_HEIGHT_PERCENT
            + ARENA_LAYOUT_BATTLE_ARENA_HEIGHT_PERCENT) / 100,
{
    battle_arena_top_bound(window)
}

/// Bottom of the enemy spawn band.
pub fn battle_arena_spawn_bottom(window: &Viewport) -> (r: i64)
    requires
        window.wf(),
    ensures
        r == window.height * (ARENA_LAYOUT_GROUND_HEIGHT_PERCENT
            + ARENA_LAYOUT_BATTLE_ARENA_HEIGHT_PERCENT
            - ARENA_LAYOUT_BATTLE_ARENA_ENEMY_SPAWN_HEIGHT_PERCENT) / 100,
{
    window.height * (ARENA_LAYOUT_GROUND_HEIGHT_PERCENT
        + ARENA_LAYOUT_BATTLE_ARENA_HEIGHT_PERCENT
        - ARENA_LAYOUT_BATTLE_ARENA_ENEMY_SPAWN_HEIGHT_PERCENT) / 100
}

/// Height of the UI band.
pub fn ui_height(window: &Viewport) -> (r: i64)
    requires
        window.wf(),
    ensures
        r == window.height * ARENA_LAYOUT_UI_HEIGHT_PERCENT / 100,
{
    window.height * ARENA_LAYOUT_UI_HEIGHT_PERCENT / 100
}

/// The layout a viewport determines: each edge is the exact percentage
/// formula of the corresponding bound function.
pub open spec fn layout_of(window: Viewport) -> ArenaLayout {
    ArenaLayout {
        left: (window.width * ARENA_LAYOUT_SIDE_GAP_WIDTH_PERCENT / 100) as i64,
        right: (window.width * (100 - ARENA_LAYOUT_SIDE_GAP_WIDTH_PERCENT) / 100) as i64,
        bottom: (window.height * ARENA_LAYOUT_GROUND_HEIGHT_PERCENT / 100) as i64,
        top: (window.height * (ARENA_LAYOUT_GROUND_HEIGHT_PERCENT
            + ARENA_LAYOUT_BATTLE_ARENA_HEIGHT_PERCENT) / 100) as i64,
        spawn_bottom: (window.height * (ARENA_LAYOUT_GROUND_HEIGHT_PERCENT
            + ARENA_LAYOUT_BATTLE_ARENA_HEIGHT_PERCENT
            - ARENA_LAYOUT_BATTLE_ARENA_ENEMY_SPAWN_HEIGHT_PERCENT) / 100) as i64,
        spawn_top: (window.height * (ARENA_LAYOUT_GROUND_HEIGHT_PERCENT
            + ARENA_LAYOUT_BATTLE_ARENA_HEIGHT_PERCENT) / 100) as i64,
    }
}

/// The derived edges of the battle area and spawn band, read-only for the
/// duration of an encounter.
#[derive(Clone, Copy, Debug, PartialEq, Eq, Structural)]
pub struct ArenaLayout {
    pub left: i64,
    pub right: i64,
    pub bottom: i64,
    pub top: i64,
    pub spawn_bottom: i64,
    pub spawn_top: i64,
}

impl ArenaLayout {
    /// The edge relations every layout from a well-formed viewport enjoys:
    /// room for an enemy between the side bounds, a spawn band above the
    /// ground band, and every edge within the largest viewport.
    pub open spec fn wf(self) -> bool {
        0 <= self.left
        && self.left + 100 <= self.right
        && self.right <= VIEWPORT_MAX
        && 0 <= self.bottom
        && self.bottom + 30 <= self.spawn_bottom
        && self.spawn_bottom + 1 <= self.spawn_top
        && self.spawn_top <= self.top
        && self.top <= VIEWPORT_MAX
    }

    /// Compute the layout from the viewport; each edge is the exact
    /// percentage formula of the corresponding bound function.
    pub fn new(window: &Viewport) -> (r: ArenaLayout)
        requires
            window.wf(),
        ensures
            r.wf(),
            r == layout_of(*window),
            r.left == window.width * ARENA_LAYOUT_SIDE_GAP_WIDTH_PERCENT / 100,
            r.right == window.width * (100 - ARENA_LAYOUT_SIDE_GAP_WIDTH_PERCENT) / 100,
            r.bottom == window.height * ARENA_LAYOUT_GROUND_HEIGHT_PERCENT / 100,
            r.top == window.height * (ARENA_LAYOUT_GROUND_HEIGHT_PERCENT
                + ARENA_LAYOUT_BATTLE_ARENA_HEIGHT_PERCENT) / 100,
            r.spawn_bottom == window.height * (ARENA_LAYOUT_GROUND_HEIGHT_PERCENT
                + ARENA_LAYOUT_BATTLE_ARENA_HEIGHT_PERCENT
                - ARENA_LAYOUT_BATTLE_ARENA_ENEMY_SPAWN_HEIGHT_PERCENT) / 100,
            r.spawn_top == window.height * (ARENA_LAYOUT_GROUND_HEIGHT_PERCENT
                + ARENA_LAYOUT_BATTLE_ARENA_HEIGHT_PERCENT) / 100,
    {
        let r = ArenaLayout {
            left: battle_arena_left_bound(window),
            right: battle_arena_right_bound(window),
            bottom: battle_arena_bottom_bound(window),
            top: battle_arena_top_bound(window),
            spawn_bottom: battle_arena_spawn_bottom(window),
            spawn_top: battle_arena_spawn_top(window),
        };
        proof {
            let w = window.width as int;
            let h = window.height as int;
            assert(w * 5 / 100 + 100 <= w * 95 / 100) by (nonlinear_arith)
                requires 200 <= w <= 1_000_000;
            assert(w * 95 / 100 <= VIEWPORT_MAX) by (nonlinear_arith)
                requires 200 <= w <= 1_000_000;
            assert(0 <= h * 5 / 100) by (nonlinear_arith)
                requires 200 <= h;
            assert(h * 5 / 100 + 30 <= h * 70 / 100) by (nonlinear_arith)
                requires 200 <= h <= 1_000_000;
            assert(h * 70 / 100 + 1 <= h * 90 / 100) by (nonlinear_arith)
                requires 200 <= h <= 1_000_000;
            assert(h * 90 / 100 <= VIEWPORT_MAX) by (nonlinear_arith)
                requires 200 <= h <= 1_000_000;
            assert(0 <= w * 5 / 100) by (nonlinear_arith)
                requires 200 <= w;
        }
        r
    }
}

} // verus!
