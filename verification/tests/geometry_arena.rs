use swarm_combat::arena::battle_arena_bottom_bound;
use swarm_combat::arena::battle_arena_left_bound;
use swarm_combat::arena::battle_arena_right_bound;
use swarm_combat::arena::battle_arena_spawn_bottom;
use swarm_combat::arena::battle_arena_spawn_top;
use swarm_combat::arena::battle_arena_top_bound;
use swarm_combat::arena::ui_height;
use swarm_combat::arena::ArenaLayout;
use swarm_combat::arena::Viewport;
use swarm_combat::color::ColorHex;
use swarm_combat::geom::distance;
use swarm_combat::geom::isqrt;
use swarm_combat::geom::Vec2;
use swarm_combat::transition::handle_game_state_transition;
use swarm_combat::transition::GameState;
use swarm_combat::transition::GameStateTransitionEvent;
use swarm_combat::transition::TransitionEffect;
use swarm_combat::trig::cos_scaled;
use swarm_combat::trig::sin_scaled;

#[test]
fn isqrt_exact_values() {
    assert_eq!(isqrt(0), 0);
    assert_eq!(isqrt(1), 1);
    assert_eq!(isqrt(15), 3);
    assert_eq!(isqrt(16), 4);
    assert_eq!(isqrt(1_000_000), 1000);
    assert_eq!(isqrt(u64::MAX), 4_294_967_295);
}

#[test]
fn distance_is_floor_euclidean() {
    assert_eq!(distance(Vec2::new(0, 0), Vec2::new(3, 4)), 5);
    assert_eq!(distance(Vec2::new(0, 0), Vec2::new(1, 1)), 1);
    assert_eq!(distance(Vec2::new(500, 500), Vec2::new(560, 500)), 60);
    assert_eq!(distance(Vec2::new(-3, 0), Vec2::new(0, -4)), 5);
}

#[test]
fn sine_and_cosine_fixed_points() {
    assert_eq!(sin_scaled(0), 0);
    assert_eq!(sin_scaled(9000), 10_000);
    assert_eq!(sin_scaled(-9000), -10_000);
    // The half-turn rational approximation is exact at 30 degrees.
    assert_eq!(sin_scaled(3000), 5_000);
    assert_eq!(cos_scaled(0), 10_000);
    assert_eq!(cos_scaled(6000), 5_000);
    assert_eq!(cos_scaled(9000), 0);
}

#[test]
fn arena_bounds_are_fixed_percentages() {
    let w = Viewport::new(1000, 1000);
    assert_eq!(battle_arena_left_bound(&w), 50);
    assert_eq!(battle_arena_right_bound(&w), 950);
    assert_eq!(battle_arena_bottom_bound(&w), 50);
    assert_eq!(battle_arena_top_bound(&w), 900);
    assert_eq!(battle_arena_spawn_bottom(&w), 700);
    assert_eq!(battle_arena_spawn_top(&w), 900);
    assert_eq!(ui_height(&w), 100);
}

#[test]
fn arena_layout_matches_bound_functions() {
    let w = Viewport::new(800, 600);
    let a = ArenaLayout::new(&w);
    assert_eq!(a.left, battle_arena_left_bound(&w));
    assert_eq!(a.right, battle_arena_right_bound(&w));
    assert_eq!(a.bottom, battle_arena_bottom_bound(&w));
    assert_eq!(a.top, battle_arena_top_bound(&w));
    assert_eq!(a.spawn_bottom, battle_arena_spawn_bottom(&w));
    assert_eq!(a.spawn_top, battle_arena_spawn_top(&w));
}

#[test]
fn color_channels() {
    let c = ColorHex::new(0x2e4d2c);
    assert_eq!(c.red(), 0x2e);
    assert_eq!(c.green(), 0x4d);
    assert_eq!(c.blue(), 0x2c);
}

#[test]
fn transition_table() {
    assert_eq!(
        handle_game_state_transition(GameState::MainMenu, GameStateTransitionEvent::StartEncounter),
        TransitionEffect::SetState(GameState::Encounter)
    );
    assert_eq!(
        handle_game_state_transition(GameState::MainMenu, GameStateTransitionEvent::QuitGame),
        TransitionEffect::ExitApp
    );
    assert_eq!(
        handle_game_state_transition(GameState::Encounter, GameStateTransitionEvent::GameOver),
        TransitionEffect::SetState(GameState::GameOver)
    );
    assert_eq!(
        handle_game_state_transition(GameState::Encounter, GameStateTransitionEvent::QuitEncounter),
        TransitionEffect::SetState(GameState::MainMenu)
    );
    assert_eq!(
        handle_game_state_transition(GameState::GameOver, GameStateTransitionEvent::StartEncounter),
        TransitionEffect::SetState(GameState::Encounter)
    );
    assert_eq!(
        handle_game_state_transition(GameState::GameOver, GameStateTransitionEvent::QuitGame),
        TransitionEffect::Ignore
    );
}
