//! The global application state machine around the encounter: which
//! transitions each event performs in each state. The encounter core only
//! emits the game-over signal; this table says what the surrounding
//! application does with it and with the menu events.

use vstd::prelude::*;

verus! {

/// Global application states.
#[derive(Clone, Copy, Debug, PartialEq, Eq, Structural)]
pub enum GameState {
    MainMenu,
    Encounter,
    GameOver,
}

/// Events that drive the global state machine.
#[derive(Clone, Copy, Debug, PartialEq, Eq, Structural)]
pub enum GameStateTransitionEvent {
    StartEncounter,
    QuitEncounter,
    GameOver,
    QuitGame,
}

/// What a transition asks the surrounding application to do.
#[derive(Clone, Copy, Debug, PartialEq, Eq, Structural)]
pub enum TransitionEffect {
    SetState(GameState),
    ExitApp,
    Ignore,
}

/// The transition table: starting an encounter from the main menu or the
/// game-over screen, quitting an encounter or the game-over screen back
/// to the menu, the loss signal ending an encounter, and quitting the
/// application from the menu. Every other pairing is ignored.
pub open spec fn transition_spec(state: GameState, event: GameStateTransitionEvent)
    -> TransitionEffect {
    match (state, event) {
        (GameState::MainMenu, GameStateTransitionEvent::StartEncounter) =>
            TransitionEffect::SetState(GameState::Encounter),
        (GameState::MainMenu, GameStateTransitionEvent::QuitGame) => TransitionEffect::ExitApp,
        (GameState::Encounter, GameStateTransitionEvent::QuitEncounter) =>
            TransitionEffect::SetState(GameState::MainMenu),
        (GameState::Encounter, GameStateTransitionEvent::GameOver) =>
            TransitionEffect::SetState(GameState::GameOver),
        (GameState::GameOver, GameStateTransitionEvent::QuitEncounter) =>
            TransitionEffect::SetState(GameState::MainMenu),
        (GameState::GameOver, GameStateTransitionEvent::StartEncounter) =>
            TransitionEffect::SetState(GameState::Encounter),
        _ => TransitionEffect::Ignore,
    }
}

/// Decide the effect of one event in the current state, per
/// [`transition_spec`].
pub fn handle_game_state_transition(state: GameState, event: GameStateTransitionEvent) -> (r:
    TransitionEffect)
    ensures
        r == transition_spec(state, event),
{
    match (state, event) {
        (GameState::MainMenu, GameStateTransitionEvent::StartEncounter) =>
            TransitionEffect::SetState(GameState::Encounter),
        (GameState::MainMenu, GameStateTransitionEvent::QuitGame) => TransitionEffect::ExitApp,
        (GameState::Encounter, GameStateTransitionEvent::QuitEncounter) =>
            TransitionEffect::SetState(GameState::MainMenu),
        (GameState::Encounter, GameStateTransitionEvent::GameOver) =>
            TransitionEffect::SetState(GameState::GameOver),
        (GameState::GameOver, GameStateTransitionEvent::QuitEncounter) =>
            TransitionEffect::SetState(GameState::MainMenu),
        (GameState::GameOver, GameStateTransitionEvent::StartEncounter) =>
            TransitionEffect::SetState(GameState::Encounter),
        (_, _) => TransitionEffect::Ignore,
    }
}

} // verus!
