use vstd::prelude::*;

verus! {

/// The phase the game is in.
#[derive(Clone, Copy, Debug, PartialEq, Eq, Hash, Structural)]
pub enum GameState {
    InGame,
    Paused,
    GameOver,
}

impl Default for GameState {
    fn default() -> (state: GameState)
        ensures
            state == GameState::InGame,
    {
        GameState::InGame
    }
}

/// The state that pressing the pause key leads to from `state`, if any: a
/// running game pauses, a paused one goes on, a finished one stays finished.
pub open spec fn toggled(state: GameState) -> Option<GameState> {
    match state {
        GameState::InGame => Some(GameState::Paused),
        GameState::Paused => Some(GameState::InGame),
        GameState::GameOver => None,
    }
}

/// Decides the state to move to when the pause key may have just been
/// pressed. Without a key press nothing changes.
pub fn pause_system(state: GameState, pause_pressed: bool) -> (next: Option<GameState>)
    ensures
        next == if pause_pressed {
            toggled(state)
        } else {
            None
        },
{
    if pause_pressed {
        match state {
            GameState::InGame => Some(GameState::Paused),
            GameState::Paused => Some(GameState::InGame),
            GameState::GameOver => None,
        }
    } else {
        None
    }
}

/// Pausing twice in a row leads back to where the game was.
pub proof fn lemma_pause_twice_resumes(state: GameState)
    requires
        toggled(state) is Some,
    ensures
        toggled(toggled(state).unwrap()) == Some(state),
{
}

} // verus!
