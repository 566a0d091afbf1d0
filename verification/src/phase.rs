//! The phases of a game and the moves between them.

use vstd::prelude::*;

verus! {

/// The phase that the game is in. `StartGame` lasts one frame: it clears the
/// board, builds a fresh snake and hands over to `InGame`.
#[derive(Clone, Copy, Debug, PartialEq, Eq, Structural)]
pub enum GameState {
    Menu,
    StartGame,
    InGame,
    Pause,
    GameOver,
}

/// What the player asked for in one frame, apart from steering: `confirm` is
/// the primary key or the button of the current screen, `pause` the pause key,
/// `quit` the quit button.
#[derive(Clone, Copy, Debug, PartialEq, Eq, Structural)]
pub struct Controls {
    pub confirm: bool,
    pub pause: bool,
    pub quit: bool,
}

impl GameState {
    /// The phase of the next frame. `crashed` says whether a wall or self
    /// collision was signalled in this frame; it counts only while playing,
    /// where it wins over the pause key.
    pub open spec fn followed_by(self, controls: Controls, crashed: bool) -> GameState {
        match self {
            GameState::Menu => if controls.confirm {
                GameState::StartGame
            } else {
                GameState::Menu
            },
            GameState::StartGame => GameState::InGame,
            GameState::InGame => if crashed {
                GameState::GameOver
            } else if controls.pause {
                GameState::Pause
            } else {
                GameState::InGame
            },
            GameState::Pause => if controls.confirm || controls.pause {
                GameState::InGame
            } else {
                GameState::Pause
            },
            GameState::GameOver => if controls.confirm {
                GameState::StartGame
            } else {
                GameState::GameOver
            },
        }
    }

    /// The phase of the next frame.
    pub fn next(self, controls: Controls, crashed: bool) -> (r: GameState)
        ensures
            r == self.followed_by(controls, crashed),
    {
        match self {
            GameState::Menu => menu(controls.confirm),
            GameState::StartGame => GameState::InGame,
            GameState::InGame => game_over_check(input_pause(controls.pause), crashed),
            GameState::Pause => paused(controls.confirm, controls.pause),
            GameState::GameOver => game_over_retry_button(controls.confirm),
        }
    }
}

/// The menu: a confirm starts a game.
pub fn menu(confirm: bool) -> (r: GameState)
    ensures
        r == if confirm {
            GameState::StartGame
        } else {
            GameState::Menu
        },
{
    if confirm {
        GameState::StartGame
    } else {
        GameState::Menu
    }
}

/// The pause screen: a confirm or the pause key resumes the game.
pub fn paused(confirm: bool, pause: bool) -> (r: GameState)
    ensures
        r == if confirm || pause {
            GameState::InGame
        } else {
            GameState::Pause
        },
{
    if confirm || pause {
        GameState::InGame
    } else {
        GameState::Pause
    }
}

/// While playing, the pause key asks for the pause screen.
pub fn input_pause(pause: bool) -> (r: GameState)
    ensures
        r == if pause {
            GameState::Pause
        } else {
            GameState::InGame
        },
{
    if pause {
        GameState::Pause
    } else {
        GameState::InGame
    }
}

/// The end of a playing frame: a crash ends the run whatever phase was asked
/// for; without one the phase asked for stands.
pub fn game_over_check(asked: GameState, crashed: bool) -> (r: GameState)
    ensures
        r == if crashed {
            GameState::GameOver
        } else {
            asked
        },
{
    if crashed {
        GameState::GameOver
    } else {
        asked
    }
}

/// The game-over screen: a confirm starts a new run.
pub fn game_over_retry_button(confirm: bool) -> (r: GameState)
    ensures
        r == if confirm {
            GameState::StartGame
        } else {
            GameState::GameOver
        },
{
    if confirm {
        GameState::StartGame
    } else {
        GameState::GameOver
    }
}

/// Only a crash while playing leads to the game-over screen, and a crash
/// while playing always does.
pub proof fn lemma_game_over_only_by_crash(state: GameState, controls: Controls, crashed: bool)
    requires
        state != GameState::GameOver,
    ensures
        state.followed_by(controls, crashed) == GameState::GameOver <==> state == GameState::InGame
            && crashed,
{
}

/// A run starts only from the menu or the game-over screen, on a confirm.
pub proof fn lemma_start_only_on_confirm(state: GameState, controls: Controls, crashed: bool)
    ensures
        state.followed_by(controls, crashed) == GameState::StartGame <==> (state == GameState::Menu
            || state == GameState::GameOver) && controls.confirm,
{
}

} // verus!
