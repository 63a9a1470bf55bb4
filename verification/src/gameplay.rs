use vstd::prelude::*;

use crate::player::player_input;
use crate::screens::check_start_keypress;
use crate::ui::MenuButtonAction;

verus! {

/// The screens the game moves through.
#[derive(Clone, Copy, Debug, PartialEq, Eq, Hash, Structural)]
pub enum GameState {
    MainMenu,
    Preparing,
    InGame,
    GameOver,
}

impl Default for GameState {
    /// The game starts on the main menu.
    fn default() -> (s: GameState)
        ensures
            s == GameState::MainMenu,
    {
        GameState::MainMenu
    }
}

/// Something that happened during a frame and may move the game to another screen.
#[derive(Clone, Copy, Debug, PartialEq, Eq, Structural)]
pub enum GameEvent {
    /// The space bar was released (the main menu's keyboard shortcut).
    StartKeyReleased,
    /// The main menu's start button was released.
    StartButtonReleased,
    /// A menu button that carries an action was released.
    MenuButtonReleased(MenuButtonAction),
    /// The left mouse button or the space bar went down this frame.
    JumpPressed,
    /// The bird touched a pipe or the ground.
    PlayerDied,
}

/// The screen that follows `s` once `e` has been handled.
pub open spec fn next_state(s: GameState, e: GameEvent) -> GameState {
    match e {
        GameEvent::StartKeyReleased => if s == GameState::MainMenu {
            GameState::Preparing
        } else {
            s
        },
        GameEvent::StartButtonReleased => GameState::Preparing,
        GameEvent::MenuButtonReleased(_) => GameState::Preparing,
        GameEvent::JumpPressed => if s == GameState::Preparing || s == GameState::InGame {
            GameState::InGame
        } else {
            s
        },
        GameEvent::PlayerDied => GameState::GameOver,
    }
}

/// The screen reached from `s` after handling `events` in order.
pub open spec fn run_events(s: GameState, events: Seq<GameEvent>) -> GameState
    decreases events.len(),
{
    if events.len() == 0 {
        s
    } else {
        next_state(run_events(s, events.drop_last()), events.last())
    }
}

impl GameState {
    /// Handles one event: each event is routed to the system of the game
    /// that reacts to it, and the state that system requests is returned.
    pub fn on_event(self, e: GameEvent) -> (next: GameState)
        ensures
            next == next_state(self, e),
    {
        match e {
            GameEvent::StartKeyReleased => match check_start_keypress(self, true) {
                Some(n) => n,
                None => self,
            },
            GameEvent::StartButtonReleased => GameState::Preparing,
            GameEvent::MenuButtonReleased(action) => action.next_state(),
            GameEvent::JumpPressed => {
                let input = player_input(self, true);
                match input.next_state {
                    Some(n) => n,
                    None => self,
                }
            },
            GameEvent::PlayerDied => GameState::GameOver,
        }
    }
}

/// The game only enters play from the "get ready" screen or from play itself:
/// whatever the event, reaching `InGame` means the previous screen was
/// `Preparing` or `InGame`.
pub proof fn lemma_play_entered_only_from_preparing(s: GameState, e: GameEvent)
    requires
        next_state(s, e) == GameState::InGame,
    ensures
        s == GameState::Preparing || s == GameState::InGame,
        s == GameState::Preparing ==> e == GameEvent::JumpPressed,
{
}

/// The main menu is shown only at start-up: no event leads back to it.
pub proof fn lemma_main_menu_never_reentered(s: GameState, events: Seq<GameEvent>)
    requires
        s != GameState::MainMenu,
    ensures
        run_events(s, events) != GameState::MainMenu,
    decreases events.len(),
{
    if events.len() > 0 {
        lemma_main_menu_never_reentered(s, events.drop_last());
    }
}

/// A jump neither starts nor ends anything on the main menu or the game-over screen.
pub proof fn lemma_jump_ignored_outside_play(s: GameState)
    requires
        s == GameState::MainMenu || s == GameState::GameOver,
    ensures
        next_state(s, GameEvent::JumpPressed) == s,
{
}

/// The game-over screen is entered only through the bird's death.
pub proof fn lemma_game_over_only_by_death(s: GameState, e: GameEvent)
    requires
        s != GameState::GameOver,
        next_state(s, e) == GameState::GameOver,
    ensures
        e == GameEvent::PlayerDied,
{
}

} // verus!
