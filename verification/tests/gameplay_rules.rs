use flappy::gameplay::{GameEvent, GameState};
use flappy::ui::MenuButtonAction;

fn run(start: GameState, events: &[GameEvent]) -> GameState {
    events.iter().fold(start, |s, e| s.on_event(*e))
}

#[test]
fn game_starts_on_main_menu() {
    assert_eq!(GameState::default(), GameState::MainMenu);
}

#[test]
fn start_key_only_works_on_main_menu() {
    assert_eq!(GameState::MainMenu.on_event(GameEvent::StartKeyReleased), GameState::Preparing);
    assert_eq!(GameState::Preparing.on_event(GameEvent::StartKeyReleased), GameState::Preparing);
    assert_eq!(GameState::InGame.on_event(GameEvent::StartKeyReleased), GameState::InGame);
    assert_eq!(GameState::GameOver.on_event(GameEvent::StartKeyReleased), GameState::GameOver);
}

#[test]
fn buttons_lead_to_preparing() {
    assert_eq!(GameState::MainMenu.on_event(GameEvent::StartButtonReleased), GameState::Preparing);
    assert_eq!(
        GameState::GameOver.on_event(GameEvent::MenuButtonReleased(MenuButtonAction::TryAgain)),
        GameState::Preparing
    );
    assert_eq!(
        GameState::MainMenu.on_event(GameEvent::MenuButtonReleased(MenuButtonAction::StartGame)),
        GameState::Preparing
    );
}

#[test]
fn jump_starts_play_from_preparing_only() {
    assert_eq!(GameState::Preparing.on_event(GameEvent::JumpPressed), GameState::InGame);
    assert_eq!(GameState::InGame.on_event(GameEvent::JumpPressed), GameState::InGame);
    assert_eq!(GameState::MainMenu.on_event(GameEvent::JumpPressed), GameState::MainMenu);
    assert_eq!(GameState::GameOver.on_event(GameEvent::JumpPressed), GameState::GameOver);
}

#[test]
fn death_ends_the_round() {
    assert_eq!(GameState::InGame.on_event(GameEvent::PlayerDied), GameState::GameOver);
}

#[test]
fn full_round_and_retry() {
    let events = vec![
        GameEvent::JumpPressed,
        GameEvent::StartKeyReleased,
        GameEvent::JumpPressed,
        GameEvent::JumpPressed,
        GameEvent::PlayerDied,
        GameEvent::JumpPressed,
        GameEvent::MenuButtonReleased(MenuButtonAction::TryAgain),
        GameEvent::JumpPressed,
    ];
    assert_eq!(run(GameState::MainMenu, &events), GameState::InGame);
    assert_eq!(run(GameState::MainMenu, &events[..5]), GameState::GameOver);
    assert_eq!(run(GameState::MainMenu, &[]), GameState::MainMenu);
}

#[test]
fn main_menu_is_never_shown_again() {
    let all = [
        GameEvent::StartKeyReleased,
        GameEvent::StartButtonReleased,
        GameEvent::MenuButtonReleased(MenuButtonAction::StartGame),
        GameEvent::MenuButtonReleased(MenuButtonAction::TryAgain),
        GameEvent::JumpPressed,
        GameEvent::PlayerDied,
    ];
    for s in [GameState::Preparing, GameState::InGame, GameState::GameOver] {
        for e in all {
            assert_ne!(s.on_event(e), GameState::MainMenu);
        }
    }
}

#[test]
fn game_over_only_by_death() {
    let all = [
        GameEvent::StartKeyReleased,
        GameEvent::StartButtonReleased,
        GameEvent::MenuButtonReleased(MenuButtonAction::TryAgain),
        GameEvent::JumpPressed,
    ];
    for s in [GameState::MainMenu, GameState::Preparing, GameState::InGame] {
        for e in all {
            assert_ne!(s.on_event(e), GameState::GameOver);
        }
        assert_eq!(s.on_event(GameEvent::PlayerDied), GameState::GameOver);
    }
}

#[test]
fn try_again_then_jump_plays() {
    let events = vec![GameEvent::MenuButtonReleased(MenuButtonAction::TryAgain), GameEvent::JumpPressed];
    assert_eq!(run(GameState::GameOver, &events), GameState::InGame);
}
