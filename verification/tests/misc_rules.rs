use flappy::debug::DebugEnabled;
use flappy::gameplay::GameState;
use flappy::pipes::PipeCounter;
use flappy::screens::{check_start_keypress, menu_button, BUTTON_ATLAS_COLUMNS, BUTTON_ATLAS_ROWS};

#[test]
fn debug_toggle() {
    let mut d = DebugEnabled::new();
    assert!(!d.draws_boxes());
    d.toggle_debug(false);
    assert!(!d.draws_boxes());
    d.toggle_debug(true);
    assert!(d.draws_boxes());
    d.toggle_debug(true);
    assert!(!d.draws_boxes());
}

#[test]
fn pipes_are_numbered_in_order() {
    let mut c = PipeCounter::new();
    assert_eq!(c.take_index(), 0);
    assert_eq!(c.take_index(), 1);
    assert_eq!(c.take_index(), 2);
    assert_eq!(c.spawned_pipes, 3);
}

#[test]
fn start_keypress() {
    assert_eq!(check_start_keypress(GameState::MainMenu, true), Some(GameState::Preparing));
    assert_eq!(check_start_keypress(GameState::MainMenu, false), None);
    assert_eq!(check_start_keypress(GameState::Preparing, true), None);
    assert_eq!(check_start_keypress(GameState::GameOver, true), None);
}

#[test]
fn menu_button_frames() {
    let b = menu_button();
    assert_eq!((b.normal_frame_idx, b.hover_frame_idx, b.pressed_frame_idx), (15, 16, 17));
    assert!(!b.is_pressed);
    assert!(b.pressed_frame_idx < BUTTON_ATLAS_COLUMNS * BUTTON_ATLAS_ROWS);
    assert_eq!(b.normal_frame_idx / BUTTON_ATLAS_COLUMNS, 5);
}

#[test]
fn many_pipes_numbered_by_spawn_order() {
    let mut c = PipeCounter::new();
    for k in 0..100 {
        assert_eq!(c.take_index(), k);
        assert_eq!(c.spawned_pipes, k + 1);
    }
}
