use vstd::prelude::*;

use crate::gameplay::GameState;
use crate::ui::SpriteButton;

verus! {

/// Columns of the menu-button sprite sheet.
pub const BUTTON_ATLAS_COLUMNS: usize = 3;

/// Rows of the menu-button sprite sheet.
pub const BUTTON_ATLAS_ROWS: usize = 6;

/// Frame of the menu button at rest.
pub const MENU_BUTTON_NORMAL_FRAME: usize = 15;

/// Frame of the menu button under the cursor.
pub const MENU_BUTTON_HOVER_FRAME: usize = 16;

/// Frame of the menu button while held down.
pub const MENU_BUTTON_PRESSED_FRAME: usize = 17;

/// The button shown on the main menu and on the game-over screen: the last
/// row of the button sheet, unpressed. All three of its frames lie in that
/// row of the sheet.
pub fn menu_button() -> (b: SpriteButton)
    ensures
        b.normal_frame_idx == MENU_BUTTON_NORMAL_FRAME,
        b.hover_frame_idx == MENU_BUTTON_HOVER_FRAME,
        b.pressed_frame_idx == MENU_BUTTON_PRESSED_FRAME,
        !b.is_pressed,
        b.normal_frame_idx < BUTTON_ATLAS_COLUMNS * BUTTON_ATLAS_ROWS,
        b.hover_frame_idx < BUTTON_ATLAS_COLUMNS * BUTTON_ATLAS_ROWS,
        b.pressed_frame_idx < BUTTON_ATLAS_COLUMNS * BUTTON_ATLAS_ROWS,
        b.normal_frame_idx / BUTTON_ATLAS_COLUMNS == b.hover_frame_idx / BUTTON_ATLAS_COLUMNS,
        b.normal_frame_idx / BUTTON_ATLAS_COLUMNS == b.pressed_frame_idx / BUTTON_ATLAS_COLUMNS,
{
    SpriteButton {
        normal_frame_idx: MENU_BUTTON_NORMAL_FRAME,
        hover_frame_idx: MENU_BUTTON_HOVER_FRAME,
        pressed_frame_idx: MENU_BUTTON_PRESSED_FRAME,
        is_pressed: false,
    }
}

/// The main menu's keyboard shortcut: on the main menu, letting go of the
/// space bar asks for the "get ready" screen. The check runs on the main
/// menu only; elsewhere it asks for nothing.
pub fn check_start_keypress(state: GameState, space_released: bool) -> (next: Option<GameState>)
    ensures
        next == (if state == GameState::MainMenu && space_released {
            Some(GameState::Preparing)
        } else {
            None
        }),
{
    if state != GameState::MainMenu {
        return None;
    }
    if !space_released {
        return None;
    }
    Some(GameState::Preparing)
}

} // verus!
