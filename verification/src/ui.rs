use vstd::prelude::*;

use crate::gameplay::GameState;

verus! {

/// What a hover update reports about the sprite under the cursor.
#[derive(Clone, Copy, Debug, PartialEq, Eq, Structural)]
pub enum HoverSignal {
    /// Nothing changed.
    Unchanged,
    /// The cursor moved onto the sprite.
    Enter,
    /// The cursor left the sprite.
    Exit,
}

/// Whether the cursor currently lies over a sprite.
#[derive(Clone, Copy, Debug, PartialEq, Eq, Structural)]
pub struct Hoverable {
    pub hovered: bool,
}

impl Default for Hoverable {
    /// A sprite starts out not hovered.
    fn default() -> (h: Hoverable)
        ensures
            !h.hovered,
    {
        Hoverable { hovered: false }
    }
}

/// The hover signal for a sprite that was `hovered` and whose bounds now
/// do (`inside`) or do not contain the cursor.
pub open spec fn hover_signal(hovered: bool, inside: bool) -> HoverSignal {
    if inside && !hovered {
        HoverSignal::Enter
    } else if !inside && hovered {
        HoverSignal::Exit
    } else {
        HoverSignal::Unchanged
    }
}

impl Hoverable {
    /// Updates the hover flag from whether the sprite's bounds contain the
    /// cursor, and reports an enter or exit when the flag flips.
    pub fn update(&mut self, inside: bool) -> (signal: HoverSignal)
        ensures
            signal == hover_signal(old(self).hovered, inside),
            final(self).hovered == inside,
    {
        if inside && !self.hovered {
            self.hovered = true;
            HoverSignal::Enter
        } else if !inside && self.hovered {
            self.hovered = false;
            HoverSignal::Exit
        } else {
            HoverSignal::Unchanged
        }
    }
}

/// What a sprite-button update reports.
#[derive(Clone, Copy, Debug, PartialEq, Eq, Structural)]
pub enum ButtonSignal {
    /// Nothing changed.
    Unchanged,
    /// The left mouse button went down on this button.
    Pressed,
    /// The left mouse button was let go.
    Released,
}

/// A button drawn from a sprite atlas, with one frame per look.
#[derive(Clone, Copy, Debug, PartialEq, Eq, Structural)]
pub struct SpriteButton {
    pub normal_frame_idx: usize,
    pub hover_frame_idx: usize,
    pub pressed_frame_idx: usize,
    pub is_pressed: bool,
}

impl Default for SpriteButton {
    /// All frames at index zero, not pressed.
    fn default() -> (b: SpriteButton)
        ensures
            b.normal_frame_idx == 0,
            b.hover_frame_idx == 0,
            b.pressed_frame_idx == 0,
            !b.is_pressed,
    {
        SpriteButton { normal_frame_idx: 0, hover_frame_idx: 0, pressed_frame_idx: 0, is_pressed: false }
    }
}

/// The frame an unpressed button shows.
pub open spec fn resting_frame(b: SpriteButton, hovered: bool) -> usize {
    if hovered {
        b.hover_frame_idx
    } else {
        b.normal_frame_idx
    }
}

/// The signal a button update gives.
pub open spec fn button_signal(was_pressed: bool, mouse_pressed: bool) -> ButtonSignal {
    if mouse_pressed && !was_pressed {
        ButtonSignal::Pressed
    } else if !mouse_pressed && was_pressed {
        ButtonSignal::Released
    } else {
        ButtonSignal::Unchanged
    }
}

/// A button and its atlas frame after one update (see `SpriteButton::update`).
pub open spec fn button_step(b: SpriteButton, atlas_index: Option<usize>, hovered: bool, mouse_pressed: bool) -> (
    SpriteButton,
    Option<usize>,
) {
    match atlas_index {
        None => (b, None),
        Some(i) => (
            SpriteButton { is_pressed: mouse_pressed, ..b },
            Some(
                if !mouse_pressed {
                    resting_frame(b, hovered)
                } else if !b.is_pressed {
                    b.pressed_frame_idx
                } else {
                    i
                },
            ),
        ),
    }
}

/// A button and its atlas frame after the updates `inputs`, each a pair of
/// (cursor over the button, left mouse button down), in order.
pub open spec fn button_after(b: SpriteButton, atlas_index: Option<usize>, inputs: Seq<(bool, bool)>) -> (
    SpriteButton,
    Option<usize>,
)
    decreases inputs.len(),
{
    if inputs.len() == 0 {
        (b, atlas_index)
    } else {
        let prev = button_after(b, atlas_index, inputs.drop_last());
        button_step(prev.0, prev.1, inputs.last().0, inputs.last().1)
    }
}

/// The atlas shows what the button's state says: the pressed frame while
/// pressed, the normal or hover frame otherwise.
pub open spec fn shows_its_state(b: SpriteButton, atlas_index: Option<usize>) -> bool {
    atlas_index matches Some(i) ==> if b.is_pressed {
        i == b.pressed_frame_idx
    } else {
        i == b.normal_frame_idx || i == b.hover_frame_idx
    }
}

impl SpriteButton {
    /// One frame of a sprite button. A button whose sprite has no atlas is
    /// left alone. Otherwise the button follows the left mouse button: on
    /// the press it shows its pressed frame and reports `Pressed`, on the
    /// release it reports `Released`; whenever it is not pressed it shows its
    /// hover or normal frame, as the cursor is over it or not.
    pub fn update(&mut self, atlas_index: &mut Option<usize>, hovered: bool, mouse_pressed: bool) -> (signal:
        ButtonSignal)
        ensures
            (*final(self), *final(atlas_index)) == button_step(*old(self), *old(atlas_index), hovered, mouse_pressed),
            (*old(atlas_index)) is None ==> {
                &&& signal == ButtonSignal::Unchanged
                &&& *final(self) == *old(self)
                &&& *final(atlas_index) == *old(atlas_index)
            },
            (*old(atlas_index)) is Some ==> {
                &&& signal == button_signal(old(self).is_pressed, mouse_pressed)
                &&& final(self).is_pressed == mouse_pressed
                &&& final(self).normal_frame_idx == old(self).normal_frame_idx
                &&& final(self).hover_frame_idx == old(self).hover_frame_idx
                &&& final(self).pressed_frame_idx == old(self).pressed_frame_idx
                &&& *final(atlas_index) == Some(
                    if !mouse_pressed {
                        resting_frame(*old(self), hovered)
                    } else if !old(self).is_pressed {
                        old(self).pressed_frame_idx
                    } else {
                        (*old(atlas_index))->0
                    },
                )
            },
    {
        let mut index = match *atlas_index {
            Some(i) => i,
            None => {
                return ButtonSignal::Unchanged;
            },
        };
        let mut signal = ButtonSignal::Unchanged;
        if mouse_pressed && !self.is_pressed {
            index = self.pressed_frame_idx;
            self.is_pressed = true;
            signal = ButtonSignal::Pressed;
        } else if !mouse_pressed && self.is_pressed {
            self.is_pressed = false;
            signal = ButtonSignal::Released;
        }
        if !self.is_pressed {
            index = if hovered {
                self.hover_frame_idx
            } else {
                self.normal_frame_idx
            };
        }
        *atlas_index = Some(index);
        signal
    }
}

/// What a menu button does once released.
#[derive(Clone, Copy, Debug, PartialEq, Eq, Structural)]
pub enum MenuButtonAction {
    StartGame,
    TryAgain,
}

impl MenuButtonAction {
    /// The screen a released menu button leads to: both actions bring the
    /// player to the "get ready" screen.
    pub fn next_state(&self) -> (s: GameState)
        ensures
            s == GameState::Preparing,
    {
        match self {
            MenuButtonAction::StartGame => GameState::Preparing,
            MenuButtonAction::TryAgain => GameState::Preparing,
        }
    }
}

/// The size a sprite is measured by for hovering: its custom size if it has
/// one, else the size of its atlas tile, else the size of its source
/// rectangle. `None` means the size of the whole image is to be used.
pub fn pick_sprite_size<T: Copy>(custom_size: Option<T>, atlas_tile_size: Option<T>, rect_size: Option<T>) -> (size:
    Option<T>)
    ensures
        size == (if custom_size is Some {
            custom_size
        } else if atlas_tile_size is Some {
            atlas_tile_size
        } else {
            rect_size
        }),
{
    match custom_size {
        Some(s) => Some(s),
        None => match atlas_tile_size {
            Some(s) => Some(s),
            None => rect_size,
        },
    }
}

/// A hover update always leaves the flag equal to where the cursor is, and
/// a second update with the cursor in the same place reports nothing.
pub proof fn lemma_hover_settles(hovered: bool, inside: bool)
    ensures
        hover_signal(inside, inside) == HoverSignal::Unchanged,
        hover_signal(hovered, inside) == HoverSignal::Enter <==> (!hovered && inside),
        hover_signal(hovered, inside) == HoverSignal::Exit <==> (hovered && !inside),
{
}

/// A button reports `Pressed` exactly on the mouse button's way down and
/// `Released` exactly on its way up; once an update has run, a second one
/// with the mouse button unchanged reports nothing.
pub proof fn lemma_button_edges(was_pressed: bool, mouse_pressed: bool)
    ensures
        button_signal(was_pressed, mouse_pressed) == ButtonSignal::Pressed <==> (!was_pressed && mouse_pressed),
        button_signal(was_pressed, mouse_pressed) == ButtonSignal::Released <==> (was_pressed && !mouse_pressed),
        button_signal(mouse_pressed, mouse_pressed) == ButtonSignal::Unchanged,
{
}

proof fn lemma_button_step_shows_state(b: SpriteButton, atlas_index: Option<usize>, hovered: bool, mouse_pressed: bool)
    requires
        shows_its_state(b, atlas_index) || !b.is_pressed,
    ensures
        shows_its_state(
            button_step(b, atlas_index, hovered, mouse_pressed).0,
            button_step(b, atlas_index, hovered, mouse_pressed).1,
        ),
        button_step(b, atlas_index, hovered, mouse_pressed).0.normal_frame_idx == b.normal_frame_idx,
        button_step(b, atlas_index, hovered, mouse_pressed).0.hover_frame_idx == b.hover_frame_idx,
        button_step(b, atlas_index, hovered, mouse_pressed).0.pressed_frame_idx == b.pressed_frame_idx,
{
}

/// Over any run of updates from an unpressed button, after every update the
/// atlas shows what the button's state says (pressed frame while pressed,
/// normal or hover frame otherwise), the button keeps its three frames, and a
/// button without an atlas is never changed.
pub proof fn lemma_button_shows_its_state(b: SpriteButton, atlas_index: Option<usize>, inputs: Seq<(bool, bool)>)
    requires
        !b.is_pressed,
        inputs.len() > 0,
    ensures
        shows_its_state(button_after(b, atlas_index, inputs).0, button_after(b, atlas_index, inputs).1),
        button_after(b, atlas_index, inputs).0.normal_frame_idx == b.normal_frame_idx,
        button_after(b, atlas_index, inputs).0.hover_frame_idx == b.hover_frame_idx,
        button_after(b, atlas_index, inputs).0.pressed_frame_idx == b.pressed_frame_idx,
        atlas_index is None ==> button_after(b, atlas_index, inputs) == (b, atlas_index),
    decreases inputs.len(),
{
    let prev = button_after(b, atlas_index, inputs.drop_last());
    if inputs.len() == 1 {
        assert(inputs.drop_last().len() == 0);
        assert(prev == (b, atlas_index));
    } else {
        lemma_button_shows_its_state(b, atlas_index, inputs.drop_last());
    }
    lemma_button_step_shows_state(prev.0, prev.1, inputs.last().0, inputs.last().1);
}

} // verus!
