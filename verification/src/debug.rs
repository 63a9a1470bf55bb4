use vstd::prelude::*;

verus! {

/// Whether the collision boxes are drawn over the game.
#[derive(Clone, Copy, Debug, PartialEq, Eq, Structural)]
pub struct DebugEnabled(pub bool);

impl DebugEnabled {
    /// Starts with the boxes hidden.
    pub fn new() -> (d: DebugEnabled)
        ensures
            !d.0,
    {
        DebugEnabled(false)
    }

    /// Flips the flag when the debug key was pressed this frame.
    pub fn toggle_debug(&mut self, key_pressed: bool)
        ensures
            final(self).0 == (if key_pressed {
                !old(self).0
            } else {
                old(self).0
            }),
    {
        if key_pressed {
            self.0 = !self.0;
        }
    }

    /// Whether the boxes are to be drawn this frame.
    pub fn draws_boxes(&self) -> (b: bool)
        ensures
            b == self.0,
    {
        self.0
    }
}

} // verus!
