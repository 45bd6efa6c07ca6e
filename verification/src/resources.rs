//! Game-wide switches.
use vstd::prelude::*;

verus! {

/// Whether the game is paused.
#[derive(Debug, Default, Copy, Clone, PartialEq, Eq, Structural)]
pub struct Paused(pub bool);

impl Paused {
    pub fn switch(&mut self)
        ensures
            final(self).0 == !old(self).0,
    {
        self.0 = !self.0;
    }
}

/// Whether the help text is shown.
#[derive(Debug, Default, Copy, Clone, PartialEq, Eq, Structural)]
pub struct Help(pub bool);

impl Help {
    pub fn switch(&mut self)
        ensures
            final(self).0 == !old(self).0,
    {
        self.0 = !self.0;
    }
}

/// Whether the shift key is held.
#[derive(Debug, Default, Copy, Clone, PartialEq, Eq, Structural)]
pub struct ShiftPressed(pub bool);

impl ShiftPressed {
    pub fn pressed(&self) -> (pressed: bool)
        ensures
            pressed == self.0,
    {
        self.0
    }
}

/// Whether the debug view is shown.
#[derive(Debug, Default, Copy, Clone, PartialEq, Eq, Structural)]
pub struct Debug(pub bool);

} // verus!
