//! The messages of the control bus, which every component listens to.

use vstd::prelude::*;

verus! {

/// A request to move the view on the scrollback.
#[derive(Clone, Copy, Debug, PartialEq, Eq, Structural)]
pub enum Scroll {
    /// Towards older rows.
    Up,
    /// Towards newer rows.
    Down,
    /// Back to the live tail.
    Cancel,
}

/// A message of the control bus.
#[derive(Clone, Copy, Debug, PartialEq, Eq, Structural)]
pub enum Protocol {
    /// The terminal has a new size, in cells.
    Resize { width: u16, height: u16 },
    /// The user scrolls.
    Scroll(Scroll),
    /// Every loop stops after the work it is doing.
    End,
    /// The terminal entered (`true`) or left (`false`) the alternate screen.
    IsAlternateScreen(bool),
}

} // verus!
