//! Whether a node takes part in its parent's flow.

use vstd::prelude::*;

verus! {

#[derive(Debug, Clone, Copy, PartialEq, Eq, Structural)]
pub enum Position {
    /// Placed at its own `x` and `y`, outside the flow.
    Absolute,
    /// Placed by the parent's flow.
    Relative,
}

impl Position {
    /// Returns `true` if the position is [`Absolute`].
    ///
    /// [`Absolute`]: Position::Absolute
    #[must_use]
    pub fn is_absolute(&self) -> (r: bool)
        ensures
            r == (*self == Position::Absolute),
    {
        matches!(self, Position::Absolute)
    }

    /// Returns `true` if the position is [`Relative`].
    ///
    /// [`Relative`]: Position::Relative
    #[must_use]
    pub fn is_relative(&self) -> (r: bool)
        ensures
            r == (*self == Position::Relative),
    {
        matches!(self, Position::Relative)
    }
}

impl Default for Position {
    fn default() -> (r: Self)
        ensures
            r == Position::Relative,
    {
        Position::Relative
    }
}

} // verus!
