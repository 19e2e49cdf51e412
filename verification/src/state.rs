//! The persisted record: the width and height of the main window.

use vstd::prelude::*;

verus! {

/// The smallest width, and the smallest height, that is persisted or restored.
pub const MIN_DIMENSION: u32 = 100;

/// The size of the main window, in physical pixels.
#[derive(Debug, Clone, Copy, PartialEq, Eq, Structural)]
pub struct WindowState {
    pub width: u32,
    pub height: u32,
}

impl WindowState {
    /// Both dimensions reach [`MIN_DIMENSION`]. Smaller sizes come from
    /// minimised or degenerate windows and are neither saved nor restored.
    pub open spec fn is_valid(&self) -> bool {
        self.width >= MIN_DIMENSION && self.height >= MIN_DIMENSION
    }

    /// Tells whether this size may be persisted or restored.
    pub fn has_valid_dimensions(&self) -> (ok: bool)
        ensures
            ok == self.is_valid(),
    {
        self.width >= MIN_DIMENSION && self.height >= MIN_DIMENSION
    }
}

} // verus!
