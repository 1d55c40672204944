//! Constants and the render mode of the text console.
//!
//! The console itself is drawn by the hardware driver; what stands here is
//! what the caller needs to address it.

use vstd::prelude::*;

verus! {

/// Columns between two tab stops.
pub const TAB_WIDTH: u8 = 4;

/// Pixels left free at the left and right edge of the screen.
pub const HORIZONTAL_PADDING: u8 = 4;

/// Pixels left free at the upper and lower edge of the screen.
pub const VERTICAL_PADDING: u8 = 8;

/// Characters in one line of the console.
pub const CONSOLE_WIDTH: u8 = 64;

/// Lines of the console.
pub const CONSOLE_HEIGHT: u8 = 28;

/// When the console is drawn to the screen.
#[derive(Clone, Copy, Debug, PartialEq, Eq, Structural)]
pub enum RenderMode {
    /// Only when the caller asks for it.
    Manual,
    /// After every change of its text.
    Automatic,
}

impl RenderMode {
    /// The number that the driver knows the mode by.
    pub open spec fn spec_code(self) -> i32 {
        match self {
            RenderMode::Manual => 0,
            RenderMode::Automatic => 1,
        }
    }

    /// The number that the driver knows the mode by.
    pub fn code(&self) -> (code: i32)
        ensures
            code == self.spec_code(),
    {
        match self {
            RenderMode::Manual => 0,
            RenderMode::Automatic => 1,
        }
    }
}

} // verus!
