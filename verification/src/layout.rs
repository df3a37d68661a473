//! Where the main window sits on screen, as the settings name it.
use vstd::prelude::*;

verus! {

/// The screen corner that the window goes to. The default is the top right.
#[derive(Debug, Clone, Copy, PartialEq, Eq, Structural)]
pub enum Corner {
    TopRight,
    TopLeft,
    BottomRight,
    BottomLeft,
}

/// The window size preset. The default is `Medium`.
#[derive(Debug, Clone, Copy, PartialEq, Eq, Structural)]
pub enum SizePreset {
    Small,
    Medium,
    Large,
}

} // verus!
