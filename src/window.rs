use vstd::prelude::*;

verus! {

/// What the main window should look like, in logical pixels.
#[derive(Clone, Copy, PartialEq, Eq, Structural, Debug)]
pub struct WindowLayout {
    /// Whether the window stays above all others.
    pub always_on_top: bool,
    pub width: u32,
    pub height: u32,
    /// Whether the window is centred and focused after resizing.
    pub recenter_and_focus: bool,
}

pub const MINI_WIDTH: u32 = 200;
pub const MINI_HEIGHT: u32 = 120;
pub const MAIN_WIDTH: u32 = 800;
pub const MAIN_HEIGHT: u32 = 600;

/// Mini mode is small and pinned on top; leaving it restores the default
/// size, unpins, and brings the window back to the centre with focus.
pub fn mini_mode_layout(is_mini: bool) -> (r: WindowLayout)
    ensures
        r.always_on_top == is_mini,
        r.recenter_and_focus == !is_mini,
        is_mini ==> r.width == MINI_WIDTH && r.height == MINI_HEIGHT,
        !is_mini ==> r.width == MAIN_WIDTH && r.height == MAIN_HEIGHT,
{
    if is_mini {
        WindowLayout {
            always_on_top: true,
            width: MINI_WIDTH,
            height: MINI_HEIGHT,
            recenter_and_focus: false,
        }
    } else {
        WindowLayout {
            always_on_top: false,
            width: MAIN_WIDTH,
            height: MAIN_HEIGHT,
            recenter_and_focus: true,
        }
    }
}

} // verus!
