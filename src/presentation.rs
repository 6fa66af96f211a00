//! Small decisions of the window and the noise plot, on the library's own
//! view of the host's window and visibility states.

use vstd::prelude::*;

verus! {

/// The frame on which the hidden window is shown: by then the GPU has drawn
/// into it, so no blank frame appears.
pub const REVEAL_FRAME: u32 = 3;

/// The window modes that the fullscreen toggle tells apart.
#[derive(Clone, Copy, Debug, PartialEq, Eq)]
pub enum WindowModeKind {
    Windowed,
    BorderlessFullscreen,
    /// Any other fullscreen mode.
    OtherFullscreen,
}

/// The visibility of one of the two plot shapes.
#[derive(Clone, Copy, Debug, PartialEq, Eq)]
pub enum ShapeVisibility {
    Hidden,
    Visible,
    Inherited,
}

/// Whether the window is to be made visible on frame `frame`.
pub fn should_reveal(frame: u32) -> (r: bool)
    ensures
        r == (frame == REVEAL_FRAME),
{
    frame == REVEAL_FRAME
}

/// The mode that the fullscreen key switches to: borderless fullscreen and
/// windowed swap; any other mode becomes windowed.
pub fn toggled_mode(mode: WindowModeKind) -> (r: WindowModeKind)
    ensures
        mode is BorderlessFullscreen ==> r is Windowed,
        mode is Windowed ==> r is BorderlessFullscreen,
        mode is OtherFullscreen ==> r is Windowed,
{
    match mode {
        WindowModeKind::BorderlessFullscreen => WindowModeKind::Windowed,
        WindowModeKind::Windowed => WindowModeKind::BorderlessFullscreen,
        WindowModeKind::OtherFullscreen => WindowModeKind::Windowed,
    }
}

/// One frame of the plot's double buffering: the hidden shape is shown as it
/// is, and the shown one is hidden and redrawn for the next frame. Returns the
/// shape's new visibility and whether to redraw it.
pub fn swap_buffer(v: ShapeVisibility) -> (r: (ShapeVisibility, bool))
    ensures
        v is Hidden ==> r == (ShapeVisibility::Visible, false),
        !(v is Hidden) ==> r == (ShapeVisibility::Hidden, true),
{
    match v {
        ShapeVisibility::Hidden => (ShapeVisibility::Visible, false),
        ShapeVisibility::Visible => (ShapeVisibility::Hidden, true),
        ShapeVisibility::Inherited => (ShapeVisibility::Hidden, true),
    }
}

} // verus!
