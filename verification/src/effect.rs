//! What the library asks its caller to do to the host.

use vstd::prelude::*;

use crate::state::WindowState;

verus! {

/// One request to the host. A handler returns a list of them, and the
/// caller performs the list from front to back.
#[derive(Clone, Copy, Debug, PartialEq, Eq, Structural)]
pub enum Effect {
    /// Resize the window to a size in logical pixels.
    SetSize { width: u32, height: u32 },
    /// Allow or forbid resizing by the user.
    SetResizable(bool),
    /// Keep the window above the others, or stop doing so.
    SetAlwaysOnTop(bool),
    /// Move the window's outer corner to a place in physical pixels.
    SetPosition { x: i32, y: i32 },
    /// Centre the window on its screen.
    Center,
    /// Make the window visible.
    Show,
    /// Hide the window.
    Hide,
    /// Restore the window if it is minimised.
    Unminimize,
    /// Give the window the keyboard focus.
    SetFocus,
    /// Close the window for good.
    Close,
    /// Write the record to the state file.
    Persist(WindowState),
    /// Tell the front-end that the pin state is now the given one.
    EmitPinState(bool),
}

} // verus!
