//! The atoms by which the X server names message kinds and window states.

use vstd::prelude::*;

verus! {

/// The atoms that the translation of client messages compares with.
#[derive(Clone, Copy, Debug, PartialEq, Eq)]
pub struct XAtoms {
    /// Names the message that asks for another desktop.
    pub net_current_desktop: u64,
    /// Names the message that asks to move a window to a desktop.
    pub net_wm_desktop: u64,
    /// Names the message that asks to activate a window.
    pub net_active_window: u64,
    /// Names the message that asks to change a window's state.
    pub net_wm_state: u64,
    /// Marks a window as fullscreen.
    pub net_wm_state_fullscreen: u64,
}

} // verus!
