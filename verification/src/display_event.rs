//! What the display server tells the window manager.

use crate::command::Command;
use crate::models::WindowHandle;
use vstd::prelude::*;

verus! {

/// A change to one window, as far as the display server reported it.
#[derive(Clone, PartialEq, Debug)]
pub struct WindowChange {
    pub handle: WindowHandle,
    /// The window's state markers, where they were read.
    pub states: Option<Vec<u64>>,
}

impl WindowChange {
    /// A change that reports nothing yet.
    pub fn new(handle: WindowHandle) -> (change: WindowChange)
        ensures
            change.handle == handle,
            change.states is None,
    {
        WindowChange { handle, states: None }
    }
}

/// One thing that the display server reported.
#[derive(Clone, PartialEq, Debug)]
pub enum DisplayEvent {
    /// A window's properties changed.
    WindowChange(WindowChange),
    /// A window asks for the focus.
    WindowTakeFocus(WindowHandle),
    /// A client asked for a command.
    SendCommand(Command),
}

} // verus!
