//! The vocabulary in which key bindings, other programs and the display server
//! ask the window manager for a change.

use crate::layouts::Layouts;
use crate::models::{TagId, WindowHandle};
use vstd::prelude::*;

verus! {

/// One request for a change.
#[derive(Clone, PartialEq, Debug)]
pub enum Command {
    /// Run a shell command.
    Execute(String),
    CloseWindow,
    SwapScreens,
    SoftReload,
    HardReload,
    /// Show or hide the scratchpad of this name.
    ToggleScratchPad(String),
    ToggleFullScreen,
    ToggleSticky,
    /// Show the tag with this id on the focused workspace.
    GotoTag(TagId),
    FloatingToTile,
    TileToFloating,
    ToggleFloating,
    MoveWindowUp,
    MoveWindowDown,
    MoveWindowTop,
    FocusNextTag,
    FocusPreviousTag,
    FocusWindowUp,
    FocusWindowDown,
    FocusWorkspaceNext,
    FocusWorkspacePrevious,
    /// Move a window to the tag with this id: the window named, or the focused
    /// window where none is named.
    SendWindowToTag { window: Option<WindowHandle>, tag: TagId },
    MoveWindowToLastWorkspace,
    MoveWindowToNextWorkspace,
    MoveWindowToPreviousWorkspace,
    MouseMoveWindow,
    NextLayout,
    PreviousLayout,
    SetLayout(Layouts),
    RotateTag,
    IncreaseMainWidth(i8),
    DecreaseMainWidth(i8),
    /// Scale the margins by a factor. The factor is a single-precision number,
    /// held here by its bits.
    SetMarginMultiplier(u32),
    /// Show on the workspace at the first index the tag at the second.
    SendWorkspaceToTag(usize, usize),
    /// A request that this vocabulary has no word for.
    Other(String),
}

} // verus!
