//! From the client messages of the X server to the events and commands of the
//! window manager.

use super::{ClientMessage, XContext};
use crate::command::Command;
use crate::config::FocusBehaviour;
use crate::display_event::DisplayEvent;
use crate::models::{TagId, WindowHandle};
use vstd::prelude::*;
use x11_dl::xlib::ClientMessageData;

verus! {

/// Makes `x11_dl::xlib::ClientMessageData` known to the verifier, as a type
/// whose inside it cannot see.
#[verifier::external_type_specification]
#[verifier::external_body]
pub struct ExClientMessageData(ClientMessageData);

/// The long integers that a `ClientMessageData` holds, in their order.
/// Nothing is proved of them: the data is read through `payload_long` only.
pub uninterp spec fn message_longs(data: ClientMessageData) -> Seq<i64>;

/// Calls `x11_dl::xlib::ClientMessageData::get_long`, which returns the long
/// integer at `index` of the five that the data holds, and panics from index
/// 5 on. Believed, not proved: that what it returns is the number at that
/// place of `message_longs`.
#[verifier::external_body]
fn payload_long(data: &ClientMessageData, index: usize) -> (value: i64)
    requires
        index < 5,
    ensures
        value == message_longs(*data)[index as int],
{
    i64::from(data.get_long(index))
}

/// What a state message asks of a window's fullscreen marker.
#[derive(Clone, Copy, Debug, PartialEq, Eq, Structural)]
pub enum FullscreenRequest {
    /// Put the marker on the window.
    Add,
    /// Take the marker off the window.
    Remove,
    /// Put the marker on where the window lacks it, take it off where it has
    /// it.
    Toggle,
}

/// What the driver of the X session is to do with a client message.
#[derive(Clone, Debug, PartialEq)]
pub enum Translation {
    /// Nothing: the message is dropped.
    Ignored,
    /// Hand this event to the window manager.
    Event(DisplayEvent),
    /// Move the pointer onto this window. No event follows: the focus comes
    /// with the pointer.
    WarpPointer(u64),
    /// Read this window's state markers and hand them to
    /// `window_states_changed` with this request.
    ReadStates { window: u64, request: Option<FullscreenRequest> },
}

/// The tag that a desktop index names. Desktops are counted from 0 and tags
/// from 1; a negative index names no tag, nor one whose tag id is too large
/// for the machine.
pub open spec fn tag_of_index(index: i64) -> Option<TagId> {
    if 0 <= index && index + 1 <= usize::MAX {
        Some((index + 1) as usize)
    } else {
        None
    }
}

/// The long integer that has the bits of an atom.
pub open spec fn atom_as_long(atom: u64) -> int {
    if atom <= i64::MAX {
        atom as int
    } else {
        atom - 0x1_0000_0000_0000_0000
    }
}

/// What a state message asks of the fullscreen marker, from its first three
/// long integers: nothing unless the second or the third names the marker;
/// else to toggle it where the first is 2, to add it where the first is 1,
/// and to remove it for any other.
pub open spec fn fullscreen_request(fullscreen: u64, l0: i64, l1: i64, l2: i64) -> Option<
    FullscreenRequest,
> {
    if l1 == atom_as_long(fullscreen) || l2 == atom_as_long(fullscreen) {
        if l0 == 2 {
            Some(FullscreenRequest::Toggle)
        } else if l0 == 1 {
            Some(FullscreenRequest::Add)
        } else {
            Some(FullscreenRequest::Remove)
        }
    } else {
        None
    }
}

/// What becomes of a client message about `window` of kind `message_type`
/// whose data starts with the long integers `l0`, `l1` and `l2`.
pub open spec fn translation(
    ctx: XContext,
    window: u64,
    message_type: u64,
    l0: i64,
    l1: i64,
    l2: i64,
) -> Translation {
    if !ctx.managed_windows@.contains(window) && window != ctx.root {
        Translation::Ignored
    } else if message_type == ctx.atoms.net_current_desktop {
        match tag_of_index(l0) {
            Some(tag) => Translation::Event(DisplayEvent::SendCommand(Command::GotoTag(tag))),
            None => Translation::Ignored,
        }
    } else if message_type == ctx.atoms.net_wm_desktop {
        match tag_of_index(l0) {
            Some(tag) => Translation::Event(
                DisplayEvent::SendCommand(
                    Command::SendWindowToTag {
                        window: Some(WindowHandle::XlibHandle(window)),
                        tag,
                    },
                ),
            ),
            None => Translation::Ignored,
        }
    } else if message_type == ctx.atoms.net_active_window {
        if ctx.focus_behaviour == FocusBehaviour::Sloppy {
            Translation::WarpPointer(window)
        } else {
            Translation::Event(DisplayEvent::WindowTakeFocus(WindowHandle::XlibHandle(window)))
        }
    } else if message_type == ctx.atoms.net_wm_state {
        Translation::ReadStates {
            window,
            request: fullscreen_request(ctx.atoms.net_wm_state_fullscreen, l0, l1, l2),
        }
    } else {
        Translation::Ignored
    }
}

fn index_tag(index: i64) -> (tag: Option<TagId>)
    ensures
        tag == tag_of_index(index),
{
    match usize::try_from(index) {
        Ok(index) => index.checked_add(1),
        Err(_) => None,
    }
}

fn long_is_atom(value: i64, atom: u64) -> (same: bool)
    ensures
        same == (value == atom_as_long(atom)),
{
    if atom <= 0x7fff_ffff_ffff_ffff {
        value >= 0 && value as u64 == atom
    } else {
        let low: i64 = (atom - 0x8000_0000_0000_0000) as i64;
        value < 0 && value == low + i64::MIN
    }
}

fn request_of(fullscreen: u64, l0: i64, l1: i64, l2: i64) -> (request: Option<FullscreenRequest>)
    ensures
        request == fullscreen_request(fullscreen, l0, l1, l2),
{
    if long_is_atom(l1, fullscreen) || long_is_atom(l2, fullscreen) {
        if l0 == 2 {
            Some(FullscreenRequest::Toggle)
        } else if l0 == 1 {
            Some(FullscreenRequest::Add)
        } else {
            Some(FullscreenRequest::Remove)
        }
    } else {
        None
    }
}

/// Translates a client message about `window` of kind `message_type` whose
/// data starts with the long integers `l0`, `l1` and `l2`.
pub fn translate(ctx: &XContext, window: u64, message_type: u64, l0: i64, l1: i64, l2: i64) -> (action:
    Translation)
    ensures
        action == translation(*ctx, window, message_type, l0, l1, l2),
{
    if !ctx.is_managed(window) && window != ctx.get_default_root() {
        return Translation::Ignored;
    }
    if message_type == ctx.atoms.net_current_desktop {
        return match index_tag(l0) {
            Some(tag) => Translation::Event(DisplayEvent::SendCommand(Command::GotoTag(tag))),
            None => Translation::Ignored,
        };
    }
    if message_type == ctx.atoms.net_wm_desktop {
        return match index_tag(l0) {
            Some(tag) => Translation::Event(
                DisplayEvent::SendCommand(
                    Command::SendWindowToTag {
                        window: Some(WindowHandle::XlibHandle(window)),
                        tag,
                    },
                ),
            ),
            None => Translation::Ignored,
        };
    }
    if message_type == ctx.atoms.net_active_window {
        if ctx.focus_behaviour == FocusBehaviour::Sloppy {
            return Translation::WarpPointer(window);
        }
        return Translation::Event(
            DisplayEvent::WindowTakeFocus(WindowHandle::XlibHandle(window)),
        );
    }
    if message_type == ctx.atoms.net_wm_state {
        return Translation::ReadStates {
            window,
            request: request_of(ctx.atoms.net_wm_state_fullscreen, l0, l1, l2),
        };
    }
    Translation::Ignored
}

/// Translates a client message: reads the window, the kind and the first
/// three long integers of the data, and decides by them.
pub fn from_event(ctx: &XContext, event: &ClientMessage) -> (action: Translation)
    ensures
        action == translation(
            *ctx,
            event.window,
            event.message_type,
            message_longs(event.data)[0],
            message_longs(event.data)[1],
            message_longs(event.data)[2],
        ),
{
    let l0: i64 = payload_long(&event.data, 0);
    let l1: i64 = payload_long(&event.data, 1);
    let l2: i64 = payload_long(&event.data, 2);
    translate(ctx, event.window, event.message_type, l0, l1, l2)
}

} // verus!
