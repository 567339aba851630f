//! The boundary to an X server.

pub mod event_translate_client_message;
pub mod window_states;
mod xatom;

use crate::config::FocusBehaviour;
use vstd::prelude::*;
use x11_dl::xlib::ClientMessageData;

pub use xatom::XAtoms;

verus! {

/// Whether `id` is among `ids`.
pub fn contains_id(ids: &Vec<u64>, id: u64) -> (found: bool)
    ensures
        found == ids@.contains(id),
{
    let mut i: usize = 0;
    while i < ids.len()
        invariant
            i <= ids@.len(),
            forall|j: int| 0 <= j < i ==> ids@[j] != id,
        decreases ids@.len() - i,
    {
        if ids[i] == id {
            return true;
        }
        i = i + 1;
    }
    false
}

/// What the translation of a message reads of the session with the X server.
#[derive(Clone, Debug, PartialEq)]
pub struct XContext {
    pub atoms: XAtoms,
    /// The root window.
    pub root: u64,
    /// The windows that the window manager manages.
    pub managed_windows: Vec<u64>,
    pub focus_behaviour: FocusBehaviour,
}

impl XContext {
    pub fn get_default_root(&self) -> (root: u64)
        ensures
            root == self.root,
    {
        self.root
    }

    /// Whether the window manager manages this window.
    pub fn is_managed(&self, window: u64) -> (managed: bool)
        ensures
            managed == self.managed_windows@.contains(window),
    {
        contains_id(&self.managed_windows, window)
    }
}

/// A client message, as far as its translation reads it.
#[derive(Clone, Copy, Debug, PartialEq)]
pub struct ClientMessage {
    /// The window that the message is about.
    pub window: u64,
    /// The atom that names the kind of message.
    pub message_type: u64,
    pub data: ClientMessageData,
}

} // verus!
