//! Screens: the physical outputs.

use super::xyhw::{Rect, Xyhw};
use vstd::prelude::*;

verus! {

/// A physical output, as the display server reports it.
#[derive(Clone, Copy, Debug, PartialEq, Eq)]
pub struct Screen {
    pub bbox: Xyhw,
    /// The workspace id that the screen asks for, if it asks for one.
    pub wsid: Option<i32>,
    pub max_window_width: Option<u32>,
}

impl Default for Screen {
    /// An empty screen at the origin that asks for nothing.
    fn default() -> (screen: Self)
        ensures
            screen.bbox@ == (Rect { x: 0, y: 0, w: 0, h: 0 }),
            screen.wsid is None,
            screen.max_window_width is None,
    {
        Screen { bbox: Xyhw::default(), wsid: None, max_window_width: None }
    }
}

} // verus!
