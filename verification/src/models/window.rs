//! Managed client windows.

use super::tag::TagId;
use vstd::prelude::*;

verus! {

/// The display server's name for a window. The model stores and compares
/// handles and never looks inside one.
#[derive(Clone, Copy, Debug, PartialEq, Eq, Structural, Hash)]
pub enum WindowHandle {
    MockHandle(i32),
    XlibHandle(u64),
}

/// A managed window: the model's own record of where it is and whether it is
/// shown.
#[derive(Debug)]
pub struct Window {
    pub handle: WindowHandle,
    pub visible: bool,
    pub x: i32,
    pub y: i32,
    pub width: i32,
    pub height: i32,
    pub tags: Vec<TagId>,
    pub states: Vec<u64>,
}

impl Window {
    /// A window that is not shown yet, with no extent, no tag and no state
    /// marker.
    pub fn new(handle: WindowHandle) -> (window: Window)
        ensures
            window.handle == handle,
            !window.visible,
            window.x == 0,
            window.y == 0,
            window.width == 0,
            window.height == 0,
            window.tags@ == Seq::<TagId>::empty(),
            window.states@ == Seq::<u64>::empty(),
    {
        Window {
            handle,
            visible: false,
            x: 0,
            y: 0,
            width: 0,
            height: 0,
            tags: Vec::new(),
            states: Vec::new(),
        }
    }

    pub fn set_x(&mut self, x: i32)
        ensures
            *final(self) == (Window { x, ..*old(self) }),
    {
        self.x = x;
    }

    pub fn set_y(&mut self, y: i32)
        ensures
            *final(self) == (Window { y, ..*old(self) }),
    {
        self.y = y;
    }

    pub fn set_width(&mut self, width: i32)
        ensures
            *final(self) == (Window { width, ..*old(self) }),
    {
        self.width = width;
    }

    pub fn set_height(&mut self, height: i32)
        ensures
            *final(self) == (Window { height, ..*old(self) }),
    {
        self.height = height;
    }

    pub fn set_visible(&mut self, visible: bool)
        ensures
            *final(self) == (Window { visible, ..*old(self) }),
    {
        self.visible = visible;
    }

    pub fn visible(&self) -> (visible: bool)
        ensures
            visible == self.visible,
    {
        self.visible
    }
}

} // verus!
