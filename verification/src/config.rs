//! The settings that the model's decisions depend on.

use vstd::prelude::*;

verus! {

/// How the keyboard focus comes to a window.
#[derive(Clone, Copy, Debug, PartialEq, Eq, Structural)]
pub enum FocusBehaviour {
    /// The focus follows the pointer.
    Sloppy,
    /// The focus goes to the window that is clicked.
    ClickTo,
    /// The focus moves by commands only.
    Driven,
}

impl Default for FocusBehaviour {
    fn default() -> (behaviour: Self)
        ensures
            behaviour == FocusBehaviour::Sloppy,
    {
        FocusBehaviour::Sloppy
    }
}

/// The settings of the window manager, as far as the model reads them.
#[derive(Clone, Copy, Debug, PartialEq, Eq)]
pub struct Config {
    /// The greatest width that a window may have, for the screens that set
    /// none of their own.
    pub max_window_width: Option<u32>,
    pub focus_behaviour: FocusBehaviour,
}

impl Config {
    pub fn max_window_width(&self) -> (width: Option<u32>)
        ensures
            width == self.max_window_width,
    {
        self.max_window_width
    }
}

impl Default for Config {
    /// No maximum window width, and the focus follows the pointer.
    fn default() -> (config: Self)
        ensures
            config == (Config { max_window_width: None, focus_behaviour: FocusBehaviour::Sloppy }),
    {
        Config { max_window_width: None, focus_behaviour: FocusBehaviour::Sloppy }
    }
}

} // verus!
