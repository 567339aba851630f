//! The entities of the window manager's model.

mod focus_manager;
mod screen;
mod tag;
mod window;
mod workspace;
mod xyhw;

pub use focus_manager::{
    current, find_tag, focus_showing, focused, is_first_labelled, is_managed,
    lemma_focused_bounded, lemma_focused_idempotent, no_repeats, remembered, tag_labelled, Focus,
    FocusManager, FOCUS_HISTORY_LIMIT,
};
pub use screen::Screen;
pub use tag::{decimal_digits, decimal_label, digit_char, Tag, TagId};
pub use window::{Window, WindowHandle};
pub use workspace::{ShownTag, Workspace};
pub use xyhw::{clip_extent, lemma_limited_within, limited_width, limited_x, Rect, Xyhw, XyhwBuilder};
