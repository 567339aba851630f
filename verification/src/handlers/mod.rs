//! The handlers: each applies one kind of event to the model.

pub mod focus_handler;
pub mod screen_create_handler;
