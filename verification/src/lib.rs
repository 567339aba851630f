//! The decision core of a tiling window manager: regions, layouts, the model of
//! screens, workspaces, tags and windows, and the handlers that change it.

pub mod command;
pub mod config;
pub mod display_event;
pub mod display_servers;
pub mod handlers;
pub mod layouts;
pub mod models;
pub mod state;

pub use command::Command;
pub use display_event::{DisplayEvent, WindowChange};
pub use state::{Manager, State};
