//! The boundary to the display servers.

pub mod xlib_display_server;
