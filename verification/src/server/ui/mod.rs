//! The server's terminal interface: the lines of its control panel and
//! the kinds of update its view receives.
pub mod control_panel;
pub mod server_view_controller;
