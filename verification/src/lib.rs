//! Window, tray, title-bar and notification decisions of a desktop shell
//! around a chat web application.

mod text;

pub use text::str_equal;
pub mod window;
pub mod tray;
pub mod drag;
pub mod titlebar;
pub mod notifications;
