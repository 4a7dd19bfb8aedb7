//! The interaction controller of a small text editor for the terminal: one
//! file in a buffer, and a sidebar that lists the files opened before.
//!
//! The controller is a state machine. It takes key events, routes them to
//! the buffer or the sidebar, keeps the history of recent files free of
//! duplicates, tracks unsaved changes and cycles the theme. It opens no
//! dialog and touches no file itself: it returns what is to be done, and
//! takes the outcome as its next input.
//!
//! - [`state`]: the focus and the theme.
//! - [`keys`]: key events and the key bindings.
//! - [`history`]: the recent files and the sidebar cursor.
//! - [`text`]: text as lines.
//! - [`surface`]: the buffer, a text area of `tui-textarea`.
//! - [`effects`]: requests to the driver and their outcomes.
//! - [`model`]: the state machine over plain values, and its laws.
//! - [`app`]: the controller itself.
//! - [`display`]: what the two panes show.

pub mod app;
pub mod display;
pub mod effects;
pub mod history;
pub mod keys;
pub mod model;
pub mod state;
pub mod surface;
pub mod text;
