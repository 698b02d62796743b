//! A bridge between a user interface and the window that shows it.
//!
//! The user interface invokes one of four commands: start dragging the
//! window, minimize it, toggle it between maximized and restored, close it.
//! Each invocation turns into one request to the window manager, which the
//! toggle precedes with a query of the window's state, and returns what the
//! window manager answered.

pub mod bridge;
pub mod call;
pub mod command;
pub mod trace;
pub mod window;

pub use bridge::{invoke, start_dragging, window_close, window_minimize, window_toggle_maximize};
pub use call::{Mutation, WindowCall};
pub use command::{after_query, toggle_mutation, Command};
pub use window::WindowControl;
