//! The requests that the bridge puts to a window manager.

use vstd::prelude::*;

verus! {

/// A request that changes the window.
#[derive(Clone, Copy, PartialEq, Eq, Structural, Debug)]
pub enum Mutation {
    /// Begin an interactive move of the window that follows the pointer.
    StartDragging,
    /// Minimize (iconify) the window.
    Minimize,
    /// Maximize the window.
    Maximize,
    /// Restore a maximized window to the size it had before.
    Unmaximize,
    /// Ask the window to close, which starts its close lifecycle.
    Close,
}

/// Any request that the bridge puts to the window manager: the one read it
/// knows, or a mutation.
#[derive(Clone, Copy, PartialEq, Eq, Structural, Debug)]
pub enum WindowCall {
    /// Ask whether the window is maximized at this moment.
    IsMaximized,
    /// Carry out a mutation.
    Apply(Mutation),
}

} // verus!
