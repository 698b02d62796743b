//! The bridge itself: each command carried out on a window.
//!
//! An invocation makes its calls one after the other, tries nothing twice and
//! undoes nothing. Whatever the window manager answers to the last call is
//! the invocation's result, an error as much as a success.

use vstd::prelude::*;
use crate::call::{Mutation, WindowCall};
use crate::command::{after_query, toggle_continuation, toggle_target, Command};
use crate::window::WindowControl;

verus! {

/// `result` is a result that an invocation of `command` on `window` can have.
///
/// For a command that opens with a mutation, it is an answer of the window to
/// that mutation. For the toggle, the window has given some answer to the
/// state query: where that was an error, the result is the same error, and
/// where it was a state, the result is an answer of the window to the mutation
/// that the state calls for.
pub open spec fn relays<E, Q: FnOnce() -> Result<bool, E>, M: FnOnce(Mutation) -> Result<(), E>>(
    window: WindowControl<Q, M>,
    command: Command,
    result: Result<(), E>,
) -> bool {
    match command.opening() {
        WindowCall::Apply(mutation) => window.replies(mutation, result),
        WindowCall::IsMaximized => exists|reported: Result<bool, E>|
            #[trigger] window.reports(reported) && match toggle_continuation(reported) {
                Ok(mutation) => window.replies(mutation, result),
                Err(error) => result == Err::<(), E>(error),
            },
    }
}

/// Carries out `command` on `window` and returns what the window manager
/// answered.
pub fn invoke<E, Q: FnOnce() -> Result<bool, E>, M: FnOnce(Mutation) -> Result<(), E>>(
    window: WindowControl<Q, M>,
    command: Command,
) -> (result: Result<(), E>)
    requires
        forall|call: WindowCall| command.may_issue(call) ==> #[trigger] window.accepts(call),
    ensures
        relays(window, command, result),
{
    match command.first_call() {
        WindowCall::Apply(mutation) => {
            assert(window.accepts(WindowCall::Apply(mutation)));
            (window.apply)(mutation)
        },
        WindowCall::IsMaximized => {
            assert(window.accepts(WindowCall::IsMaximized));
            let reported = (window.is_maximized)();
            assert(window.reports(reported));
            match after_query(reported) {
                Ok(mutation) => {
                    assert(window.accepts(WindowCall::Apply(mutation)));
                    (window.apply)(mutation)
                },
                Err(error) => Err(error),
            }
        },
    }
}

/// Begins an interactive move of the window that follows the pointer.
///
/// Returns the window manager's answer to that one request.
pub fn start_dragging<E, Q: FnOnce() -> Result<bool, E>, M: FnOnce(Mutation) -> Result<(), E>>(
    window: WindowControl<Q, M>,
) -> (result: Result<(), E>)
    requires
        window.accepts(WindowCall::Apply(Mutation::StartDragging)),
    ensures
        window.replies(Mutation::StartDragging, result),
{
    invoke(window, Command::StartDragging)
}

/// Asks for the window to be minimized.
///
/// Returns the window manager's answer to that one request.
pub fn window_minimize<E, Q: FnOnce() -> Result<bool, E>, M: FnOnce(Mutation) -> Result<(), E>>(
    window: WindowControl<Q, M>,
) -> (result: Result<(), E>)
    requires
        window.accepts(WindowCall::Apply(Mutation::Minimize)),
    ensures
        window.replies(Mutation::Minimize, result),
{
    invoke(window, Command::WindowMinimize)
}

/// Maximizes the window, or restores it if it is maximized.
///
/// The window's state is asked of the window manager anew on every
/// invocation. Where that query fails, its error is returned and no mutation
/// is asked for. Otherwise a maximized window is restored, any other is
/// maximized, and the window manager's answer to that request is returned.
pub fn window_toggle_maximize<E, Q: FnOnce() -> Result<bool, E>, M: FnOnce(Mutation) -> Result<(), E>>(
    window: WindowControl<Q, M>,
) -> (result: Result<(), E>)
    requires
        window.accepts(WindowCall::IsMaximized),
        window.accepts(WindowCall::Apply(Mutation::Maximize)),
        window.accepts(WindowCall::Apply(Mutation::Unmaximize)),
    ensures
        exists|reported: Result<bool, E>|
            #[trigger] window.reports(reported) && match reported {
                Ok(maximized) => window.replies(toggle_target(maximized), result),
                Err(error) => result == Err::<(), E>(error),
            },
{
    invoke(window, Command::WindowToggleMaximize)
}

/// Asks for the window to be closed, which starts its close lifecycle.
///
/// Returns the window manager's answer to that one request.
pub fn window_close<E, Q: FnOnce() -> Result<bool, E>, M: FnOnce(Mutation) -> Result<(), E>>(
    window: WindowControl<Q, M>,
) -> (result: Result<(), E>)
    requires
        window.accepts(WindowCall::Apply(Mutation::Close)),
    ensures
        window.replies(Mutation::Close, result),
{
    invoke(window, Command::WindowClose)
}

} // verus!
