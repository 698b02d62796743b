//! The four commands of the bridge, and what each of them decides.
//!
//! A command holds no state of its own. Three of them ask the window manager
//! for one mutation and are done. The toggle first asks the window manager for
//! the window's state, and picks its mutation from the answer.

use vstd::prelude::*;
use crate::call::{Mutation, WindowCall};

verus! {

/// A command that the user interface can invoke on a window.
#[derive(Clone, Copy, PartialEq, Eq, Structural, Debug)]
pub enum Command {
    /// Begin dragging the window.
    StartDragging,
    /// Minimize the window.
    WindowMinimize,
    /// Maximize the window, or restore it if it is maximized.
    WindowToggleMaximize,
    /// Close the window.
    WindowClose,
}

impl Command {
    /// The call with which an invocation of this command begins.
    pub open spec fn opening(self) -> WindowCall {
        match self {
            Command::StartDragging => WindowCall::Apply(Mutation::StartDragging),
            Command::WindowMinimize => WindowCall::Apply(Mutation::Minimize),
            Command::WindowToggleMaximize => WindowCall::IsMaximized,
            Command::WindowClose => WindowCall::Apply(Mutation::Close),
        }
    }

    /// An invocation of this command can come to make this call: its opening
    /// call, and for the toggle either of the two mutations it chooses from.
    pub open spec fn may_issue(self, call: WindowCall) -> bool {
        ||| call == self.opening()
        ||| self == Command::WindowToggleMaximize && call == WindowCall::Apply(Mutation::Maximize)
        ||| self == Command::WindowToggleMaximize && call == WindowCall::Apply(
            Mutation::Unmaximize,
        )
    }

    /// The call with which an invocation of this command begins.
    pub fn first_call(self) -> (call: WindowCall)
        ensures
            call == self.opening(),
    {
        match self {
            Command::StartDragging => WindowCall::Apply(Mutation::StartDragging),
            Command::WindowMinimize => WindowCall::Apply(Mutation::Minimize),
            Command::WindowToggleMaximize => WindowCall::IsMaximized,
            Command::WindowClose => WindowCall::Apply(Mutation::Close),
        }
    }
}

/// The mutation that a toggle asks for, given the state that the window
/// manager reported: a maximized window is restored, any other is maximized.
pub open spec fn toggle_target(maximized: bool) -> Mutation {
    if maximized {
        Mutation::Unmaximize
    } else {
        Mutation::Maximize
    }
}

/// The mutation that a toggle asks for, given the state that the window
/// manager reported.
pub fn toggle_mutation(maximized: bool) -> (mutation: Mutation)
    ensures
        mutation == toggle_target(maximized),
        maximized ==> mutation == Mutation::Unmaximize,
        !maximized ==> mutation == Mutation::Maximize,
{
    if maximized {
        Mutation::Unmaximize
    } else {
        Mutation::Maximize
    }
}

/// How a toggle goes on once the state query has been answered: with the
/// mutation that the reported state calls for, or, where the query failed,
/// with nothing but the query's error.
pub open spec fn toggle_continuation<E>(reported: Result<bool, E>) -> Result<Mutation, E> {
    match reported {
        Ok(maximized) => Ok(toggle_target(maximized)),
        Err(error) => Err(error),
    }
}

/// Decides how a toggle goes on once the state query has been answered.
///
/// `Ok` holds the mutation to ask for next. `Err` ends the invocation: it
/// holds the error of the query, untouched, and no mutation is asked for.
pub fn after_query<E>(reported: Result<bool, E>) -> (next: Result<Mutation, E>)
    ensures
        next == toggle_continuation(reported),
        next is Ok <==> reported is Ok,
{
    match reported {
        Ok(maximized) => Ok(toggle_mutation(maximized)),
        Err(error) => Err(error),
    }
}

} // verus!
