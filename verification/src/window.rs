//! The window as the bridge sees it: something that answers calls.

use vstd::prelude::*;
use crate::call::{Mutation, WindowCall};

verus! {

/// The capability to control one window, for the length of one invocation.
///
/// The bridge never looks inside a window. It holds two functions that reach
/// it: one that reads whether the window is maximized, and one that carries
/// out a mutation. Either may fail, with an error of the window manager's own
/// type, which the bridge hands on as it is.
///
/// An invocation uses its control up. Each of the two functions can be called
/// once, so an invocation can neither read the window's state twice nor ask
/// for a second mutation, and nothing of a window is kept from one invocation
/// to the next.
pub struct WindowControl<Q, M> {
    /// Reads whether the window is maximized at this moment.
    pub is_maximized: Q,
    /// Carries out one mutation.
    pub apply: M,
}

impl<E, Q: FnOnce() -> Result<bool, E>, M: FnOnce(Mutation) -> Result<(), E>> WindowControl<Q, M> {
    /// The window may be asked this.
    pub open spec fn accepts(&self, call: WindowCall) -> bool {
        match call {
            WindowCall::IsMaximized => self.is_maximized.requires(()),
            WindowCall::Apply(mutation) => self.apply.requires((mutation,)),
        }
    }

    /// `reported` is an answer that the window can give to the state query.
    pub open spec fn reports(&self, reported: Result<bool, E>) -> bool {
        self.is_maximized.ensures((), reported)
    }

    /// `reply` is an answer that the window can give to `mutation`.
    pub open spec fn replies(&self, mutation: Mutation, reply: Result<(), E>) -> bool {
        self.apply.ensures((mutation,), reply)
    }
}

} // verus!
