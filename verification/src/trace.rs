//! What an invocation asks of the window manager, call by call.
//!
//! The calls of an invocation depend on the command and, for the toggle, on
//! the answer to the state query. They do not depend on how the mutation
//! fares: its answer ends the invocation either way.

use vstd::prelude::*;
use crate::bridge::relays;
use crate::call::{Mutation, WindowCall};
use crate::command::{toggle_continuation, toggle_target, Command};
use crate::window::WindowControl;

verus! {

/// The calls that an invocation of `command` makes, in their order, where the
/// window manager answers the state query with `reported`.
///
/// Only the toggle makes that query; for the other commands `reported` has no
/// part in it.
pub open spec fn calls_of<E>(command: Command, reported: Result<bool, E>) -> Seq<WindowCall> {
    match command.opening() {
        WindowCall::Apply(mutation) => seq![WindowCall::Apply(mutation)],
        WindowCall::IsMaximized => match toggle_continuation(reported) {
            Ok(mutation) => seq![WindowCall::IsMaximized, WindowCall::Apply(mutation)],
            Err(_) => seq![WindowCall::IsMaximized],
        },
    }
}

/// A window that keeps its state as its mutations say reports `maximized`
/// once `mutation` has succeeded. Only maximizing and restoring say anything
/// of that state.
pub open spec fn settles(mutation: Mutation, maximized: bool) -> bool {
    match mutation {
        Mutation::Maximize => maximized,
        Mutation::Unmaximize => !maximized,
        _ => true,
    }
}

/// `result` is the window manager's answer to the last call of an invocation
/// of `command` in which it answered the state query, if that was made, with
/// `reported`. The error of a failed state query is the answer to it.
pub open spec fn answers_last_call<E, Q: FnOnce() -> Result<bool, E>, M: FnOnce(Mutation) -> Result<(), E>>(
    window: WindowControl<Q, M>,
    command: Command,
    reported: Result<bool, E>,
    result: Result<(), E>,
) -> bool {
    &&& command.opening() == WindowCall::IsMaximized ==> window.reports(reported)
    &&& match calls_of(command, reported).last() {
        WindowCall::Apply(mutation) => window.replies(mutation, result),
        WindowCall::IsMaximized => reported is Err && result == Err::<(), E>(reported->Err_0),
    }
}

/// The result of an invocation is the window manager's answer to the last
/// call that the invocation made, and nothing else is: a success where that
/// call succeeded, and where it failed the very error that it failed with.
pub proof fn lemma_result_is_last_answer<
    E,
    Q: FnOnce() -> Result<bool, E>,
    M: FnOnce(Mutation) -> Result<(), E>,
>(window: WindowControl<Q, M>, command: Command, result: Result<(), E>)
    ensures
        relays(window, command, result) <==> exists|reported: Result<bool, E>| #[trigger]
            answers_last_call(window, command, reported, result),
{
    if relays(window, command, result) {
        match command.opening() {
            WindowCall::Apply(mutation) => {
                assert(answers_last_call(window, command, Ok::<bool, E>(true), result));
            },
            WindowCall::IsMaximized => {
                let reported = choose|reported: Result<bool, E>|
                    #[trigger] window.reports(reported) && match toggle_continuation(reported) {
                        Ok(mutation) => window.replies(mutation, result),
                        Err(error) => result == Err::<(), E>(error),
                    };
                assert(answers_last_call(window, command, reported, result));
            },
        }
    }
    if exists|reported: Result<bool, E>| #[trigger]
        answers_last_call(window, command, reported, result) {
        let reported = choose|reported: Result<bool, E>| #[trigger]
            answers_last_call(window, command, reported, result);
        if command.opening() == WindowCall::IsMaximized {
            assert(window.reports(reported));
        }
    }
}

/// Every call of an invocation is one that the command can come to make, and
/// every call that the command can come to make is made under some answer to
/// the state query.
pub proof fn lemma_calls_of_are_issued<E>(command: Command, reported: Result<bool, E>)
    ensures
        forall|i: int|
            0 <= i < calls_of(command, reported).len() ==> command.may_issue(
                #[trigger] calls_of(command, reported)[i],
            ),
        forall|call: WindowCall| #[trigger]
            command.may_issue(call) ==> calls_of(command, Ok::<bool, E>(true)).contains(call)
                || calls_of(command, Ok::<bool, E>(false)).contains(call),
{
    let on_maximized = calls_of(command, Ok::<bool, E>(true));
    let on_restored = calls_of(command, Ok::<bool, E>(false));
    assert forall|call: WindowCall| #[trigger]
        command.may_issue(call) implies on_maximized.contains(call) || on_restored.contains(
        call,
    ) by {
        if call == command.opening() {
            assert(on_maximized[0] == call);
        } else if call == WindowCall::Apply(Mutation::Unmaximize) {
            assert(on_maximized[1] == call);
        } else {
            assert(on_restored[1] == call);
        }
    }
}

/// An invocation reads the window's state once at most, and first of all; it
/// asks for one mutation at most, and for none only where the read failed.
pub proof fn lemma_one_read_one_mutation<E>(command: Command, reported: Result<bool, E>)
    ensures
        1 <= calls_of(command, reported).len() <= 2,
        calls_of(command, reported)[0] == command.opening(),
        forall|i: int|
            0 <= i < calls_of(command, reported).len() && #[trigger] calls_of(command, reported)[i]
                == WindowCall::IsMaximized ==> i == 0 && command == Command::WindowToggleMaximize,
        forall|i: int, j: int|
            0 <= i < calls_of(command, reported).len() && 0 <= j < calls_of(
                command,
                reported,
            ).len() && #[trigger] calls_of(command, reported)[i] is Apply && #[trigger] calls_of(
                command,
                reported,
            )[j] is Apply ==> i == j,
        calls_of(command, reported).last() is Apply <==> !(command == Command::WindowToggleMaximize
            && reported is Err),
{
}

/// A toggle asks for the window's state and then for the mutation that the
/// state calls for: a maximized window is restored, any other is maximized.
/// Where the state query fails, it asks for nothing more.
pub proof fn lemma_toggle_follows_state<E>(reported: Result<bool, E>)
    ensures
        reported == Ok::<bool, E>(true) ==> calls_of(Command::WindowToggleMaximize, reported)
            == seq![WindowCall::IsMaximized, WindowCall::Apply(Mutation::Unmaximize)],
        reported == Ok::<bool, E>(false) ==> calls_of(Command::WindowToggleMaximize, reported)
            == seq![WindowCall::IsMaximized, WindowCall::Apply(Mutation::Maximize)],
        reported is Err ==> calls_of(Command::WindowToggleMaximize, reported)
            == seq![WindowCall::IsMaximized],
{
}

/// Two toggles in a row alternate. Let the first find the window in the state
/// `before`, let its mutation succeed, and let the window keep its state as
/// that mutation says, so that the second finds it in the state `after`. Then
/// `after` is the opposite of `before`; of the two mutations asked for, one
/// maximizes and the other restores; and after the second the window is in
/// the state `before` again.
pub proof fn lemma_toggles_alternate<E>(before: bool, after: bool)
    requires
        settles(toggle_target(before), after),
    ensures
        after == !before,
        calls_of(Command::WindowToggleMaximize, Ok::<bool, E>(before)).last() == WindowCall::Apply(
            toggle_target(before),
        ),
        calls_of(Command::WindowToggleMaximize, Ok::<bool, E>(after)).last() == WindowCall::Apply(
            toggle_target(after),
        ),
        toggle_target(after) != toggle_target(before),
        toggle_target(before) == Mutation::Maximize ==> toggle_target(after)
            == Mutation::Unmaximize,
        toggle_target(before) == Mutation::Unmaximize ==> toggle_target(after)
            == Mutation::Maximize,
        forall|settled: bool| settles(toggle_target(after), settled) ==> settled == before,
{
}

/// Closing makes one call, the request to close, whatever the window manager
/// answers: it neither reads the window's state nor asks for any other
/// mutation.
pub proof fn lemma_close_only_closes<E>(reported: Result<bool, E>)
    ensures
        calls_of(Command::WindowClose, reported) == seq![WindowCall::Apply(Mutation::Close)],
        forall|call: WindowCall|
            Command::WindowClose.may_issue(call) <==> call == WindowCall::Apply(Mutation::Close),
{
}

/// Each command but the toggle makes one call, the mutation it is named
/// after, whatever the window manager answers.
pub proof fn lemma_plain_commands_make_one_call<E>(command: Command, reported: Result<bool, E>)
    requires
        command != Command::WindowToggleMaximize,
    ensures
        calls_of(command, reported) == seq![command.opening()],
        command.opening() is Apply,
        forall|call: WindowCall| command.may_issue(call) <==> call == command.opening(),
{
}

} // verus!
