use window_bridge::{after_query, toggle_mutation, Command, Mutation, WindowCall};

#[test]
fn toggle_mutation_restores_a_maximized_window() {
    assert_eq!(toggle_mutation(true), Mutation::Unmaximize);
}

#[test]
fn toggle_mutation_maximizes_any_other_window() {
    assert_eq!(toggle_mutation(false), Mutation::Maximize);
}

#[test]
fn toggle_mutation_of_the_state_it_leaves_is_the_other_one() {
    // Maximizing leaves a maximized window, restoring leaves one that is not.
    assert_eq!(toggle_mutation(false), Mutation::Maximize);
    assert_eq!(toggle_mutation(true), Mutation::Unmaximize);
    assert_ne!(toggle_mutation(false), toggle_mutation(true));
}

#[test]
fn after_query_picks_the_mutation_from_the_state() {
    assert_eq!(after_query(Ok::<bool, String>(true)), Ok(Mutation::Unmaximize));
    assert_eq!(after_query(Ok::<bool, String>(false)), Ok(Mutation::Maximize));
}

#[test]
fn after_query_hands_the_error_on() {
    assert_eq!(
        after_query(Err::<bool, String>(String::from("no such window"))),
        Err(String::from("no such window"))
    );
    assert_eq!(after_query(Err::<bool, i64>(-5)), Err(-5));
}

#[test]
fn first_call_of_each_command() {
    assert_eq!(Command::StartDragging.first_call(), WindowCall::Apply(Mutation::StartDragging));
    assert_eq!(Command::WindowMinimize.first_call(), WindowCall::Apply(Mutation::Minimize));
    assert_eq!(Command::WindowToggleMaximize.first_call(), WindowCall::IsMaximized);
    assert_eq!(Command::WindowClose.first_call(), WindowCall::Apply(Mutation::Close));
}

#[test]
fn only_the_toggle_opens_with_a_read() {
    let commands = [
        Command::StartDragging,
        Command::WindowMinimize,
        Command::WindowToggleMaximize,
        Command::WindowClose,
    ];
    for command in commands {
        assert_eq!(
            command.first_call() == WindowCall::IsMaximized,
            command == Command::WindowToggleMaximize
        );
    }
}

#[test]
fn calls_and_commands_can_be_copied_and_compared() {
    let call = WindowCall::Apply(Mutation::Close);
    let copy = call;
    assert_eq!(call, copy);
    assert_ne!(call, WindowCall::Apply(Mutation::Minimize));
    assert_ne!(call, WindowCall::IsMaximized);
    let command = Command::WindowClose;
    let same = command.clone();
    assert_eq!(command, same);
    assert_eq!(format!("{:?}", command), "WindowClose");
    assert_eq!(format!("{:?}", call), "Apply(Close)");
}
