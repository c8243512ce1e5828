use pacc::bridge::{
    Connect, ConnectAction, ConnectError, ContextState, IterateOutcome, OperationError,
    OperationState, Wait, WaitAction,
};

/// Runs a wait against a scripted world: the token's state at each look, the
/// outcome of each iteration. Returns the result and how many iterations ran.
fn run_wait(tokens: &[OperationState], iterations: &[IterateOutcome]) -> (Result<(), OperationError>, usize) {
    let mut wait = Wait::start();
    let mut looks: usize = 0;
    let mut runs: usize = 0;
    loop {
        wait = match wait.action() {
            WaitAction::ReadToken => {
                looks += 1;
                wait.token(tokens[looks - 1])
            }
            WaitAction::Iterate { block } => {
                assert!(block);
                runs += 1;
                wait.iterated(iterations[runs - 1])
            }
            WaitAction::Return(result) => return (result, runs),
        };
    }
}

fn run_connect(iterations: &[IterateOutcome], states: &[ContextState]) -> (Result<(), ConnectError>, usize) {
    let mut connect = Connect::start();
    let mut looks: usize = 0;
    let mut runs: usize = 0;
    loop {
        connect = match connect.action() {
            ConnectAction::Iterate { block } => {
                assert!(block);
                runs += 1;
                connect.iterated(iterations[runs - 1])
            }
            ConnectAction::ReadState => {
                looks += 1;
                connect.state(states[looks - 1])
            }
            ConnectAction::Return(result) => return (result, runs),
        };
    }
}

#[test]
fn wait_returns_at_once_when_the_request_is_done() {
    assert_eq!(run_wait(&[OperationState::Succeeded], &[]), (Ok(()), 0));
    assert_eq!(run_wait(&[OperationState::Failed], &[]), (Ok(()), 0));
}

#[test]
fn wait_iterates_while_the_request_runs() {
    let tokens = [OperationState::Running, OperationState::Running, OperationState::Succeeded];
    let iterations = [IterateOutcome::Success, IterateOutcome::Success];
    assert_eq!(run_wait(&tokens, &iterations), (Ok(()), 2));
}

#[test]
fn wait_fails_when_the_loop_quits() {
    let tokens = [OperationState::Running, OperationState::Running];
    let iterations = [IterateOutcome::Success, IterateOutcome::Quit];
    assert_eq!(run_wait(&tokens, &iterations), (Err(OperationError::LoopTerminated), 2));
}

#[test]
fn wait_fails_when_the_loop_fails() {
    let tokens = [OperationState::Running];
    let iterations = [IterateOutcome::Error];
    assert_eq!(run_wait(&tokens, &iterations), (Err(OperationError::LoopTerminated), 1));
}

#[test]
fn wait_looks_at_the_token_first() {
    assert_eq!(Wait::start().action(), WaitAction::ReadToken);
    assert_eq!(
        Wait::start().token(OperationState::Running).action(),
        WaitAction::Iterate { block: true }
    );
}

#[test]
fn wait_ignores_what_it_did_not_ask_for() {
    let start = Wait::start();
    assert_eq!(start.iterated(IterateOutcome::Quit), start);
    let iterating = start.token(OperationState::Running);
    assert_eq!(iterating.token(OperationState::Succeeded), iterating);
    let done = start.token(OperationState::Succeeded);
    assert_eq!(done.token(OperationState::Running), done);
    assert_eq!(done.iterated(IterateOutcome::Error), done);
    assert_eq!(done.action(), WaitAction::Return(Ok(())));
}

#[test]
fn connect_iterates_first() {
    assert_eq!(Connect::start().action(), ConnectAction::Iterate { block: true });
    assert_eq!(
        Connect::start().iterated(IterateOutcome::Success).action(),
        ConnectAction::ReadState
    );
}

#[test]
fn connect_waits_until_the_connection_is_ready() {
    let iterations = [IterateOutcome::Success; 5];
    let states = [
        ContextState::Unconnected,
        ContextState::Connecting,
        ContextState::Authorizing,
        ContextState::SettingName,
        ContextState::Ready,
    ];
    assert_eq!(run_connect(&iterations, &states), (Ok(()), 5));
}

#[test]
fn connect_gives_up_on_a_failed_connection() {
    let iterations = [IterateOutcome::Success; 2];
    let states = [ContextState::Connecting, ContextState::Failed];
    assert_eq!(run_connect(&iterations, &states), (Err(ConnectError::ContextFailed), 2));
}

#[test]
fn connect_gives_up_on_a_terminated_connection() {
    let iterations = [IterateOutcome::Success];
    let states = [ContextState::Terminated];
    assert_eq!(run_connect(&iterations, &states), (Err(ConnectError::ContextFailed), 1));
}

#[test]
fn connect_fails_when_the_loop_quits_or_fails() {
    assert_eq!(
        run_connect(&[IterateOutcome::Quit], &[]),
        (Err(ConnectError::LoopTerminated), 1)
    );
    let iterations = [IterateOutcome::Success, IterateOutcome::Error];
    let states = [ContextState::Connecting];
    assert_eq!(run_connect(&iterations, &states), (Err(ConnectError::LoopTerminated), 2));
}

#[test]
fn connect_ignores_what_it_did_not_ask_for() {
    let start = Connect::start();
    assert_eq!(start.state(ContextState::Ready), start);
    let reading = start.iterated(IterateOutcome::Success);
    assert_eq!(reading.iterated(IterateOutcome::Quit), reading);
    let done = reading.state(ContextState::Ready);
    assert_eq!(done.action(), ConnectAction::Return(Ok(())));
    assert_eq!(done.state(ContextState::Failed), done);
    assert_eq!(done.iterated(IterateOutcome::Error), done);
}

#[test]
fn errors_have_their_messages() {
    assert_eq!(
        OperationError::LoopTerminated.message(),
        "Iterate state was not success, quitting mainloop..."
    );
    assert_eq!(
        OperationError::ConnectError(ConnectError::LoopTerminated).message(),
        "Iterate state was not success, quitting..."
    );
    assert_eq!(
        OperationError::ConnectError(ConnectError::ContextFailed).message(),
        "Context state failed/terminated, quitting..."
    );
    assert_eq!(
        ConnectError::LoopTerminated.message(),
        "Iterate state was not success, quitting..."
    );
    assert_eq!(
        ConnectError::ContextFailed.message(),
        "Context state failed/terminated, quitting..."
    );
}
