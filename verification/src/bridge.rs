//! The blocking bridge: a request to the audio server, or the connection to
//! it, waited for step by step.
//!
//! The audio server answers through an event loop. A caller that wants the
//! answer before it goes on looks at what it waits for and, while that has not
//! come, runs one blocking iteration of the event loop. `Wait` and `Connect`
//! hold where such a call stands and say what the caller does next; the caller
//! performs it and hands back what it saw.

use vstd::prelude::*;

verus! {

/// State of the completion token of a request.
#[derive(Clone, Copy, PartialEq, Eq, Structural, Debug)]
pub enum OperationState {
    /// The server has not answered yet.
    Running,
    /// The request has run to its end.
    Succeeded,
    /// The request was given up.
    Failed,
}

/// How one iteration of the event loop ended.
#[derive(Clone, Copy, PartialEq, Eq, Structural, Debug)]
pub enum IterateOutcome {
    /// The loop dispatched its events.
    Success,
    /// The loop was told to quit.
    Quit,
    /// The loop failed.
    Error,
}

/// State of the connection to the audio server.
#[derive(Clone, Copy, PartialEq, Eq, Structural, Debug)]
pub enum ContextState {
    Unconnected,
    Connecting,
    Authorizing,
    SettingName,
    Ready,
    Failed,
    Terminated,
}

/// Why the connection did not become ready.
#[derive(Clone, Copy, PartialEq, Eq, Structural, Debug)]
pub enum ConnectError {
    /// The event loop quit or failed before the connection was ready.
    LoopTerminated,
    /// The connection failed or was terminated.
    ContextFailed,
}

/// Why a blocking call did not come back with a result.
#[derive(Clone, Copy, PartialEq, Eq, Structural, Debug)]
pub enum OperationError {
    /// The session could not be established.
    ConnectError(ConnectError),
    /// The event loop quit or failed while a request was under way.
    LoopTerminated,
}

/// What a blocking call does after a look at what it waits for.
#[derive(Clone, Copy, PartialEq, Eq, Structural, Debug)]
pub enum Poll {
    /// Not there yet: run one more blocking iteration of the event loop.
    Pending,
    /// What was waited for has come: return.
    Ready,
}

impl ConnectError {
    /// The message that reports this error.
    pub open spec fn text(self) -> Seq<char> {
        match self {
            ConnectError::LoopTerminated => "Iterate state was not success, quitting..."@,
            ConnectError::ContextFailed => "Context state failed/terminated, quitting..."@,
        }
    }

    /// The message that reports this error.
    pub fn message(&self) -> (message: String)
        ensures
            message@ == self.text(),
    {
        match self {
            ConnectError::LoopTerminated => String::from_str(
                "Iterate state was not success, quitting...",
            ),
            ConnectError::ContextFailed => String::from_str(
                "Context state failed/terminated, quitting...",
            ),
        }
    }
}

impl OperationError {
    /// The message that reports this error.
    pub open spec fn text(self) -> Seq<char> {
        match self {
            OperationError::ConnectError(e) => e.text(),
            OperationError::LoopTerminated =>
                "Iterate state was not success, quitting mainloop..."@,
        }
    }

    /// The message that reports this error.
    pub fn message(&self) -> (message: String)
        ensures
            message@ == self.text(),
    {
        match self {
            OperationError::ConnectError(e) => e.message(),
            OperationError::LoopTerminated => String::from_str(
                "Iterate state was not success, quitting mainloop...",
            ),
        }
    }
}

/// A request is waited for as long as its token says that it is running.
pub open spec fn operation_poll(token: OperationState) -> Poll {
    match token {
        OperationState::Running => Poll::Pending,
        OperationState::Succeeded | OperationState::Failed => Poll::Ready,
    }
}

/// An iteration that did not succeed ends the call that asked for it.
pub open spec fn iteration_verdict(outcome: IterateOutcome) -> Result<(), OperationError> {
    match outcome {
        IterateOutcome::Success => Ok(()),
        IterateOutcome::Quit | IterateOutcome::Error => Err(OperationError::LoopTerminated),
    }
}

/// A connection is waited for until it is ready; one that failed or was
/// terminated is given up.
pub open spec fn connection_poll(state: ContextState) -> Result<Poll, ConnectError> {
    match state {
        ContextState::Ready => Ok(Poll::Ready),
        ContextState::Failed | ContextState::Terminated => Err(ConnectError::ContextFailed),
        ContextState::Unconnected
        | ContextState::Connecting
        | ContextState::Authorizing
        | ContextState::SettingName => Ok(Poll::Pending),
    }
}

/// An iteration that did not succeed ends the attempt to connect.
pub open spec fn connect_iteration_verdict(outcome: IterateOutcome) -> Result<(), ConnectError> {
    match outcome {
        IterateOutcome::Success => Ok(()),
        IterateOutcome::Quit | IterateOutcome::Error => Err(ConnectError::LoopTerminated),
    }
}

/// What the caller of a blocking wait does next.
#[derive(Clone, Copy, PartialEq, Eq, Debug)]
pub enum WaitAction {
    /// Look at the request's completion token.
    ReadToken,
    /// Run one iteration of the event loop; with `block` set, the iteration
    /// sleeps until the loop has something to dispatch.
    Iterate { block: bool },
    /// Return this result.
    Return(Result<(), OperationError>),
}

/// A blocking wait for one request. It looks at the token first and iterates
/// while the token says that the request is running.
#[derive(Clone, Copy, PartialEq, Eq, Debug)]
pub enum Wait {
    /// The token is to be looked at.
    ReadingToken,
    /// The event loop is to run one iteration.
    Iterating,
    /// The wait is over.
    Finished(Result<(), OperationError>),
}

/// What the caller of a blocking connect does next.
#[derive(Clone, Copy, PartialEq, Eq, Debug)]
pub enum ConnectAction {
    /// Run one iteration of the event loop; with `block` set, the iteration
    /// sleeps until the loop has something to dispatch.
    Iterate { block: bool },
    /// Look at the state of the connection.
    ReadState,
    /// Return this result.
    Return(Result<(), ConnectError>),
}

/// A blocking wait for the connection to become ready. It iterates first and
/// looks at the connection after each iteration.
#[derive(Clone, Copy, PartialEq, Eq, Debug)]
pub enum Connect {
    /// The event loop is to run one iteration.
    Iterating,
    /// The state of the connection is to be looked at.
    ReadingState,
    /// The attempt is over.
    Finished(Result<(), ConnectError>),
}

impl Wait {
    /// What the caller does next. Every iteration that a wait asks for
    /// blocks: a wait never spins.
    pub open spec fn next_action(self) -> WaitAction {
        match self {
            Wait::ReadingToken => WaitAction::ReadToken,
            Wait::Iterating => WaitAction::Iterate { block: true },
            Wait::Finished(result) => WaitAction::Return(result),
        }
    }

    /// The wait after the caller saw the token in state `token`. A token that
    /// has left `Running` ends the wait with `Ok`, whether the request
    /// succeeded or not: what the server answered is the caller's to read.
    pub open spec fn after_token(self, token: OperationState) -> Wait {
        match self {
            Wait::ReadingToken => match operation_poll(token) {
                Poll::Pending => Wait::Iterating,
                Poll::Ready => Wait::Finished(Ok(())),
            },
            _ => self,
        }
    }

    /// The wait after an iteration that ended as `outcome`.
    pub open spec fn after_iteration(self, outcome: IterateOutcome) -> Wait {
        match self {
            Wait::Iterating => match iteration_verdict(outcome) {
                Ok(()) => Wait::ReadingToken,
                Err(e) => Wait::Finished(Err(e)),
            },
            _ => self,
        }
    }

    /// The wait after it was served from a script: each look at the token
    /// shows the next state of `tokens`, each iteration ends as the next
    /// outcome of `outcomes`, until the wait is over or the script has nothing
    /// left of what the wait asks for.
    pub open spec fn served(self, tokens: Seq<OperationState>, outcomes: Seq<IterateOutcome>) -> Wait
        decreases tokens.len() + outcomes.len(),
    {
        match self {
            Wait::ReadingToken => if tokens.len() == 0 {
                self
            } else {
                self.after_token(tokens[0]).served(tokens.drop_first(), outcomes)
            },
            Wait::Iterating => if outcomes.len() == 0 {
                self
            } else {
                self.after_iteration(outcomes[0]).served(tokens, outcomes.drop_first())
            },
            Wait::Finished(_) => self,
        }
    }

    /// A wait that has just begun.
    pub fn start() -> (wait: Wait)
        ensures
            wait == Wait::ReadingToken,
    {
        Wait::ReadingToken
    }

    /// What the caller does next.
    pub fn action(&self) -> (action: WaitAction)
        ensures
            action == self.next_action(),
    {
        match self {
            Wait::ReadingToken => WaitAction::ReadToken,
            Wait::Iterating => WaitAction::Iterate { block: true },
            Wait::Finished(result) => WaitAction::Return(*result),
        }
    }

    /// Takes the state in which the caller saw the token. Changes nothing
    /// unless the wait had asked for it.
    pub fn token(self, token: OperationState) -> (next: Wait)
        ensures
            next == self.after_token(token),
    {
        match self {
            Wait::ReadingToken => match token {
                OperationState::Running => Wait::Iterating,
                OperationState::Succeeded | OperationState::Failed => Wait::Finished(Ok(())),
            },
            _ => self,
        }
    }

    /// Takes the outcome of the iteration that the caller ran. Changes nothing
    /// unless the wait had asked for it.
    pub fn iterated(self, outcome: IterateOutcome) -> (next: Wait)
        ensures
            next == self.after_iteration(outcome),
    {
        match self {
            Wait::Iterating => match outcome {
                IterateOutcome::Success => Wait::ReadingToken,
                IterateOutcome::Quit | IterateOutcome::Error => Wait::Finished(
                    Err(OperationError::LoopTerminated),
                ),
            },
            _ => self,
        }
    }
}

impl Connect {
    /// What the caller does next. Every iteration that an attempt asks for
    /// blocks: an attempt never spins.
    pub open spec fn next_action(self) -> ConnectAction {
        match self {
            Connect::Iterating => ConnectAction::Iterate { block: true },
            Connect::ReadingState => ConnectAction::ReadState,
            Connect::Finished(result) => ConnectAction::Return(result),
        }
    }

    /// The attempt after an iteration that ended as `outcome`.
    pub open spec fn after_iteration(self, outcome: IterateOutcome) -> Connect {
        match self {
            Connect::Iterating => match connect_iteration_verdict(outcome) {
                Ok(()) => Connect::ReadingState,
                Err(e) => Connect::Finished(Err(e)),
            },
            _ => self,
        }
    }

    /// The attempt after the caller saw the connection in state `state`.
    pub open spec fn after_state(self, state: ContextState) -> Connect {
        match self {
            Connect::ReadingState => match connection_poll(state) {
                Ok(Poll::Pending) => Connect::Iterating,
                Ok(Poll::Ready) => Connect::Finished(Ok(())),
                Err(e) => Connect::Finished(Err(e)),
            },
            _ => self,
        }
    }

    /// The attempt after it was served from a script: each iteration ends as
    /// the next outcome of `outcomes`, each look at the connection shows the
    /// next state of `states`, until the attempt is over or the script has
    /// nothing left of what the attempt asks for.
    pub open spec fn served(self, outcomes: Seq<IterateOutcome>, states: Seq<ContextState>) -> Connect
        decreases outcomes.len() + states.len(),
    {
        match self {
            Connect::Iterating => if outcomes.len() == 0 {
                self
            } else {
                self.after_iteration(outcomes[0]).served(outcomes.drop_first(), states)
            },
            Connect::ReadingState => if states.len() == 0 {
                self
            } else {
                self.after_state(states[0]).served(outcomes, states.drop_first())
            },
            Connect::Finished(_) => self,
        }
    }

    /// An attempt that has just begun.
    pub fn start() -> (connect: Connect)
        ensures
            connect == Connect::Iterating,
    {
        Connect::Iterating
    }

    /// What the caller does next.
    pub fn action(&self) -> (action: ConnectAction)
        ensures
            action == self.next_action(),
    {
        match self {
            Connect::Iterating => ConnectAction::Iterate { block: true },
            Connect::ReadingState => ConnectAction::ReadState,
            Connect::Finished(result) => ConnectAction::Return(*result),
        }
    }

    /// Takes the outcome of the iteration that the caller ran. Changes nothing
    /// unless the attempt had asked for it.
    pub fn iterated(self, outcome: IterateOutcome) -> (next: Connect)
        ensures
            next == self.after_iteration(outcome),
    {
        match self {
            Connect::Iterating => match outcome {
                IterateOutcome::Success => Connect::ReadingState,
                IterateOutcome::Quit | IterateOutcome::Error => Connect::Finished(
                    Err(ConnectError::LoopTerminated),
                ),
            },
            _ => self,
        }
    }

    /// Takes the state in which the caller saw the connection. Changes nothing
    /// unless the attempt had asked for it.
    pub fn state(self, state: ContextState) -> (next: Connect)
        ensures
            next == self.after_state(state),
    {
        match self {
            Connect::ReadingState => match state {
                ContextState::Ready => Connect::Finished(Ok(())),
                ContextState::Failed | ContextState::Terminated => Connect::Finished(
                    Err(ConnectError::ContextFailed),
                ),
                ContextState::Unconnected
                | ContextState::Connecting
                | ContextState::Authorizing
                | ContextState::SettingName => Connect::Iterating,
            },
            _ => self,
        }
    }
}

/// A wait that is over stays as it is.
pub proof fn law_finished_wait_is_final(
    wait: Wait,
    token: OperationState,
    outcome: IterateOutcome,
)
    requires
        wait is Finished,
    ensures
        wait.after_token(token) == wait,
        wait.after_iteration(outcome) == wait,
{
}

/// An attempt to connect that is over stays as it is.
pub proof fn law_finished_connect_is_final(
    connect: Connect,
    state: ContextState,
    outcome: IterateOutcome,
)
    requires
        connect is Finished,
    ensures
        connect.after_state(state) == connect,
        connect.after_iteration(outcome) == connect,
{
}

/// In each of the first `k` passes of a wait the token said that the request
/// was running, and the iteration that followed succeeded.
pub open spec fn waited(tokens: Seq<OperationState>, outcomes: Seq<IterateOutcome>, k: int) -> bool {
    &&& 0 <= k <= tokens.len()
    &&& k <= outcomes.len()
    &&& forall|j: int|
        #![trigger tokens[j]]
        #![trigger outcomes[j]]
        0 <= j < k ==> tokens[j] == OperationState::Running && outcomes[j]
            == IterateOutcome::Success
}

/// The first `k` passes of a script are passes of waiting only if, after the
/// first, the first `k - 1` of the rest are.
proof fn lemma_waited_later(tokens: Seq<OperationState>, outcomes: Seq<IterateOutcome>, k: int)
    requires
        waited(tokens, outcomes, k),
        k > 0,
    ensures
        waited(tokens.drop_first(), outcomes.drop_first(), k - 1),
        tokens[0] == OperationState::Running,
        outcomes[0] == IterateOutcome::Success,
{
    let later_tokens = tokens.drop_first();
    let later_outcomes = outcomes.drop_first();
    assert forall|j: int| 0 <= j < k - 1 implies later_tokens[j] == OperationState::Running
        && later_outcomes[j] == IterateOutcome::Success by {
        assert(later_tokens[j] == tokens[j + 1]);
        assert(later_outcomes[j] == outcomes[j + 1]);
    }
    assert(tokens[0] == OperationState::Running);
    assert(outcomes[0] == IterateOutcome::Success);
}

/// A wait returns `Ok` as soon as the token is seen to have left `Running`,
/// after as many iterations as it took.
pub proof fn law_wait_succeeds(tokens: Seq<OperationState>, outcomes: Seq<IterateOutcome>, k: int)
    requires
        waited(tokens, outcomes, k),
        k < tokens.len(),
        tokens[k] != OperationState::Running,
    ensures
        Wait::ReadingToken.served(tokens, outcomes) == Wait::Finished(Ok(())),
    decreases k,
{
    reveal_with_fuel(Wait::served, 3);
    if k > 0 {
        lemma_waited_later(tokens, outcomes, k);
        law_wait_succeeds(tokens.drop_first(), outcomes.drop_first(), k - 1);
    }
}

/// A wait fails, because the loop terminated, as soon as an iteration does
/// not succeed while the request is running.
pub proof fn law_wait_fails(tokens: Seq<OperationState>, outcomes: Seq<IterateOutcome>, k: int)
    requires
        waited(tokens, outcomes, k),
        k < tokens.len(),
        k < outcomes.len(),
        tokens[k] == OperationState::Running,
        outcomes[k] != IterateOutcome::Success,
    ensures
        Wait::ReadingToken.served(tokens, outcomes) == Wait::Finished(
            Err(OperationError::LoopTerminated),
        ),
    decreases k,
{
    reveal_with_fuel(Wait::served, 3);
    if k > 0 {
        lemma_waited_later(tokens, outcomes, k);
        law_wait_fails(tokens.drop_first(), outcomes.drop_first(), k - 1);
    }
}

/// Where a wait stands after a script says what the script held: a wait
/// returns `Ok` only once the token has left `Running`, fails only when an
/// iteration did not succeed, and else has iterated as often as it looked at
/// a running request.
pub proof fn law_wait_follows_the_script(
    tokens: Seq<OperationState>,
    outcomes: Seq<IterateOutcome>,
)
    ensures
        match Wait::ReadingToken.served(tokens, outcomes) {
            Wait::Finished(Ok(())) => exists|k: int|
                #![trigger tokens[k]]
                waited(tokens, outcomes, k) && k < tokens.len() && tokens[k]
                    != OperationState::Running,
            Wait::Finished(Err(e)) => e == OperationError::LoopTerminated && exists|k: int|
                #![trigger outcomes[k]]
                waited(tokens, outcomes, k) && k < tokens.len() && k < outcomes.len() && tokens[k]
                    == OperationState::Running && outcomes[k] != IterateOutcome::Success,
            Wait::ReadingToken => waited(tokens, outcomes, tokens.len() as int),
            Wait::Iterating => waited(tokens, outcomes, outcomes.len() as int) && outcomes.len()
                < tokens.len() && tokens[outcomes.len() as int] == OperationState::Running,
        },
    decreases tokens.len(),
{
    reveal_with_fuel(Wait::served, 3);
    if tokens.len() > 0 && tokens[0] == OperationState::Running && outcomes.len() > 0
        && outcomes[0] == IterateOutcome::Success {
        let later_tokens = tokens.drop_first();
        let later_outcomes = outcomes.drop_first();
        law_wait_follows_the_script(later_tokens, later_outcomes);
        assert(forall|j: int| 0 <= j < later_tokens.len() ==> later_tokens[j] == tokens[j + 1]);
        assert(forall|j: int|
            0 <= j < later_outcomes.len() ==> later_outcomes[j] == outcomes[j + 1]);
        assert forall|k: int| waited(later_tokens, later_outcomes, k) implies waited(
            tokens,
            outcomes,
            k + 1,
        ) by {
            assert forall|j: int| 0 <= j < k + 1 implies tokens[j] == OperationState::Running
                && outcomes[j] == IterateOutcome::Success by {
                if j > 0 {
                    assert(later_tokens[j - 1] == tokens[j]);
                    assert(later_outcomes[j - 1] == outcomes[j]);
                }
            }
        }
        match Wait::ReadingToken.served(later_tokens, later_outcomes) {
            Wait::Finished(Ok(())) => {
                let k = choose|k: int|
                    #![trigger later_tokens[k]]
                    waited(later_tokens, later_outcomes, k) && k < later_tokens.len()
                        && later_tokens[k] != OperationState::Running;
                assert(waited(tokens, outcomes, k + 1) && tokens[k + 1]
                    != OperationState::Running);
            },
            Wait::Finished(Err(e)) => {
                let k = choose|k: int|
                    #![trigger later_outcomes[k]]
                    waited(later_tokens, later_outcomes, k) && k < later_tokens.len() && k
                        < later_outcomes.len() && later_tokens[k] == OperationState::Running
                        && later_outcomes[k] != IterateOutcome::Success;
                assert(waited(tokens, outcomes, k + 1) && tokens[k + 1]
                    == OperationState::Running && outcomes[k + 1] != IterateOutcome::Success);
            },
            Wait::ReadingToken => {
                assert(waited(tokens, outcomes, later_tokens.len() as int + 1));
            },
            Wait::Iterating => {
                assert(waited(tokens, outcomes, later_outcomes.len() as int + 1));
                assert(tokens[later_outcomes.len() as int + 1] == later_tokens[later_outcomes.len() as int]);
            },
        }
    } else if tokens.len() > 0 && tokens[0] == OperationState::Running && outcomes.len() > 0 {
        assert(waited(tokens, outcomes, 0) && outcomes[0] != IterateOutcome::Success);
    } else if tokens.len() > 0 && tokens[0] != OperationState::Running {
        assert(waited(tokens, outcomes, 0) && tokens[0] != OperationState::Running);
    }
}

/// In each of the first `k` passes of an attempt to connect the iteration
/// succeeded, and the connection was then seen neither ready nor lost.
pub open spec fn connecting(
    outcomes: Seq<IterateOutcome>,
    states: Seq<ContextState>,
    k: int,
) -> bool {
    &&& 0 <= k <= outcomes.len()
    &&& k <= states.len()
    &&& forall|j: int|
        #![trigger outcomes[j]]
        #![trigger states[j]]
        0 <= j < k ==> outcomes[j] == IterateOutcome::Success && (connection_poll(states[j]) matches Ok(
            Poll::Pending,
        ))
}

/// The first `k` passes of a script are passes of connecting only if, after
/// the first, the first `k - 1` of the rest are.
proof fn lemma_connecting_later(outcomes: Seq<IterateOutcome>, states: Seq<ContextState>, k: int)
    requires
        connecting(outcomes, states, k),
        k > 0,
    ensures
        connecting(outcomes.drop_first(), states.drop_first(), k - 1),
        outcomes[0] == IterateOutcome::Success,
        (connection_poll(states[0]) matches Ok(Poll::Pending)),
{
    let later_outcomes = outcomes.drop_first();
    let later_states = states.drop_first();
    assert forall|j: int| 0 <= j < k - 1 implies later_outcomes[j] == IterateOutcome::Success
        && (connection_poll(later_states[j]) matches Ok(Poll::Pending)) by {
        assert(later_outcomes[j] == outcomes[j + 1]);
        assert(later_states[j] == states[j + 1]);
    }
    assert(outcomes[0] == IterateOutcome::Success);
    assert((connection_poll(states[0]) matches Ok(Poll::Pending)));
}

/// An attempt to connect returns `Ok` as soon as the connection is seen
/// ready.
pub proof fn law_connect_succeeds(
    outcomes: Seq<IterateOutcome>,
    states: Seq<ContextState>,
    k: int,
)
    requires
        connecting(outcomes, states, k),
        k < outcomes.len(),
        k < states.len(),
        outcomes[k] == IterateOutcome::Success,
        states[k] == ContextState::Ready,
    ensures
        Connect::Iterating.served(outcomes, states) == Connect::Finished(Ok(())),
    decreases k,
{
    reveal_with_fuel(Connect::served, 3);
    if k > 0 {
        lemma_connecting_later(outcomes, states, k);
        law_connect_succeeds(outcomes.drop_first(), states.drop_first(), k - 1);
    }
}

/// An attempt to connect fails with the loop as soon as an iteration does not
/// succeed.
pub proof fn law_connect_fails_with_the_loop(
    outcomes: Seq<IterateOutcome>,
    states: Seq<ContextState>,
    k: int,
)
    requires
        connecting(outcomes, states, k),
        k < outcomes.len(),
        outcomes[k] != IterateOutcome::Success,
    ensures
        Connect::Iterating.served(outcomes, states) == Connect::Finished(
            Err(ConnectError::LoopTerminated),
        ),
    decreases k,
{
    reveal_with_fuel(Connect::served, 3);
    if k > 0 {
        lemma_connecting_later(outcomes, states, k);
        law_connect_fails_with_the_loop(outcomes.drop_first(), states.drop_first(), k - 1);
    }
}

/// An attempt to connect is given up as soon as the connection is seen failed
/// or terminated.
pub proof fn law_connect_fails_with_the_connection(
    outcomes: Seq<IterateOutcome>,
    states: Seq<ContextState>,
    k: int,
)
    requires
        connecting(outcomes, states, k),
        k < outcomes.len(),
        k < states.len(),
        outcomes[k] == IterateOutcome::Success,
        states[k] == ContextState::Failed || states[k] == ContextState::Terminated,
    ensures
        Connect::Iterating.served(outcomes, states) == Connect::Finished(
            Err(ConnectError::ContextFailed),
        ),
    decreases k,
{
    reveal_with_fuel(Connect::served, 3);
    if k > 0 {
        lemma_connecting_later(outcomes, states, k);
        law_connect_fails_with_the_connection(outcomes.drop_first(), states.drop_first(), k - 1);
    }
}

/// Where an attempt to connect stands after a script says what the script
/// held: the attempt returns `Ok` only once the connection was ready, fails
/// only when an iteration did not succeed or the connection was lost, and
/// else has looked at the connection after every iteration.
pub proof fn law_connect_follows_the_script(
    outcomes: Seq<IterateOutcome>,
    states: Seq<ContextState>,
)
    ensures
        match Connect::Iterating.served(outcomes, states) {
            Connect::Finished(Ok(())) => exists|k: int|
                #![trigger states[k]]
                connecting(outcomes, states, k) && k < outcomes.len() && k < states.len()
                    && outcomes[k] == IterateOutcome::Success && states[k] == ContextState::Ready,
            Connect::Finished(Err(ConnectError::LoopTerminated)) => exists|k: int|
                #![trigger outcomes[k]]
                connecting(outcomes, states, k) && k < outcomes.len() && outcomes[k]
                    != IterateOutcome::Success,
            Connect::Finished(Err(ConnectError::ContextFailed)) => exists|k: int|
                #![trigger states[k]]
                connecting(outcomes, states, k) && k < outcomes.len() && k < states.len()
                    && outcomes[k] == IterateOutcome::Success && (states[k] == ContextState::Failed
                    || states[k] == ContextState::Terminated),
            Connect::Iterating => connecting(outcomes, states, outcomes.len() as int),
            Connect::ReadingState => connecting(outcomes, states, states.len() as int)
                && states.len() < outcomes.len() && outcomes[states.len() as int]
                == IterateOutcome::Success,
        },
    decreases outcomes.len(),
{
    reveal_with_fuel(Connect::served, 3);
    if outcomes.len() > 0 && outcomes[0] == IterateOutcome::Success && states.len() > 0
        && (connection_poll(states[0]) matches Ok(Poll::Pending)) {
        let later_outcomes = outcomes.drop_first();
        let later_states = states.drop_first();
        law_connect_follows_the_script(later_outcomes, later_states);
        assert(forall|j: int|
            0 <= j < later_outcomes.len() ==> later_outcomes[j] == outcomes[j + 1]);
        assert(forall|j: int| 0 <= j < later_states.len() ==> later_states[j] == states[j + 1]);
        assert forall|k: int| connecting(later_outcomes, later_states, k) implies connecting(
            outcomes,
            states,
            k + 1,
        ) by {
            assert forall|j: int| 0 <= j < k + 1 implies outcomes[j] == IterateOutcome::Success
                && (connection_poll(states[j]) matches Ok(Poll::Pending)) by {
                if j > 0 {
                    assert(later_outcomes[j - 1] == outcomes[j]);
                    assert(later_states[j - 1] == states[j]);
                }
            }
        }
        match Connect::Iterating.served(later_outcomes, later_states) {
            Connect::Finished(Ok(())) => {
                let k = choose|k: int|
                    #![trigger later_states[k]]
                    connecting(later_outcomes, later_states, k) && k < later_outcomes.len() && k
                        < later_states.len() && later_outcomes[k] == IterateOutcome::Success
                        && later_states[k] == ContextState::Ready;
                assert(connecting(outcomes, states, k + 1) && outcomes[k + 1]
                    == IterateOutcome::Success && states[k + 1] == ContextState::Ready);
            },
            Connect::Finished(Err(ConnectError::LoopTerminated)) => {
                let k = choose|k: int|
                    #![trigger later_outcomes[k]]
                    connecting(later_outcomes, later_states, k) && k < later_outcomes.len()
                        && later_outcomes[k] != IterateOutcome::Success;
                assert(connecting(outcomes, states, k + 1) && outcomes[k + 1]
                    != IterateOutcome::Success);
            },
            Connect::Finished(Err(ConnectError::ContextFailed)) => {
                let k = choose|k: int|
                    #![trigger later_states[k]]
                    connecting(later_outcomes, later_states, k) && k < later_outcomes.len() && k
                        < later_states.len() && later_outcomes[k] == IterateOutcome::Success && (
                    later_states[k] == ContextState::Failed || later_states[k]
                        == ContextState::Terminated);
                assert(connecting(outcomes, states, k + 1) && outcomes[k + 1]
                    == IterateOutcome::Success && (states[k + 1] == ContextState::Failed
                    || states[k + 1] == ContextState::Terminated));
            },
            Connect::Iterating => {
                assert(connecting(outcomes, states, later_outcomes.len() as int + 1));
            },
            Connect::ReadingState => {
                assert(connecting(outcomes, states, later_states.len() as int + 1));
                assert(outcomes[later_states.len() as int + 1] == later_outcomes[later_states.len() as int]);
            },
        }
    } else if outcomes.len() > 0 && outcomes[0] == IterateOutcome::Success && states.len() > 0 {
        assert(connecting(outcomes, states, 0));
        assert(states[0] == ContextState::Ready || states[0] == ContextState::Failed || states[0]
            == ContextState::Terminated);
    } else if outcomes.len() > 0 && outcomes[0] != IterateOutcome::Success {
        assert(connecting(outcomes, states, 0) && outcomes[0] != IterateOutcome::Success);
    } else if outcomes.len() > 0 {
        assert(connecting(outcomes, states, 0));
    }
}

} // verus!
