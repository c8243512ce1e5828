//! Applying a choice: the two requests that make a target the default output,
//! and what to tell the user about how they went.

use crate::bridge::OperationError;
use crate::source::{list_line, OutputTarget, PaOutput};
use vstd::prelude::*;

verus! {

/// How the server answered the two requests of a commit.
#[derive(Clone, Copy, PartialEq, Eq, Structural, Debug)]
pub struct CommitReport {
    /// The server took the sink as its default sink.
    pub sink_accepted: bool,
    /// The server took the port as the sink's active port.
    pub port_accepted: bool,
}

/// Mathematical model of a request to the server.
pub enum Request {
    SetDefaultSink { sink_name: Seq<char> },
    SetSinkPort { sink_name: Seq<char>, port_name: Seq<char> },
}

/// Mathematical model of what the caller of a commit does next.
pub enum Instruction {
    Send(Request),
    Return(Result<CommitReport, OperationError>),
}

/// A request to the server.
#[derive(PartialEq, Eq, Debug)]
pub enum CommitRequest {
    /// Make the sink of this name the default sink.
    SetDefaultSink { sink_name: String },
    /// Make the port of this name the active port of the sink of this name.
    SetSinkPort { sink_name: String, port_name: String },
}

/// What the caller of a commit does next.
#[derive(PartialEq, Eq, Debug)]
pub enum CommitAction {
    /// Send this request through a blocking call and hand back its answer.
    Send(CommitRequest),
    /// Return this result.
    Return(Result<CommitReport, OperationError>),
}

impl View for CommitRequest {
    type V = Request;

    open spec fn view(&self) -> Request {
        match self {
            CommitRequest::SetDefaultSink { sink_name } => Request::SetDefaultSink {
                sink_name: sink_name@,
            },
            CommitRequest::SetSinkPort { sink_name, port_name } => Request::SetSinkPort {
                sink_name: sink_name@,
                port_name: port_name@,
            },
        }
    }
}

impl View for CommitAction {
    type V = Instruction;

    open spec fn view(&self) -> Instruction {
        match self {
            CommitAction::Send(request) => Instruction::Send(request@),
            CommitAction::Return(result) => Instruction::Return(*result),
        }
    }
}

/// A commit: first the default sink is set, then the sink's port. The second
/// request is sent whatever the server answered to the first; a blocking call
/// that fails ends the commit at once.
#[derive(Clone, Copy, PartialEq, Eq, Debug)]
pub enum Commit {
    /// The request to set the default sink is to be sent.
    SettingSink,
    /// The request to set the port is to be sent.
    SettingPort { sink_accepted: bool },
    /// The commit is over.
    Finished(Result<CommitReport, OperationError>),
}

impl Commit {
    /// What the caller does next to commit `target`.
    pub open spec fn next_action(self, target: OutputTarget) -> Instruction {
        match self {
            Commit::SettingSink => Instruction::Send(
                Request::SetDefaultSink { sink_name: target.sink_name },
            ),
            Commit::SettingPort { .. } => Instruction::Send(
                Request::SetSinkPort { sink_name: target.sink_name, port_name: target.port_name },
            ),
            Commit::Finished(result) => Instruction::Return(result),
        }
    }

    /// The commit after the blocking call for the pending request came back
    /// with `answer`: whether the server accepted the request, or why the call
    /// failed.
    pub open spec fn after_answer(self, answer: Result<bool, OperationError>) -> Commit {
        match self {
            Commit::SettingSink => match answer {
                Ok(sink_accepted) => Commit::SettingPort { sink_accepted },
                Err(e) => Commit::Finished(Err(e)),
            },
            Commit::SettingPort { sink_accepted } => match answer {
                Ok(port_accepted) => Commit::Finished(
                    Ok(CommitReport { sink_accepted, port_accepted }),
                ),
                Err(e) => Commit::Finished(Err(e)),
            },
            Commit::Finished(_) => self,
        }
    }

    /// A commit that has just begun.
    pub fn start() -> (commit: Commit)
        ensures
            commit == Commit::SettingSink,
    {
        Commit::SettingSink
    }

    /// What the caller does next to commit `target`.
    pub fn action(&self, target: &PaOutput) -> (action: CommitAction)
        ensures
            action@ == self.next_action(target@),
    {
        match self {
            Commit::SettingSink => CommitAction::Send(
                CommitRequest::SetDefaultSink { sink_name: target.sink_name.clone() },
            ),
            Commit::SettingPort { .. } => CommitAction::Send(
                CommitRequest::SetSinkPort {
                    sink_name: target.sink_name.clone(),
                    port_name: target.port_name.clone(),
                },
            ),
            Commit::Finished(result) => CommitAction::Return(*result),
        }
    }

    /// Takes the answer to the pending request. Changes nothing once the
    /// commit is over.
    pub fn answered(self, answer: Result<bool, OperationError>) -> (next: Commit)
        ensures
            next == self.after_answer(answer),
    {
        match self {
            Commit::SettingSink => match answer {
                Ok(sink_accepted) => Commit::SettingPort { sink_accepted },
                Err(e) => Commit::Finished(Err(e)),
            },
            Commit::SettingPort { sink_accepted } => match answer {
                Ok(port_accepted) => Commit::Finished(
                    Ok(CommitReport { sink_accepted, port_accepted }),
                ),
                Err(e) => Commit::Finished(Err(e)),
            },
            Commit::Finished(_) => self,
        }
    }
}

/// A request counts as rejected only where the server said so: one that the
/// server never reported on counts as accepted.
pub open spec fn counts_as_accepted(reported: Option<bool>) -> bool {
    reported != Some(false)
}

/// Whether a request counts as accepted, given what the server reported on it:
/// `Some(true)` that it succeeded, `Some(false)` that it did not, `None`
/// nothing.
pub fn acceptance(reported: Option<bool>) -> (accepted: bool)
    ensures
        accepted == counts_as_accepted(reported),
{
    match reported {
        Some(success) => success,
        None => true,
    }
}

impl CommitReport {
    /// The server accepted both requests.
    pub open spec fn accepted(self) -> bool {
        self.sink_accepted && self.port_accepted
    }

    /// Whether the server accepted both requests.
    pub fn is_accepted(&self) -> (accepted: bool)
        ensures
            accepted == self.accepted(),
    {
        self.sink_accepted && self.port_accepted
    }
}

/// The message that reports that the server did not take the target's sink as
/// its default sink.
pub open spec fn sink_rejection_text(target: OutputTarget) -> Seq<char> {
    "can't set sink '"@ + target.sink_name + "'"@
}

/// The message that reports that the server did not take the target's port as
/// the active port of its sink.
pub open spec fn port_rejection_text(target: OutputTarget) -> Seq<char> {
    "can't set port '"@ + target.port_name + "' to sink '"@ + target.sink_name + "'"@
}

/// The line that confirms that the output was switched to the target.
pub open spec fn confirmation_text(target: OutputTarget) -> Seq<char> {
    "Output switched to '"@ + list_line(target) + "'"@
}

/// The messages that report what the server rejected: one for the sink if it
/// was rejected, then one for the port if it was.
pub open spec fn rejection_texts(report: CommitReport, target: OutputTarget) -> Seq<Seq<char>> {
    (if report.sink_accepted {
        Seq::<Seq<char>>::empty()
    } else {
        seq![sink_rejection_text(target)]
    }) + (if report.port_accepted {
        Seq::<Seq<char>>::empty()
    } else {
        seq![port_rejection_text(target)]
    })
}

/// The messages that report what the server rejected.
pub fn rejection_messages(report: &CommitReport, target: &PaOutput) -> (messages: Vec<String>)
    ensures
        messages.deep_view() == rejection_texts(*report, target@),
{
    let mut messages: Vec<String> = Vec::new();
    if !report.sink_accepted {
        let mut message = String::from_str("can't set sink '");
        message.append(target.sink_name.as_str());
        message.append("'");
        messages.push(message);
    }
    if !report.port_accepted {
        let mut message = String::from_str("can't set port '");
        message.append(target.port_name.as_str());
        message.append("' to sink '");
        message.append(target.sink_name.as_str());
        message.append("'");
        messages.push(message);
    }
    messages
}

/// The line that confirms that the output was switched to `target`.
pub fn confirmation_line(target: &PaOutput) -> (line: String)
    ensures
        line@ == confirmation_text(target@),
{
    let mut line = String::from_str("Output switched to '");
    let list_line = target.to_list_line();
    line.append(list_line.as_str());
    line.append("'");
    line
}

/// The request for the port follows the request for the sink, whatever the
/// server answered to the first.
pub proof fn law_port_follows_sink(target: OutputTarget, sink_accepted: bool)
    ensures
        Commit::SettingSink.next_action(target) == Instruction::Send(
            Request::SetDefaultSink { sink_name: target.sink_name },
        ),
        Commit::SettingSink.after_answer(Ok(sink_accepted)).next_action(target)
            == Instruction::Send(
            Request::SetSinkPort { sink_name: target.sink_name, port_name: target.port_name },
        ),
{
}

/// A commit whose two requests were answered ends with both answers.
pub proof fn law_commit_reports_both_answers(sink_accepted: bool, port_accepted: bool)
    ensures
        Commit::SettingSink.after_answer(Ok(sink_accepted)).after_answer(Ok(port_accepted))
            == Commit::Finished(Ok(CommitReport { sink_accepted, port_accepted })),
{
}

/// A blocking call that fails ends the commit with its error, and no further
/// request is sent.
pub proof fn law_failure_aborts_commit(commit: Commit, e: OperationError, target: OutputTarget)
    requires
        !(commit is Finished),
    ensures
        commit.after_answer(Err(e)) == Commit::Finished(Err(e)),
        commit.after_answer(Err(e)).next_action(target) == Instruction::Return(
            Err::<CommitReport, OperationError>(e),
        ),
{
}

/// A commit that is over stays as it is.
pub proof fn law_finished_commit_is_final(commit: Commit, answer: Result<bool, OperationError>)
    requires
        commit is Finished,
    ensures
        commit.after_answer(answer) == commit,
{
}

} // verus!
