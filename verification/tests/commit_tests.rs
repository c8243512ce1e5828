use pacc::bridge::OperationError;
use pacc::commit::{
    acceptance, confirmation_line, rejection_messages, Commit, CommitAction, CommitReport,
    CommitRequest,
};
use pacc::selection::{Command, SelectionState};
use pacc::source::PaOutput;

fn output(sink: &str, sink_d: &str, port: &str, port_d: &str, is_active: bool) -> PaOutput {
    PaOutput {
        sink_name: String::from(sink),
        sink_description: String::from(sink_d),
        port_name: String::from(port),
        port_description: String::from(port_d),
        is_active,
    }
}

fn speakers() -> Vec<PaOutput> {
    vec![
        output("sinkA", "Speakers", "portA", "Line Out", true),
        output("sinkA", "Speakers", "portB", "Headphones", false),
    ]
}

fn set_sink(sink: &str) -> CommitAction {
    CommitAction::Send(CommitRequest::SetDefaultSink { sink_name: String::from(sink) })
}

fn set_port(sink: &str, port: &str) -> CommitAction {
    CommitAction::Send(CommitRequest::SetSinkPort {
        sink_name: String::from(sink),
        port_name: String::from(port),
    })
}

#[test]
fn choosing_the_second_port_commits_sink_then_port() {
    let catalog = speakers();
    let mut state = SelectionState::new(&catalog);
    assert_eq!(state.highlighted_index(), Some(0));
    state.apply(Command::MoveDown);
    assert_eq!(state.highlighted_index(), Some(1));
    state.apply(Command::Confirm);
    let chosen: usize = state.confirmed_index().unwrap();
    assert_eq!(chosen, 1);
    let target = &catalog[chosen];

    let mut sent: Vec<CommitRequest> = Vec::new();
    let mut commit = Commit::start();
    let result = loop {
        match commit.action(target) {
            CommitAction::Send(request) => {
                sent.push(request);
                commit = commit.answered(Ok(true));
            }
            CommitAction::Return(result) => break result,
        }
    };
    assert_eq!(
        sent,
        vec![
            CommitRequest::SetDefaultSink { sink_name: String::from("sinkA") },
            CommitRequest::SetSinkPort {
                sink_name: String::from("sinkA"),
                port_name: String::from("portB"),
            },
        ]
    );
    assert_eq!(result, Ok(CommitReport { sink_accepted: true, port_accepted: true }));
}

#[test]
fn port_is_set_even_if_the_sink_was_rejected() {
    let target = output("sinkA", "Speakers", "portB", "Headphones", false);
    let commit = Commit::start();
    assert_eq!(commit.action(&target), set_sink("sinkA"));
    let commit = commit.answered(Ok(false));
    assert_eq!(commit.action(&target), set_port("sinkA", "portB"));
    let commit = commit.answered(Ok(true));
    assert_eq!(
        commit.action(&target),
        CommitAction::Return(Ok(CommitReport { sink_accepted: false, port_accepted: true }))
    );
}

#[test]
fn both_rejections_are_reported() {
    let commit = Commit::start().answered(Ok(false)).answered(Ok(false));
    assert_eq!(
        commit,
        Commit::Finished(Ok(CommitReport { sink_accepted: false, port_accepted: false }))
    );
}

#[test]
fn failed_call_for_the_sink_sends_no_port_request() {
    let target = output("sinkA", "Speakers", "portB", "Headphones", false);
    let commit = Commit::start().answered(Err(OperationError::LoopTerminated));
    assert_eq!(
        commit.action(&target),
        CommitAction::Return(Err(OperationError::LoopTerminated))
    );
}

#[test]
fn failed_call_for_the_port_fails_the_commit() {
    let commit = Commit::start().answered(Ok(true)).answered(Err(OperationError::LoopTerminated));
    assert_eq!(commit, Commit::Finished(Err(OperationError::LoopTerminated)));
}

#[test]
fn finished_commit_takes_no_more_answers() {
    let done = Commit::start().answered(Ok(true)).answered(Ok(true));
    assert_eq!(done.answered(Ok(false)), done);
    assert_eq!(done.answered(Err(OperationError::LoopTerminated)), done);
    let failed = Commit::start().answered(Err(OperationError::LoopTerminated));
    assert_eq!(failed.answered(Ok(true)), failed);
}

#[test]
fn report_is_accepted_only_if_both_requests_were() {
    assert!(CommitReport { sink_accepted: true, port_accepted: true }.is_accepted());
    assert!(!CommitReport { sink_accepted: false, port_accepted: true }.is_accepted());
    assert!(!CommitReport { sink_accepted: true, port_accepted: false }.is_accepted());
    assert!(!CommitReport { sink_accepted: false, port_accepted: false }.is_accepted());
}

#[test]
fn rejection_messages_name_what_was_rejected() {
    let target = output("sinkA", "Speakers", "portB", "Headphones", false);
    let none = rejection_messages(&CommitReport { sink_accepted: true, port_accepted: true }, &target);
    assert!(none.is_empty());
    let sink = rejection_messages(&CommitReport { sink_accepted: false, port_accepted: true }, &target);
    assert_eq!(sink, vec![String::from("can't set sink 'sinkA'")]);
    let port = rejection_messages(&CommitReport { sink_accepted: true, port_accepted: false }, &target);
    assert_eq!(port, vec![String::from("can't set port 'portB' to sink 'sinkA'")]);
    let both = rejection_messages(&CommitReport { sink_accepted: false, port_accepted: false }, &target);
    assert_eq!(
        both,
        vec![
            String::from("can't set sink 'sinkA'"),
            String::from("can't set port 'portB' to sink 'sinkA'"),
        ]
    );
}

#[test]
fn confirmation_names_the_descriptions() {
    let target = output("sinkA", "Speakers", "portB", "Headphones", false);
    assert_eq!(confirmation_line(&target), "Output switched to 'Speakers, Port 'Headphones''");
}

#[test]
fn request_is_rejected_only_where_the_server_said_so() {
    assert!(acceptance(Some(true)));
    assert!(!acceptance(Some(false)));
    assert!(acceptance(None));
}
