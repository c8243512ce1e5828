//! One run of the chooser from start to exit: which step comes next, what a
//! failure of a step means for the run, and what the run tells the user when
//! it ends.

use crate::bridge::{ConnectError, OperationError};
use crate::catalog::{build_catalog, catalog_of, Listing, Sink, SinkInfo, SinkList};
use crate::commit::{
    confirmation_line, confirmation_text, rejection_messages, rejection_texts, CommitReport,
};
use crate::selection::{initial_selection, law_initial_selection_wf, Outcome, Selection,
    SelectionState};
use crate::source::{OutputTarget, PaOutput};
use vstd::prelude::*;

verus! {

/// What the front end does next.
#[derive(Clone, Copy, PartialEq, Eq, Structural, Debug)]
pub enum Action {
    /// Connect to the audio server and wait until the connection is ready.
    Connect,
    /// Ask the server for all sinks with their ports.
    EnumerateSinks,
    /// Ask the server for the name of its default sink.
    QueryDefaultSink,
    /// Let the user choose from the catalog.
    Select,
    /// Apply the confirmed choice.
    Commit,
    /// Print what the run has to say and leave.
    Exit,
}

/// How the run ended.
#[derive(Clone, Copy, PartialEq, Eq, Structural, Debug)]
pub enum ExitStatus {
    /// The output was switched, or the user changed nothing.
    Success,
    /// A blocking call failed.
    Failure,
}

impl ExitStatus {
    /// The exit code of the process: zero after a run that did not fail.
    pub open spec fn exit_code(self) -> int {
        match self {
            ExitStatus::Success => 0,
            ExitStatus::Failure => 1,
        }
    }

    /// The exit code of the process.
    pub fn code(&self) -> (code: u8)
        ensures
            code == self.exit_code(),
    {
        match self {
            ExitStatus::Success => 0,
            ExitStatus::Failure => 1,
        }
    }
}

/// The line that answers a request for the version.
pub open spec fn version_text() -> Seq<char> {
    "pacc version 0.2.3"@
}

/// The message that reports that the server could not deliver its sinks.
pub open spec fn list_error_text() -> Seq<char> {
    "Error occurred while fetching sink list"@
}

/// Something that the front end hands back to the run.
pub enum Event {
    /// How the attempt to connect ended.
    Connected(Result<(), ConnectError>),
    /// What the server answered to the request for its sinks, or why the call
    /// failed.
    Enumerated(Result<Listing, OperationError>),
    /// The name of the server's default sink, if it named one, or why the call
    /// failed.
    DefaultSink(Result<Option<Seq<char>>, OperationError>),
    /// The selection as the user left it.
    Selected(Selection),
    /// How the server answered the commit, or why a call failed.
    Committed(Result<CommitReport, OperationError>),
}

/// Mathematical model of a run.
pub struct SessionModel {
    /// The step that the run waits for.
    pub pending: Action,
    /// The sinks that the server reported.
    pub sinks: Seq<Sink>,
    /// The catalog that the user chooses from.
    pub catalog: Seq<OutputTarget>,
    /// The selection over the catalog.
    pub selection: Selection,
    /// How the run ended, once it has.
    pub status: ExitStatus,
    /// The lines for the output stream.
    pub output: Seq<Seq<char>>,
    /// The lines for the error stream.
    pub errors: Seq<Seq<char>>,
}

impl SessionModel {
    /// While the user chooses, the selection is the one that the chooser
    /// starts with; while the choice is applied, it names a row of the
    /// catalog.
    pub open spec fn wf(self) -> bool {
        &&& self.pending is Select ==> self.selection == initial_selection(self.catalog)
            && self.selection.outcome is Pending
        &&& self.pending is Commit ==> self.selection.wf() && self.selection.outcome is Confirmed
            && self.selection.len == self.catalog.len()
    }

    /// The target that is being applied.
    pub open spec fn chosen(self) -> OutputTarget {
        self.catalog[self.selection.highlighted->0 as int]
    }

    /// A run at its start. A request for the version is answered at once,
    /// before anything is asked of the audio server.
    pub open spec fn started(version_requested: bool) -> SessionModel {
        SessionModel {
            pending: if version_requested {
                Action::Exit
            } else {
                Action::Connect
            },
            sinks: Seq::empty(),
            catalog: Seq::empty(),
            selection: initial_selection(Seq::empty()),
            status: ExitStatus::Success,
            output: if version_requested {
                seq![version_text()]
            } else {
                Seq::empty()
            },
            errors: Seq::empty(),
        }
    }

    /// The run after a blocking call failed with `e`: it ends, and reports the
    /// failure.
    pub open spec fn failed(self, e: OperationError) -> SessionModel {
        SessionModel {
            pending: Action::Exit,
            status: ExitStatus::Failure,
            errors: self.errors.push(e.text()),
            ..self
        }
    }

    /// The run after the attempt to connect ended.
    pub open spec fn after_connected(self, result: Result<(), ConnectError>) -> SessionModel {
        if self.pending != Action::Connect {
            self
        } else {
            match result {
                Ok(()) => SessionModel { pending: Action::EnumerateSinks, ..self },
                Err(e) => self.failed(OperationError::ConnectError(e)),
            }
        }
    }

    /// The run after the request for the sinks came back. That the server
    /// could not deliver the list is reported, and the run goes on with the
    /// sinks that came.
    pub open spec fn after_enumerated(
        self,
        result: Result<Listing, OperationError>,
    ) -> SessionModel {
        if self.pending != Action::EnumerateSinks {
            self
        } else {
            match result {
                Ok(listing) => SessionModel {
                    pending: Action::QueryDefaultSink,
                    sinks: listing.sinks,
                    errors: if listing.failed {
                        self.errors.push(list_error_text())
                    } else {
                        self.errors
                    },
                    ..self
                },
                Err(e) => self.failed(e),
            }
        }
    }

    /// The default sink that the catalog is built with: the one that the
    /// server named, none where the call failed.
    pub open spec fn default_sink_of(
        answer: Result<Option<Seq<char>>, OperationError>,
    ) -> Option<Seq<char>> {
        match answer {
            Ok(name) => name,
            Err(_) => None,
        }
    }

    /// The run after the request for the default sink came back. The catalog
    /// is built; over an empty catalog the run ends, else the user chooses.
    pub open spec fn after_default_sink(
        self,
        answer: Result<Option<Seq<char>>, OperationError>,
    ) -> SessionModel {
        if self.pending != Action::QueryDefaultSink {
            self
        } else {
            let catalog = catalog_of(self.sinks, Self::default_sink_of(answer));
            let selection = initial_selection(catalog);
            SessionModel {
                pending: if selection.outcome is Pending {
                    Action::Select
                } else {
                    Action::Exit
                },
                catalog,
                selection,
                ..self
            }
        }
    }

    /// The run after the user left the selection as `selection`. A selection
    /// over another catalog, or one that is still pending, changes nothing.
    pub open spec fn after_selected(self, selection: Selection) -> SessionModel {
        if self.pending != Action::Select || !selection.wf() || selection.len
            != self.catalog.len() {
            self
        } else {
            match selection.outcome {
                Outcome::Pending => self,
                Outcome::Confirmed => SessionModel { pending: Action::Commit, selection, ..self },
                Outcome::Cancelled => SessionModel { pending: Action::Exit, selection, ..self },
            }
        }
    }

    /// The run after the commit came back. What the server rejected is
    /// reported; the switch is confirmed where it rejected nothing.
    pub open spec fn after_committed(
        self,
        result: Result<CommitReport, OperationError>,
    ) -> SessionModel {
        if self.pending != Action::Commit {
            self
        } else {
            match result {
                Ok(report) => SessionModel {
                    pending: Action::Exit,
                    output: if report.accepted() {
                        self.output.push(confirmation_text(self.chosen()))
                    } else {
                        self.output
                    },
                    errors: self.errors + rejection_texts(report, self.chosen()),
                    ..self
                },
                Err(e) => self.failed(e),
            }
        }
    }

    /// The run after `event`. An event that does not answer the pending step
    /// changes nothing.
    pub open spec fn after(self, event: Event) -> SessionModel {
        match event {
            Event::Connected(result) => self.after_connected(result),
            Event::Enumerated(result) => self.after_enumerated(result),
            Event::DefaultSink(answer) => self.after_default_sink(answer),
            Event::Selected(selection) => self.after_selected(selection),
            Event::Committed(result) => self.after_committed(result),
        }
    }

    /// The run after a sequence of events, one after the other.
    pub open spec fn after_all(self, events: Seq<Event>) -> SessionModel
        decreases events.len(),
    {
        if events.len() == 0 {
            self
        } else {
            self.after_all(events.drop_last()).after(events.last())
        }
    }
}

/// One run of the chooser.
pub struct Session {
    pending: Action,
    sinks: Vec<SinkInfo>,
    catalog: Vec<PaOutput>,
    selection: SelectionState,
    status: ExitStatus,
    output: Vec<String>,
    errors: Vec<String>,
}

impl View for Session {
    type V = SessionModel;

    closed spec fn view(&self) -> SessionModel {
        SessionModel {
            pending: self.pending,
            sinks: self.sinks.deep_view(),
            catalog: self.catalog.deep_view(),
            selection: self.selection@,
            status: self.status,
            output: self.output.deep_view(),
            errors: self.errors.deep_view(),
        }
    }
}

impl Session {
    #[verifier::type_invariant]
    spec fn inv(self) -> bool {
        self@.wf()
    }

    /// A run at its start.
    pub fn start(version_requested: bool) -> (session: Session)
        ensures
            session@ == SessionModel::started(version_requested),
    {
        let catalog: Vec<PaOutput> = Vec::new();
        let selection = SelectionState::new(&catalog);
        let mut output: Vec<String> = Vec::new();
        let errors: Vec<String> = Vec::new();
        let sinks: Vec<SinkInfo> = Vec::new();
        assert(catalog.deep_view() =~= Seq::<OutputTarget>::empty());
        assert(sinks.deep_view() =~= Seq::<Sink>::empty());
        assert(output.deep_view() =~= Seq::<Seq<char>>::empty());
        if version_requested {
            let line = String::from_str("pacc version 0.2.3");
            output.push(line);
            assert(output.deep_view() =~= seq![version_text()]);
            Session {
                pending: Action::Exit,
                sinks,
                catalog,
                selection,
                status: ExitStatus::Success,
                output,
                errors,
            }
        } else {
            Session {
                pending: Action::Connect,
                sinks,
                catalog,
                selection,
                status: ExitStatus::Success,
                output,
                errors,
            }
        }
    }

    /// Ends the run with the report of a blocking call that failed.
    fn fail(self, e: OperationError) -> (next: Session)
        ensures
            next@ == self@.failed(e),
    {
        let Session { pending: _, sinks, catalog, selection, status: _, output, mut errors } = self;
        let ghost shorter = errors.deep_view();
        let message = e.message();
        errors.push(message);
        assert(errors.deep_view() =~= shorter.push(e.text()));
        Session {
            pending: Action::Exit,
            sinks,
            catalog,
            selection,
            status: ExitStatus::Failure,
            output,
            errors,
        }
    }

    /// The step that the run waits for.
    pub fn action(&self) -> (action: Action)
        ensures
            action == self@.pending,
    {
        self.pending
    }

    /// Takes the end of the attempt to connect.
    pub fn connected(self, result: Result<(), ConnectError>) -> (next: Session)
        ensures
            next@ == self@.after_connected(result),
    {
        match self.pending {
            Action::Connect => match result {
                Ok(()) => {
                    let Session { pending: _, sinks, catalog, selection, status, output, errors } =
                        self;
                    Session {
                        pending: Action::EnumerateSinks,
                        sinks,
                        catalog,
                        selection,
                        status,
                        output,
                        errors,
                    }
                },
                Err(e) => self.fail(OperationError::ConnectError(e)),
            },
            _ => self,
        }
    }

    /// Takes the server's answer to the request for its sinks.
    pub fn enumerated(self, result: Result<SinkList, OperationError>) -> (next: Session)
        ensures
            next@ == self@.after_enumerated(
                match result {
                    Ok(list) => Ok(list@),
                    Err(e) => Err(e),
                },
            ),
    {
        match self.pending {
            Action::EnumerateSinks => match result {
                Ok(list) => {
                    let Session {
                        pending: _,
                        sinks: _,
                        catalog,
                        selection,
                        status,
                        output,
                        mut errors,
                    } = self;
                    if list.failed {
                        let ghost shorter = errors.deep_view();
                        let message = String::from_str("Error occurred while fetching sink list");
                        errors.push(message);
                        assert(errors.deep_view() =~= shorter.push(list_error_text()));
                    }
                    Session {
                        pending: Action::QueryDefaultSink,
                        sinks: list.sinks,
                        catalog,
                        selection,
                        status,
                        output,
                        errors,
                    }
                },
                Err(e) => self.fail(e),
            },
            _ => self,
        }
    }

    /// Takes the server's answer to the request for its default sink.
    pub fn default_sink(self, answer: Result<Option<String>, OperationError>) -> (next: Session)
        ensures
            next@ == self@.after_default_sink(
                match answer {
                    Ok(name) => Ok(name.deep_view()),
                    Err(e) => Err(e),
                },
            ),
    {
        match self.pending {
            Action::QueryDefaultSink => {
                let Session { pending: _, sinks, catalog: _, selection: _, status, output, errors } =
                    self;
                let name: Option<String> = match answer {
                    Ok(name) => name,
                    Err(_) => None,
                };
                let catalog = build_catalog(&sinks, &name);
                let selection = SelectionState::new(&catalog);
                proof {
                    law_initial_selection_wf(catalog.deep_view());
                }
                let pending = if selection.is_pending() {
                    Action::Select
                } else {
                    Action::Exit
                };
                Session { pending, sinks, catalog, selection, status, output, errors }
            },
            _ => self,
        }
    }

    /// Takes the selection as the user left it.
    pub fn selected(self, selection: SelectionState) -> (next: Session)
        ensures
            next@ == self@.after_selected(selection@),
    {
        match self.pending {
            Action::Select => {
                let outcome = selection.outcome();
                if selection.len() != self.catalog.len() {
                    self
                } else {
                    match outcome {
                        Outcome::Pending => self,
                        Outcome::Confirmed => {
                            let Session {
                                pending: _,
                                sinks,
                                catalog,
                                selection: _,
                                status,
                                output,
                                errors,
                            } = self;
                            Session {
                                pending: Action::Commit,
                                sinks,
                                catalog,
                                selection,
                                status,
                                output,
                                errors,
                            }
                        },
                        Outcome::Cancelled => {
                            let Session {
                                pending: _,
                                sinks,
                                catalog,
                                selection: _,
                                status,
                                output,
                                errors,
                            } = self;
                            Session {
                                pending: Action::Exit,
                                sinks,
                                catalog,
                                selection,
                                status,
                                output,
                                errors,
                            }
                        },
                    }
                }
            },
            _ => self,
        }
    }

    /// Takes the end of the commit.
    pub fn committed(self, result: Result<CommitReport, OperationError>) -> (next: Session)
        ensures
            next@ == self@.after_committed(result),
    {
        proof {
            use_type_invariant(&self);
        }
        match self.pending {
            Action::Commit => match result {
                Ok(report) => {
                    let Session {
                        pending: _,
                        sinks,
                        catalog,
                        selection,
                        status,
                        mut output,
                        mut errors,
                    } = self;
                    match selection.highlighted_index() {
                        Some(i) => {
                            let target = &catalog[i];
                            if report.is_accepted() {
                                let ghost shorter = output.deep_view();
                                let line = confirmation_line(target);
                                output.push(line);
                                assert(output.deep_view() =~= shorter.push(
                                    confirmation_text(target@),
                                ));
                            }
                            let ghost before = errors.deep_view();
                            let mut messages = rejection_messages(&report, target);
                            let ghost added = messages.deep_view();
                            errors.append(&mut messages);
                            assert(errors.deep_view() =~= before + added);
                        },
                        None => {},
                    }
                    Session {
                        pending: Action::Exit,
                        sinks,
                        catalog,
                        selection,
                        status,
                        output,
                        errors,
                    }
                },
                Err(e) => self.fail(e),
            },
            _ => self,
        }
    }

    /// The catalog that the user chooses from.
    pub fn catalog(&self) -> (catalog: &Vec<PaOutput>)
        ensures
            catalog.deep_view() == self@.catalog,
    {
        &self.catalog
    }

    /// The selection over the catalog: while the user is to choose, the one
    /// that the chooser starts with.
    pub fn selection(&self) -> (selection: SelectionState)
        ensures
            selection@ == self@.selection,
    {
        self.selection
    }

    /// The target that is to be applied, while the run waits for the commit.
    pub fn target(&self) -> (target: Option<&PaOutput>)
        ensures
            self@.wf(),
            match target {
                Some(t) => self@.pending is Commit && t@ == self@.chosen(),
                None => !(self@.pending is Commit),
            },
    {
        proof {
            use_type_invariant(self);
        }
        match self.pending {
            Action::Commit => match self.selection.highlighted_index() {
                Some(i) => {
                    let target = &self.catalog[i];
                    Some(target)
                },
                None => None,
            },
            _ => None,
        }
    }

    /// How the run ended, once it has.
    pub fn status(&self) -> (status: ExitStatus)
        ensures
            status == self@.status,
    {
        self.status
    }

    /// The lines for the output stream.
    pub fn output(&self) -> (lines: &Vec<String>)
        ensures
            lines.deep_view() == self@.output,
    {
        &self.output
    }

    /// The lines for the error stream.
    pub fn errors(&self) -> (lines: &Vec<String>)
        ensures
            lines.deep_view() == self@.errors,
    {
        &self.errors
    }
}

/// A request for the version ends the run at once: the version line is all
/// that the run prints, and nothing was asked of the audio server.
pub proof fn law_version_request_exits_at_once()
    ensures
        SessionModel::started(true).pending is Exit,
        SessionModel::started(true).status is Success,
        SessionModel::started(true).output == seq![version_text()],
        SessionModel::started(true).errors.len() == 0,
        SessionModel::started(true).wf(),
        SessionModel::started(false).pending is Connect,
        SessionModel::started(false).wf(),
{
}

/// Every event keeps a well-formed run well-formed.
pub proof fn law_run_stays_well_formed(s: SessionModel, event: Event)
    requires
        s.wf(),
    ensures
        s.after(event).wf(),
{
    match event {
        Event::DefaultSink(answer) => {
            law_initial_selection_wf(catalog_of(s.sinks, SessionModel::default_sink_of(answer)));
        },
        _ => {},
    }
}

/// A run that waits for its exit stays as it is, whatever is handed to it.
pub proof fn law_exit_is_final(s: SessionModel, events: Seq<Event>)
    requires
        s.pending is Exit,
    ensures
        s.after_all(events) == s,
    decreases events.len(),
{
    if events.len() > 0 {
        law_exit_is_final(s, events.drop_last());
    }
}

/// How far a run has come when it waits for `action`.
pub open spec fn progress(action: Action) -> nat {
    match action {
        Action::Connect => 0,
        Action::EnumerateSinks => 1,
        Action::QueryDefaultSink => 2,
        Action::Select => 3,
        Action::Commit => 4,
        Action::Exit => 5,
    }
}

/// A run never goes back: an event either changes nothing or brings the run
/// further. So no step but the choice is asked for twice.
pub proof fn law_run_moves_forward(s: SessionModel, event: Event)
    ensures
        s.after(event) == s || progress(s.after(event).pending) > progress(s.pending),
{
}

/// A call that fails while the run waits for it ends the run as a failure,
/// with the call's message as one more line on the error stream.
pub proof fn law_bridge_failure_is_fatal(s: SessionModel, e: OperationError)
    ensures
        s.pending is EnumerateSinks ==> s.after(Event::Enumerated(Err(e))) == s.failed(e),
        s.pending is Commit ==> s.after(Event::Committed(Err(e))) == s.failed(e),
        s.failed(e).pending is Exit,
        s.failed(e).status is Failure,
        s.failed(e).status.exit_code() != 0,
        s.failed(e).errors == s.errors.push(e.text()),
        s.failed(e).output == s.output,
{
}

/// Where the connection cannot be made, the run ends with exactly one line
/// on the error stream, and whatever is handed to it afterwards, it never
/// asks for the sinks.
pub proof fn law_connect_failure_is_fatal(e: ConnectError, later: Seq<Event>)
    ensures
        ({
            let s = SessionModel::started(false).after(Event::Connected(Err(e))).after_all(later);
            &&& s.pending is Exit
            &&& s.status is Failure
            &&& s.errors == seq![e.text()]
            &&& s.output.len() == 0
        }),
{
    let failed = SessionModel::started(false).after(Event::Connected(Err(e)));
    law_exit_is_final(failed, later);
}

/// The run comes to ask for the sinks in one way only: the connection became
/// ready.
pub proof fn law_enumeration_follows_connection(s: SessionModel, event: Event)
    requires
        !(s.pending is EnumerateSinks),
        s.after(event).pending is EnumerateSinks,
    ensures
        s.pending is Connect,
        event matches Event::Connected(Ok(_)),
{
}

/// That the default sink could not be asked for does not end the run: the
/// catalog is built with no target active.
pub proof fn law_default_sink_failure_is_not_fatal(s: SessionModel, e: OperationError)
    requires
        s.pending is QueryDefaultSink,
    ensures
        s.after(Event::DefaultSink(Err(e))) == s.after(Event::DefaultSink(Ok(None))),
        s.after(Event::DefaultSink(Err(e))).catalog == catalog_of(s.sinks, None),
        s.after(Event::DefaultSink(Err(e))).status == s.status,
        s.after(Event::DefaultSink(Err(e))).errors == s.errors,
{
}

/// A cancelled choice ends the run without a word and without a failure; a
/// confirmed one is applied.
pub proof fn law_selection_decides(s: SessionModel, selection: Selection)
    requires
        s.pending is Select,
        selection.wf(),
        selection.len == s.catalog.len(),
    ensures
        selection.outcome is Cancelled ==> s.after(Event::Selected(selection)).pending is Exit
            && s.after(Event::Selected(selection)).status == s.status && s.after(
            Event::Selected(selection),
        ).output == s.output && s.after(Event::Selected(selection)).errors == s.errors,
        selection.outcome is Confirmed ==> s.after(Event::Selected(selection)).pending is Commit
            && s.after(Event::Selected(selection)).chosen() == s.catalog[selection.highlighted->0 as int],
        selection.outcome is Pending ==> s.after(Event::Selected(selection)) == s,
{
}

} // verus!
