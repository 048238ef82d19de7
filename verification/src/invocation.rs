//! One formatting run as a state machine.
//!
//! A run starts in [`State::NotStarted`]. The caller does the outside work that the
//! current state asks for (start the tool, wait for it), reports what happened as an
//! [`Event`], and [`step`] decides where the run stands next. The run is over in
//! [`State::Classified`], which holds its result.

use crate::error::{result_view, Error, ErrorView};
use crate::stream::{text_of, IoStream};
use std::path::PathBuf;
use vstd::prelude::*;

verus! {

/// The name of the formatting tool that is looked up on the toolchain.
pub const TOOL_NAME: &'static str = "rustfmt";

/// What is known of a process that has terminated.
#[derive(Debug)]
pub struct ExitReport {
    /// The exit code, if the process ended with one.
    pub code: Option<i32>,
    /// Everything the process wrote to its standard output.
    pub stdout: Vec<u8>,
    /// Everything the process wrote to its standard error.
    pub stderr: Vec<u8>,
}

/// The mathematical content of an [`ExitReport`].
pub ghost struct ExitReportView {
    pub code: Option<i32>,
    pub stdout: Seq<u8>,
    pub stderr: Seq<u8>,
}

impl View for ExitReport {
    type V = ExitReportView;

    open spec fn view(&self) -> ExitReportView {
        ExitReportView { code: self.code, stdout: self.stdout@, stderr: self.stderr@ }
    }
}

/// Where a run stands.
#[derive(Debug)]
pub enum State {
    /// Nothing has happened yet: the tool is to be looked up.
    NotStarted,
    /// The tool was found at this path: it is to be started on the target file.
    ToolResolved(PathBuf),
    /// The tool is running: its end is to be waited for.
    ProcessSpawned,
    /// The tool has terminated: its exit is to be classified.
    ProcessExited(ExitReport),
    /// The run is over, with this result.
    Classified(Result<(), Error>),
}

/// The mathematical content of a [`State`].
pub ghost enum StateView {
    NotStarted,
    ToolResolved(PathBuf),
    ProcessSpawned,
    ProcessExited(ExitReportView),
    Classified(Result<(), ErrorView>),
}

impl View for State {
    type V = StateView;

    open spec fn view(&self) -> StateView {
        match self {
            State::NotStarted => StateView::NotStarted,
            State::ToolResolved(tool) => StateView::ToolResolved(*tool),
            State::ProcessSpawned => StateView::ProcessSpawned,
            State::ProcessExited(report) => StateView::ProcessExited(report@),
            State::Classified(result) => StateView::Classified(result_view(*result)),
        }
    }
}

/// What the caller reports to a run.
#[derive(Debug)]
pub enum Event {
    /// The tool was looked up, with this result.
    Located(Option<PathBuf>),
    /// The tool was started.
    Spawned,
    /// The tool has terminated.
    Exited(ExitReport),
    /// Starting the tool, or waiting for it, failed in the operating system.
    Failed(std::io::Error),
    /// Nothing happened outside: the run is to go on by itself.
    Proceed,
}

/// The mathematical content of an [`Event`].
pub ghost enum EventView {
    Located(Option<PathBuf>),
    Spawned,
    Exited(ExitReportView),
    Failed(std::io::Error),
    Proceed,
}

impl View for Event {
    type V = EventView;

    open spec fn view(&self) -> EventView {
        match self {
            Event::Located(found) => EventView::Located(*found),
            Event::Spawned => EventView::Spawned,
            Event::Exited(report) => EventView::Exited(report@),
            Event::Failed(cause) => EventView::Failed(*cause),
            Event::Proceed => EventView::Proceed,
        }
    }
}

/// How far a run has come: states are numbered in the order in which a run passes
/// them.
pub open spec fn progress(state: StateView) -> nat {
    match state {
        StateView::NotStarted => 0,
        StateView::ToolResolved(_) => 1,
        StateView::ProcessSpawned => 2,
        StateView::ProcessExited(_) => 3,
        StateView::Classified(_) => 4,
    }
}

/// The result of looking the tool `name` up: the run goes on with the path that
/// was found, and ends with [`Error::ToolMissing`] where none was.
pub open spec fn resolved(name: Seq<char>, found: Option<PathBuf>) -> StateView {
    match found {
        Some(tool) => StateView::ToolResolved(tool),
        None => StateView::Classified(Err(ErrorView::ToolMissing(name))),
    }
}

/// The result of a run whose process has terminated with `report`.
pub open spec fn classified(report: ExitReportView) -> Result<(), ErrorView> {
    match report.code {
        None => Err(ErrorView::NoResultCode),
        Some(code) => if code == 0 {
            Ok(())
        } else {
            Err(
                ErrorView::ToolExecutionError {
                    code,
                    stdout: text_of(report.stdout),
                    stderr: text_of(report.stderr),
                },
            )
        },
    }
}

/// Whether a run in `state` is waiting for `event`.
pub open spec fn awaits(state: StateView, event: EventView) -> bool {
    match (state, event) {
        (StateView::NotStarted, EventView::Located(_)) => true,
        (StateView::ToolResolved(_), EventView::Spawned) => true,
        (StateView::ToolResolved(_), EventView::Failed(_)) => true,
        (StateView::ProcessSpawned, EventView::Exited(_)) => true,
        (StateView::ProcessSpawned, EventView::Failed(_)) => true,
        (StateView::ProcessExited(_), EventView::Proceed) => true,
        _ => false,
    }
}

/// The state that follows `state` on `event`. An event that the state does not
/// wait for changes nothing.
pub open spec fn next_state(state: StateView, event: EventView) -> StateView {
    match (state, event) {
        (StateView::NotStarted, EventView::Located(found)) => resolved(TOOL_NAME@, found),
        (StateView::ToolResolved(_), EventView::Spawned) => StateView::ProcessSpawned,
        (StateView::ToolResolved(_), EventView::Failed(cause)) => StateView::Classified(
            Err(ErrorView::IoError(cause)),
        ),
        (StateView::ProcessSpawned, EventView::Exited(report)) => StateView::ProcessExited(report),
        (StateView::ProcessSpawned, EventView::Failed(cause)) => StateView::Classified(
            Err(ErrorView::IoError(cause)),
        ),
        (StateView::ProcessExited(report), EventView::Proceed) => StateView::Classified(
            classified(report),
        ),
        _ => state,
    }
}

/// Decides how a run goes on once the tool `name` was looked up: with the path that
/// was found, or not at all.
pub fn resolve(name: &'static str, found: Option<PathBuf>) -> (next: State)
    ensures
        next@ == resolved(name@, found),
        found is None ==> next@ == StateView::Classified(Err(ErrorView::ToolMissing(name@))),
        found is None ==> !(next is ToolResolved),
{
    match found {
        Some(tool) => State::ToolResolved(tool),
        None => State::Classified(Err(Error::ToolMissing(name))),
    }
}

/// Classifies the exit of the tool: success on exit code zero, the code and both
/// captured streams on any other code, and [`Error::NoResultCode`] where the
/// process ended without a code.
pub fn classify(report: ExitReport) -> (result: Result<(), Error>)
    ensures
        result_view(result) == classified(report@),
        match report.code {
            None => result matches Err(Error::NoResultCode),
            Some(exit) => if exit == 0 {
                result is Ok
            } else {
                result matches Err(Error::ToolExecutionError { code, stdout, stderr }) && code
                    == exit && stdout@ == text_of(report.stdout@) && stderr@ == text_of(
                    report.stderr@,
                )
            },
        },
{
    match report.code {
        None => Err(Error::NoResultCode),
        Some(code) => {
            if code == 0 {
                Ok(())
            } else {
                Err(
                    Error::ToolExecutionError {
                        code,
                        stdout: IoStream::from_bytes(report.stdout),
                        stderr: IoStream::from_bytes(report.stderr),
                    },
                )
            }
        },
    }
}

/// Moves a run from `state` on `event`.
pub fn step(state: State, event: Event) -> (next: State)
    ensures
        next@ == next_state(state@, event@),
        progress(next@) >= progress(state@),
{
    match (state, event) {
        (State::NotStarted, Event::Located(found)) => resolve(TOOL_NAME, found),
        (State::ToolResolved(_), Event::Spawned) => State::ProcessSpawned,
        (State::ToolResolved(_), Event::Failed(cause)) => State::Classified(
            Err(Error::IoError(cause)),
        ),
        (State::ProcessSpawned, Event::Exited(report)) => State::ProcessExited(report),
        (State::ProcessSpawned, Event::Failed(cause)) => State::Classified(
            Err(Error::IoError(cause)),
        ),
        (State::ProcessExited(report), Event::Proceed) => State::Classified(classify(report)),
        (state, _) => state,
    }
}

/// Starts a run: looks the formatting tool up on the installed toolchains and
/// decides from what was found. The run goes on with the tool's path, or is over
/// with [`Error::ToolMissing`], which names the tool.
pub fn begin() -> (next: State)
    ensures
        next is ToolResolved || next@ == StateView::Classified(
            Err(ErrorView::ToolMissing(TOOL_NAME@)),
        ),
{
    let found = toolchain_find::find_installed_component(TOOL_NAME);
    step(State::NotStarted, Event::Located(found))
}

/// Where a run stands after `events` have been reported to it one after another,
/// starting from `state`.
pub open spec fn run(state: StateView, events: Seq<EventView>) -> StateView
    decreases events.len(),
{
    if events.len() == 0 {
        state
    } else {
        run(next_state(state, events[0]), events.drop_first())
    }
}

/// An event that the run waits for moves it strictly forward; any other event
/// leaves it exactly where it is.
pub proof fn lemma_step_moves_forward(state: StateView, event: EventView)
    ensures
        awaits(state, event) ==> progress(next_state(state, event)) > progress(state),
        !awaits(state, event) ==> next_state(state, event) == state,
{
}

/// No run re-enters an earlier state, whatever is reported to it and in whatever
/// order.
pub proof fn lemma_run_never_goes_back(state: StateView, events: Seq<EventView>)
    ensures
        progress(run(state, events)) >= progress(state),
    decreases events.len(),
{
    if events.len() > 0 {
        lemma_step_moves_forward(state, events[0]);
        lemma_run_never_goes_back(next_state(state, events[0]), events.drop_first());
    }
}

/// A run that is over stays over and keeps its result.
pub proof fn lemma_classified_is_final(state: StateView, events: Seq<EventView>)
    requires
        state is Classified,
    ensures
        run(state, events) == state,
    decreases events.len(),
{
    if events.len() > 0 {
        lemma_classified_is_final(state, events.drop_first());
    }
}

/// Where the tool is not found, the run is over at once with an error that names
/// the tool, and nothing reported afterwards brings it to a state in which a
/// process is started or running.
pub proof fn lemma_missing_tool_starts_nothing(events: Seq<EventView>)
    requires
        events.len() > 0,
        events[0] == EventView::Located(None),
    ensures
        run(StateView::NotStarted, events) == StateView::Classified(
            Err(ErrorView::ToolMissing(TOOL_NAME@)),
        ),
{
    lemma_classified_is_final(
        next_state(StateView::NotStarted, events[0]),
        events.drop_first(),
    );
}

/// A run whose process has terminated succeeds exactly on exit code zero. On any
/// other code it fails with a tool execution error that carries that code and what
/// both captured streams read as; without a code it fails with no result code.
pub proof fn lemma_exit_decides_result(report: ExitReportView)
    ensures
        classified(report) is Ok <==> report.code == Some(0i32),
        classified(report) == Err::<(), ErrorView>(ErrorView::NoResultCode)
            <==> report.code is None,
        classified(report) matches Err(ErrorView::ToolExecutionError { code, stdout, stderr })
            ==> code != 0 && report.code == Some(code) && stdout == text_of(report.stdout)
            && stderr == text_of(report.stderr),
        classified(report) is Err && report.code is Some ==> classified(report) matches Err(
            ErrorView::ToolExecutionError { .. },
        ),
{
}

/// What a run comes to when everything is reported in turn: with the tool found
/// and started, the result is the one that the exit report is classified as; where
/// starting the tool or waiting for it fails, the result is that I/O error.
pub proof fn lemma_run_outcomes(tool: PathBuf, report: ExitReportView, cause: std::io::Error)
    ensures
        run(
            StateView::NotStarted,
            seq![
                EventView::Located(Some(tool)),
                EventView::Spawned,
                EventView::Exited(report),
                EventView::Proceed,
            ],
        ) == StateView::Classified(classified(report)),
        run(
            StateView::NotStarted,
            seq![EventView::Located(Some(tool)), EventView::Failed(cause)],
        ) == StateView::Classified(Err(ErrorView::IoError(cause))),
        run(
            StateView::NotStarted,
            seq![EventView::Located(Some(tool)), EventView::Spawned, EventView::Failed(cause)],
        ) == StateView::Classified(Err(ErrorView::IoError(cause))),
{
    reveal_with_fuel(run, 5);
}

} // verus!
