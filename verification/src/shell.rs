//! The interactive shell as a machine.
//!
//! The shell itself neither reads nor writes. Each step names the text to
//! print and the one thing to do next; what comes of doing it is handed
//! back as the next event.

use vstd::prelude::*;
use crate::flatten::{export_text, flatten_releases};
use crate::input::{trim_line, trimmed};
use crate::release::{Release, ReleaseView};
use crate::request::{releases_request, request_for, FetchRequest, FetchRequestView};

verus! {

/// Where the shell stands between two steps.
#[derive(Debug, PartialEq, Eq)]
pub enum ShellState {
    /// The menu was shown; a command is awaited.
    AwaitingCommand,
    /// An export was chosen; the name of the repository is awaited.
    AwaitingRepoName,
    /// The owner of the repository is awaited.
    AwaitingRepoOwner { repo_name: String },
    /// The access token is awaited.
    AwaitingToken { repo_name: String, repo_owner: String },
    /// The request is under way.
    Fetching,
    /// The export is made; the path of the file is awaited.
    AwaitingPath { csv_data: String },
    /// The file is being written.
    Writing,
    /// The shell has ended.
    Exited,
}

/// A state as texts.
pub enum ShellStateView {
    AwaitingCommand,
    AwaitingRepoName,
    AwaitingRepoOwner { repo_name: Seq<char> },
    AwaitingToken { repo_name: Seq<char>, repo_owner: Seq<char> },
    Fetching,
    AwaitingPath { csv_data: Seq<char> },
    Writing,
    Exited,
}

impl View for ShellState {
    type V = ShellStateView;

    open spec fn view(&self) -> ShellStateView {
        match *self {
            ShellState::AwaitingCommand => ShellStateView::AwaitingCommand,
            ShellState::AwaitingRepoName => ShellStateView::AwaitingRepoName,
            ShellState::AwaitingRepoOwner { repo_name } => ShellStateView::AwaitingRepoOwner {
                repo_name: repo_name@,
            },
            ShellState::AwaitingToken { repo_name, repo_owner } => ShellStateView::AwaitingToken {
                repo_name: repo_name@,
                repo_owner: repo_owner@,
            },
            ShellState::Fetching => ShellStateView::Fetching,
            ShellState::AwaitingPath { csv_data } => ShellStateView::AwaitingPath {
                csv_data: csv_data@,
            },
            ShellState::Writing => ShellStateView::Writing,
            ShellState::Exited => ShellStateView::Exited,
        }
    }
}

/// What came of the last thing the shell asked for.
#[derive(Debug)]
pub enum Event {
    /// A line of input, without the white space at either end.
    Line(String),
    /// The request was answered with these releases.
    Fetched(Vec<Release>),
    /// The request failed; the text describes the failure.
    FetchFailed(String),
    /// The file was written.
    Written,
}

/// An event as texts.
pub enum EventView {
    Line(Seq<char>),
    Fetched(Seq<ReleaseView>),
    FetchFailed(Seq<char>),
    Written,
}

impl View for Event {
    type V = EventView;

    open spec fn view(&self) -> EventView {
        match *self {
            Event::Line(line) => EventView::Line(line@),
            Event::Fetched(releases) => EventView::Fetched(releases.deep_view()),
            Event::FetchFailed(diagnostic) => EventView::FetchFailed(diagnostic@),
            Event::Written => EventView::Written,
        }
    }
}

/// The one thing to do after a step.
#[derive(Debug, PartialEq, Eq)]
pub enum Effect {
    /// Read one line of input.
    ReadLine,
    /// Send the request.
    Fetch(FetchRequest),
    /// Create the file at `path`, or empty the one that is there, and
    /// write `contents` to it.
    WriteFile { path: String, contents: String },
    /// End the program.
    Exit,
}

/// An effect as texts.
pub enum EffectView {
    ReadLine,
    Fetch(FetchRequestView),
    WriteFile { path: Seq<char>, contents: Seq<char> },
    Exit,
}

impl View for Effect {
    type V = EffectView;

    open spec fn view(&self) -> EffectView {
        match *self {
            Effect::ReadLine => EffectView::ReadLine,
            Effect::Fetch(request) => EffectView::Fetch(request@),
            Effect::WriteFile { path, contents } => EffectView::WriteFile {
                path: path@,
                contents: contents@,
            },
            Effect::Exit => EffectView::Exit,
        }
    }
}

/// One step of the shell: the state it leads to, the text to print, and
/// what to do once that text is printed.
#[derive(Debug, PartialEq, Eq)]
pub struct Step {
    pub state: ShellState,
    pub output: String,
    pub effect: Effect,
}

/// A step as texts.
pub struct StepView {
    pub state: ShellStateView,
    pub output: Seq<char>,
    pub effect: EffectView,
}

impl View for Step {
    type V = StepView;

    open spec fn view(&self) -> StepView {
        StepView { state: self.state@, output: self.output@, effect: self.effect@ }
    }
}

/// The greeting, printed once.
pub open spec fn banner_text() -> Seq<char> {
    "********************************************* GitHub SOX *******************************************\nWelcome to Github tool. This tool is designed to get information from Github repositories.\n\n"@
}

/// The menu, printed whenever a command is awaited.
pub open spec fn menu_text() -> Seq<char> {
    "\nAvailable commands:\n1. Export all releases to CSV format.\n2. Exit\n"@
}

/// The line that closes an export, whether it was written or not.
pub open spec fn closing_text() -> Seq<char> {
    "Exporting all releases to CSV format...\n"@
}

/// The step that opens the shell: greeting and menu, then a command is
/// read.
pub open spec fn start_model() -> StepView {
    StepView {
        state: ShellStateView::AwaitingCommand,
        output: banner_text() + menu_text(),
        effect: EffectView::ReadLine,
    }
}

/// The step that answers the command `line`: `1` opens an export, `2`
/// ends the shell, and anything else is refused and the menu shown again.
pub open spec fn command_model(line: Seq<char>) -> StepView {
    if line == "1"@ {
        StepView {
            state: ShellStateView::AwaitingRepoName,
            output: "Enter Repository name: "@,
            effect: EffectView::ReadLine,
        }
    } else if line == "2"@ {
        StepView {
            state: ShellStateView::Exited,
            output: "Exiting...\n"@,
            effect: EffectView::Exit,
        }
    } else {
        StepView {
            state: ShellStateView::AwaitingCommand,
            output: "Invalid command\n"@ + menu_text(),
            effect: EffectView::ReadLine,
        }
    }
}

/// The step that `event` causes in `state`, or `None` where the event is
/// not the answer to what the state waits for.
///
/// An export asks for the name of the repository, its owner and the
/// token, one line each, and sends the request. Releases that come back
/// are flattened, a path is asked for, and the export is written there,
/// empty or not. A failed request is reported and nothing is written.
/// Either way the closing line and the menu follow.
pub open spec fn step_model(state: ShellStateView, event: EventView) -> Option<StepView> {
    match (state, event) {
        (ShellStateView::AwaitingCommand, EventView::Line(line)) => Some(command_model(line)),
        (ShellStateView::AwaitingRepoName, EventView::Line(line)) => Some(
            StepView {
                state: ShellStateView::AwaitingRepoOwner { repo_name: line },
                output: "Enter Repository owner: "@,
                effect: EffectView::ReadLine,
            },
        ),
        (ShellStateView::AwaitingRepoOwner { repo_name }, EventView::Line(line)) => Some(
            StepView {
                state: ShellStateView::AwaitingToken { repo_name, repo_owner: line },
                output: "Enter Github fine-grainded access token: "@,
                effect: EffectView::ReadLine,
            },
        ),
        (ShellStateView::AwaitingToken { repo_name, repo_owner }, EventView::Line(line)) => Some(
            StepView {
                state: ShellStateView::Fetching,
                output: Seq::empty(),
                effect: EffectView::Fetch(request_for(repo_name, repo_owner, line)),
            },
        ),
        (ShellStateView::Fetching, EventView::Fetched(releases)) => Some(
            StepView {
                state: ShellStateView::AwaitingPath { csv_data: export_text(releases) },
                output: "Export is done. Enter the path to save the file: "@,
                effect: EffectView::ReadLine,
            },
        ),
        (ShellStateView::Fetching, EventView::FetchFailed(diagnostic)) => Some(
            StepView {
                state: ShellStateView::AwaitingCommand,
                output: diagnostic + closing_text() + menu_text(),
                effect: EffectView::ReadLine,
            },
        ),
        (ShellStateView::AwaitingPath { csv_data }, EventView::Line(line)) => Some(
            StepView {
                state: ShellStateView::Writing,
                output: Seq::empty(),
                effect: EffectView::WriteFile { path: line, contents: csv_data },
            },
        ),
        (ShellStateView::Writing, EventView::Written) => Some(
            StepView {
                state: ShellStateView::AwaitingCommand,
                output: closing_text() + menu_text(),
                effect: EffectView::ReadLine,
            },
        ),
        _ => None,
    }
}

/// The views of an optional step.
pub open spec fn step_view(step: Option<Step>) -> Option<StepView> {
    match step {
        Some(step) => Some(step@),
        None => None,
    }
}

/// A failed request never leads to a write: whatever the state, the step
/// that answers it, where there is one, asks for a line of input, shows
/// the menu again and keeps no export.
pub proof fn lemma_fetch_failure_writes_nothing(state: ShellStateView, diagnostic: Seq<char>)
    ensures
        step_model(state, EventView::FetchFailed(diagnostic)) matches Some(step) ==> {
            &&& state is Fetching
            &&& step.effect is ReadLine
            &&& step.state is AwaitingCommand
        },
{
}

/// A write is asked for only in answer to the line that gives the path,
/// and what is written is the export that the state holds.
pub proof fn lemma_write_follows_path(state: ShellStateView, event: EventView)
    ensures
        step_model(state, event) matches Some(step) ==> (step.effect matches EffectView::WriteFile {
            path,
            contents,
        } ==> {
            &&& state matches ShellStateView::AwaitingPath { csv_data }
            &&& event == EventView::Line(path)
            &&& contents == csv_data
        }),
{
}

/// A state holds an export only after releases came back, and the export
/// it holds is the export of those releases.
pub proof fn lemma_path_follows_fetch(state: ShellStateView, event: EventView)
    ensures
        step_model(state, event) matches Some(step) ==> (
        step.state matches ShellStateView::AwaitingPath { csv_data } ==> {
            &&& state is Fetching
            &&& event matches EventView::Fetched(releases)
            &&& csv_data == export_text(releases)
        }),
{
}

/// Whether none of the steps that `events` cause one after another,
/// from `state` on, asks for a write. The steps end with the first event
/// that is no answer to the state reached.
pub open spec fn writes_nothing(state: ShellStateView, events: Seq<EventView>) -> bool
    decreases events.len(),
{
    events.len() == 0 || match step_model(state, events.first()) {
        Some(step) => !(step.effect is WriteFile) && writes_nothing(
            step.state,
            events.drop_first(),
        ),
        None => true,
    }
}

/// Without releases nothing is written: from a state that holds no
/// export, events among which no releases come back lead to no write,
/// however many they are. So it is after a failed request.
pub proof fn lemma_no_write_without_releases(state: ShellStateView, events: Seq<EventView>)
    requires
        !(state is AwaitingPath),
        forall|i: int| 0 <= i < events.len() ==> !(#[trigger] events[i] is Fetched),
    ensures
        writes_nothing(state, events),
    decreases events.len(),
{
    if events.len() > 0 {
        let rest = events.drop_first();
        assert forall|i: int| 0 <= i < rest.len() implies !(#[trigger] rest[i] is Fetched) by {
            assert(rest[i] == events[i + 1]);
        }
        match step_model(state, events.first()) {
            Some(step) => {
                lemma_write_follows_path(state, events.first());
                lemma_path_follows_fetch(state, events.first());
                lemma_no_write_without_releases(step.state, rest);
            },
            None => {},
        }
    }
}

/// Releases that came back are always written, also where there are
/// none: the path is asked for, and the line that gives it leads to a
/// write of the export, which for no releases is empty.
pub proof fn lemma_fetched_is_written(releases: Seq<ReleaseView>, path: Seq<char>)
    ensures
        ({
            let asked = step_model(ShellStateView::Fetching, EventView::Fetched(releases));
            &&& asked is Some
            &&& asked->0.effect is ReadLine
            &&& step_model(asked->0.state, EventView::Line(path)) == Some(
                StepView {
                    state: ShellStateView::Writing,
                    output: Seq::empty(),
                    effect: EffectView::WriteFile { path, contents: export_text(releases) },
                },
            )
        }),
        releases.len() == 0 ==> export_text(releases) == Seq::<char>::empty(),
{
}

/// The event for a line of input as it was read: the line without the
/// white space at either end.
pub fn line_event(raw: &str) -> (event: Event)
    ensures
        event@ == EventView::Line(trimmed(raw@)),
{
    Event::Line(trim_line(raw))
}

/// The menu.
fn menu() -> (text: &'static str)
    ensures
        text@ == menu_text(),
{
    "\nAvailable commands:\n1. Export all releases to CSV format.\n2. Exit\n"
}

/// The line that closes an export.
fn closing() -> (text: &'static str)
    ensures
        text@ == closing_text(),
{
    "Exporting all releases to CSV format...\n"
}

/// A step that prints `output` and then reads a line.
fn ask(state: ShellState, output: String) -> (step: Step)
    ensures
        step@ == (StepView { state: state@, output: output@, effect: EffectView::ReadLine }),
{
    Step { state, output, effect: Effect::ReadLine }
}

/// The step that opens the shell.
pub fn start() -> (step: Step)
    ensures
        step@ == start_model(),
{
    let mut output = String::from_str(
        "********************************************* GitHub SOX *******************************************\nWelcome to Github tool. This tool is designed to get information from Github repositories.\n\n",
    );
    output.append(menu());
    ask(ShellState::AwaitingCommand, output)
}

/// The step that answers a command.
fn command(line: String) -> (step: Step)
    ensures
        step@ == command_model(line@),
{
    if line == String::from_str("1") {
        ask(ShellState::AwaitingRepoName, String::from_str("Enter Repository name: "))
    } else if line == String::from_str("2") {
        Step {
            state: ShellState::Exited,
            output: String::from_str("Exiting...\n"),
            effect: Effect::Exit,
        }
    } else {
        let mut output = String::from_str("Invalid command\n");
        output.append(menu());
        ask(ShellState::AwaitingCommand, output)
    }
}

/// The step that `event` causes in `state`. There is none where the
/// event is not the answer to what the state waits for: a line in every
/// state that awaits one, the outcome of the request while it is under
/// way, the end of the write while the file is written, and nothing
/// once the shell has ended.
pub fn step(state: ShellState, event: Event) -> (next: Option<Step>)
    ensures
        step_view(next) == step_model(state@, event@),
{
    match (state, event) {
        (ShellState::AwaitingCommand, Event::Line(line)) => Some(command(line)),
        (ShellState::AwaitingRepoName, Event::Line(line)) => Some(
            ask(
                ShellState::AwaitingRepoOwner { repo_name: line },
                String::from_str("Enter Repository owner: "),
            ),
        ),
        (ShellState::AwaitingRepoOwner { repo_name }, Event::Line(line)) => Some(
            ask(
                ShellState::AwaitingToken { repo_name, repo_owner: line },
                String::from_str("Enter Github fine-grainded access token: "),
            ),
        ),
        (ShellState::AwaitingToken { repo_name, repo_owner }, Event::Line(line)) => {
            let request = releases_request(repo_name.as_str(), repo_owner.as_str(), line.as_str());
            Some(Step { state: ShellState::Fetching, output: String::new(), effect: Effect::Fetch(request) })
        },
        (ShellState::Fetching, Event::Fetched(releases)) => {
            let csv_data = flatten_releases(&releases);
            Some(
                ask(
                    ShellState::AwaitingPath { csv_data },
                    String::from_str("Export is done. Enter the path to save the file: "),
                ),
            )
        },
        (ShellState::Fetching, Event::FetchFailed(diagnostic)) => {
            let mut output = diagnostic;
            output.append(closing());
            output.append(menu());
            Some(ask(ShellState::AwaitingCommand, output))
        },
        (ShellState::AwaitingPath { csv_data }, Event::Line(line)) => Some(
            Step {
                state: ShellState::Writing,
                output: String::new(),
                effect: Effect::WriteFile { path: line, contents: csv_data },
            },
        ),
        (ShellState::Writing, Event::Written) => {
            let mut output = String::from_str(closing());
            output.append(menu());
            Some(ask(ShellState::AwaitingCommand, output))
        },
        _ => None,
    }
}

} // verus!
