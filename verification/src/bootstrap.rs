//! The bootstrap sequence as a whole: from application start to a view that
//! shows the live server, or an error page.
//!
//! [`Bootstrap::handle`] takes what the caller observed or did and returns a
//! [`Directive`]: a script for the embedded view, if the view is to change,
//! and the next [`Task`]. The caller runs the tasks one after the other on a
//! background thread and reports each result as an [`Event`]. Nothing is
//! retried: a failure shows its error page and ends the sequence.

use vstd::prelude::*;
use vstd::string::*;
use crate::errors::BootstrapError;
use crate::errors::ExtractionError;
use crate::errors::spawn_failure_text;
use crate::layout::find_node_executable;
use crate::layout::runtime_choice;
use crate::layout::server_url;
use crate::layout::server_url_text;
use crate::notifier::error_page;
use crate::notifier::escaped;
use crate::notifier::loading_page;
use crate::notifier::navigation;
use crate::notifier::navigate;
use crate::notifier::show_error;
use crate::notifier::show_loading;
use crate::notifier::lemma_navigation_is_no_page;
use crate::poller::poll_step;
use crate::poller::PollAction;
use crate::poller::PollEvent;
use crate::poller::PollState;
use crate::poller::MAX_ATTEMPTS;
use crate::poller::Poller;
use crate::text::optional_text;
use crate::version::extraction_needed;
use crate::version::needs_extraction;

verus! {

/// Message of the loading page shown while the bundle is unpacked.
pub const PREPARING: &'static str = "Preparing application...";

/// Where the bootstrap sequence stands.
#[derive(Clone, Copy, PartialEq, Eq, Debug, Structural)]
pub enum Stage {
    /// Not started, or there is nothing to start.
    Idle,
    /// Finding out whether the bundle has to be unpacked.
    CheckingVersion,
    /// Unpacking the bundle.
    Extracting,
    /// Making sure that the server's entry point is there, and choosing the
    /// runtime executable.
    Locating,
    /// Launching the server.
    Spawning,
    /// Waiting for the server to accept connections.
    Polling,
    /// The view was sent to the live server.
    Ready,
    /// The sequence has failed and the error page was shown.
    Failed,
}

/// What the caller reports.
pub enum Event {
    /// The application has started. The flags say whether the bundle and
    /// the unpacked server's entry point exist.
    Started { bundle_present: bool, entry_point_present: bool },
    /// The version check was made: whether the entry point exists, and the
    /// content of the version marker (`None` if it could not be read).
    VersionChecked { entry_point_present: bool, marker: Option<String> },
    /// The bundle was unpacked.
    Extracted,
    /// Unpacking the bundle failed.
    ExtractionFailed(ExtractionError),
    /// The entry point and the bundled runtime were looked for: whether the
    /// entry point exists, the path of the bundled runtime, and whether that
    /// exists.
    Located { entry_point_present: bool, bundled_runtime: String, bundled_runtime_present: bool },
    /// The server was launched and its handle put on record.
    Spawned,
    /// Launching the runtime failed.
    SpawnFailed { cause: String },
    /// A connection attempt or a pause has ended.
    Poll(PollEvent),
}

/// What the caller is to do next.
#[derive(Clone, Copy, PartialEq, Eq, Debug, Structural)]
pub enum Task {
    /// Nothing: the sequence rests, for good or until the next event.
    Rest,
    /// Look for the entry point, read the version marker, and report
    /// [`Event::VersionChecked`].
    CheckVersion,
    /// Unpack the bundle and report how it went.
    Extract,
    /// Look for the entry point and for the bundled runtime, and report
    /// [`Event::Located`].
    Locate,
    /// Launch the server with [`Bootstrap::runtime`], put its handle on
    /// record, and report how it went.
    Spawn,
    /// Try to connect to the server and report the outcome.
    Connect,
    /// Sleep for so many milliseconds and report that the pause is over.
    Sleep { millis: u64 },
}

/// The answer to an event.
pub struct Directive {
    /// The script to run in the embedded view, if the view is to change.
    pub script: Option<String>,
    /// What to do next.
    pub task: Task,
}

/// The state of the sequence: its stage, the poller that runs during
/// [`Stage::Polling`], the runtime executable chosen during
/// [`Stage::Locating`], and the version of the running application.
pub struct State {
    pub stage: Stage,
    pub poller: Poller,
    pub runtime: Seq<char>,
    pub version: Seq<char>,
}

/// A step of the sequence: the state it leads to, the task it hands out, and
/// the script for the view, if any.
pub struct Step {
    pub state: State,
    pub task: Task,
    pub script: Option<Seq<char>>,
}

/// The step that ends the sequence with `error`: its error page is shown,
/// with the title and the words of the error written as text.
pub open spec fn failure(state: State, error: BootstrapError) -> Step {
    Step {
        state: State { stage: Stage::Failed, ..state },
        task: Task::Rest,
        script: Some(error_page(escaped(error.title_text()), escaped(error.text()))),
    }
}

/// The step that moves on to `stage` with `task`, leaving the view alone.
pub open spec fn proceed(state: State, stage: Stage, task: Task) -> Step {
    Step {
        state: State { stage, ..state },
        task,
        script: None,
    }
}

/// The step that changes nothing.
pub open spec fn rest(state: State) -> Step {
    Step { state, task: Task::Rest, script: None }
}

/// The step during polling: the poller decides.
pub open spec fn polling_step(state: State, event: PollEvent) -> Step {
    let (poller, action) = poll_step(state.poller, event);
    match action {
        PollAction::Connect => Step {
            state: State { stage: Stage::Polling, poller, ..state },
            task: Task::Connect,
            script: None,
        },
        PollAction::Sleep { millis } => Step {
            state: State { stage: Stage::Polling, poller, ..state },
            task: Task::Sleep { millis },
            script: None,
        },
        PollAction::Succeed => Step {
            state: State { stage: Stage::Ready, poller, ..state },
            task: Task::Rest,
            script: Some(navigation(server_url_text())),
        },
        PollAction::TimeOut => failure(
            State { stage: Stage::Polling, poller, ..state },
            BootstrapError::Timeout,
        ),
        PollAction::Stay => rest(state),
    }
}

/// What the sequence does in `state` when it is told `event`.
///
/// At start, with neither a bundle nor an unpacked server there is nothing
/// to do; otherwise the version is checked. If the version gate asks for it,
/// the loading page is shown and the bundle unpacked. Then the entry point
/// must be there, the runtime is chosen (the bundled one where it exists),
/// the server is launched, and the poller waits for it. The
/// view is sent to the server when the poller signals success. Each failure
/// shows its error page and ends the sequence. An event that does not fit
/// the stage changes nothing.
#[verifier::opaque]
pub open spec fn react(state: State, event: Event) -> Step {
    match (state.stage, event) {
        (Stage::Idle, Event::Started { bundle_present, entry_point_present }) => if !bundle_present
            && !entry_point_present {
            rest(state)
        } else {
            proceed(state, Stage::CheckingVersion, Task::CheckVersion)
        },
        (Stage::CheckingVersion, Event::VersionChecked { entry_point_present, marker }) =>
            if extraction_needed(entry_point_present, optional_text(marker), state.version) {
            Step {
                state: State { stage: Stage::Extracting, ..state },
                task: Task::Extract,
                script: Some(loading_page(escaped(PREPARING@))),
            }
        } else {
            proceed(state, Stage::Locating, Task::Locate)
        },
        (Stage::Extracting, Event::Extracted) => proceed(state, Stage::Locating, Task::Locate),
        (Stage::Extracting, Event::ExtractionFailed(error)) => failure(
            state,
            BootstrapError::Extraction(error),
        ),
        (
            Stage::Locating,
            Event::Located { entry_point_present, bundled_runtime, bundled_runtime_present },
        ) => if entry_point_present {
            Step {
                state: State {
                    stage: Stage::Spawning,
                    runtime: runtime_choice(bundled_runtime@, bundled_runtime_present),
                    ..state
                },
                task: Task::Spawn,
                script: None,
            }
        } else {
            failure(state, BootstrapError::ServerFilesMissing)
        },
        (Stage::Spawning, Event::Spawned) => Step {
            state: State {
                stage: Stage::Polling,
                poller: Poller { state: PollState::Connecting, refused: 0 },
                ..state
            },
            task: Task::Connect,
            script: None,
        },
        (Stage::Spawning, Event::SpawnFailed { cause }) => Step {
            state: State { stage: Stage::Failed, ..state },
            task: Task::Rest,
            script: Some(
                error_page(
                    escaped("Startup Error"@),
                    escaped(spawn_failure_text(cause@, state.runtime)),
                ),
            ),
        },
        (Stage::Polling, Event::Poll(event)) => polling_step(state, event),
        _ => rest(state),
    }
}

/// The characters of a directive's script.
pub open spec fn script_text(directive: Directive) -> Option<Seq<char>> {
    optional_text(directive.script)
}

/// The bootstrap sequence of one application run.
pub struct Bootstrap {
    stage: Stage,
    poller: Poller,
    version: String,
    runtime: String,
}

impl Bootstrap {
    /// The state of the sequence.
    pub closed spec fn state(self) -> State {
        State {
            stage: self.stage,
            poller: self.poller,
            runtime: self.runtime@,
            version: self.version@,
        }
    }

    /// A sequence that has not started, for an application of version
    /// `version`.
    pub fn new(version: String) -> (bootstrap: Bootstrap)
        ensures
            bootstrap.state() == initial_state(version@),
    {
        Bootstrap { stage: Stage::Idle, poller: Poller::new(), version, runtime: String::new() }
    }

    /// The runtime executable to launch, as chosen when the server files
    /// were located.
    pub fn runtime(&self) -> (runtime: String)
        ensures
            runtime@ == self.state().runtime,
    {
        self.runtime.clone()
    }

    /// The stage the sequence is in.
    pub fn stage(&self) -> (stage: Stage)
        ensures
            stage == self.state().stage,
    {
        self.stage
    }

    /// Ends the sequence with `error` and shows its error page.
    fn fail(&mut self, error: BootstrapError) -> (directive: Directive)
        ensures
            final(self).state() == failure(old(self).state(), error).state,
            directive.task == failure(old(self).state(), error).task,
            script_text(directive) == failure(old(self).state(), error).script,
    {
        self.stage = Stage::Failed;
        let title = error.title();
        let message = error.message();
        Directive { script: Some(show_error(title.as_str(), message.as_str())), task: Task::Rest }
    }

    /// Moves on to `stage` and hands out `task`.
    fn proceed(&mut self, stage: Stage, task: Task) -> (directive: Directive)
        ensures
            final(self).state() == proceed(old(self).state(), stage, task).state,
            directive.task == task,
            script_text(directive) is None,
    {
        self.stage = stage;
        Directive { script: None, task }
    }

    /// Takes `event` and returns what to show and what to do next.
    pub fn handle(&mut self, event: Event) -> (directive: Directive)
        ensures
            final(self).state() == react(old(self).state(), event).state,
            directive.task == react(old(self).state(), event).task,
            script_text(directive) == react(old(self).state(), event).script,
    {
        proof {
            reveal(react);
        }
        match self.stage {
            Stage::Idle => match event {
                Event::Started { bundle_present, entry_point_present } => {
                    if !bundle_present && !entry_point_present {
                        Directive { script: None, task: Task::Rest }
                    } else {
                        self.proceed(Stage::CheckingVersion, Task::CheckVersion)
                    }
                },
                _ => Directive { script: None, task: Task::Rest },
            },
            Stage::CheckingVersion => match event {
                Event::VersionChecked { entry_point_present, marker } => {
                    if needs_extraction(entry_point_present, &marker, &self.version) {
                        self.stage = Stage::Extracting;
                        Directive { script: Some(show_loading(PREPARING)), task: Task::Extract }
                    } else {
                        self.proceed(Stage::Locating, Task::Locate)
                    }
                },
                _ => Directive { script: None, task: Task::Rest },
            },
            Stage::Extracting => match event {
                Event::Extracted => self.proceed(Stage::Locating, Task::Locate),
                Event::ExtractionFailed(error) => self.fail(BootstrapError::Extraction(error)),
                _ => Directive { script: None, task: Task::Rest },
            },
            Stage::Locating => match event {
                Event::Located {
                    entry_point_present,
                    bundled_runtime,
                    bundled_runtime_present,
                } => {
                    if entry_point_present {
                        self.runtime = find_node_executable(
                            bundled_runtime.as_str(),
                            bundled_runtime_present,
                        );
                        self.proceed(Stage::Spawning, Task::Spawn)
                    } else {
                        self.fail(BootstrapError::ServerFilesMissing)
                    }
                },
                _ => Directive { script: None, task: Task::Rest },
            },
            Stage::Spawning => match event {
                Event::Spawned => {
                    self.poller = Poller::new();
                    self.stage = Stage::Polling;
                    Directive { script: None, task: Task::Connect }
                },
                Event::SpawnFailed { cause } => {
                    let runtime = self.runtime.clone();
                    self.fail(BootstrapError::Spawn { cause, runtime })
                },
                _ => Directive { script: None, task: Task::Rest },
            },
            Stage::Polling => match event {
                Event::Poll(event) => {
                    let action = self.poller.on_event(event);
                    match action {
                        PollAction::Connect => Directive { script: None, task: Task::Connect },
                        PollAction::Sleep { millis } => Directive {
                            script: None,
                            task: Task::Sleep { millis },
                        },
                        PollAction::Succeed => {
                            self.stage = Stage::Ready;
                            let url = server_url();
                            Directive { script: Some(navigate(url.as_str())), task: Task::Rest }
                        },
                        PollAction::TimeOut => self.fail(BootstrapError::Timeout),
                        PollAction::Stay => Directive { script: None, task: Task::Rest },
                    }
                },
                _ => Directive { script: None, task: Task::Rest },
            },
            Stage::Ready | Stage::Failed => Directive { script: None, task: Task::Rest },
        }
    }
}

/// The state before an application of version `version` has started.
pub open spec fn initial_state(version: Seq<char>) -> State {
    State {
        stage: Stage::Idle,
        poller: Poller { state: PollState::Connecting, refused: 0 },
        runtime: Seq::empty(),
        version,
    }
}

/// The state that the events in `events`, taken in their order, lead to
/// from `start`.
pub open spec fn state_after(start: State, events: Seq<Event>) -> State
    decreases events.len(),
{
    if events.len() == 0 {
        start
    } else {
        react(state_after(start, events.drop_last()), events.last()).state
    }
}

/// The step that event `j` of `events` gives in a sequence that began in
/// `start`.
pub open spec fn step_at(start: State, events: Seq<Event>, j: int) -> Step {
    react(state_after(start, events.take(j)), events[j])
}

/// Whether the step sends the view to the live server.
pub open spec fn navigates(step: Step) -> bool {
    step.script == Some(navigation(server_url_text()))
}

/// The view is sent to the server in exactly one kind of step: the one in
/// which the poller signals success, which makes the sequence ready. No
/// other step shows anything but a status page or nothing.
pub proof fn lemma_navigation_marks_readiness(state: State, event: Event)
    ensures
        navigates(react(state, event)) <==> state.stage == Stage::Polling && event
            == Event::Poll(PollEvent::Elapsed) && state.poller.state == PollState::Settling,
        navigates(react(state, event)) <==> state.stage != Stage::Ready && react(
            state,
            event,
        ).state.stage == Stage::Ready,
        state.stage == Stage::Ready || state.stage == Stage::Failed ==> react(state, event)
            == rest(state),
{
    reveal(react);
    lemma_navigation_is_no_page();
}

/// The view is never sent to a server that has not accepted a connection:
/// in a sequence from the start, the step that navigates comes after an
/// accepted connection attempt.
pub proof fn lemma_navigation_follows_connection(version: Seq<char>, events: Seq<Event>, j: int)
    requires
        0 <= j < events.len(),
        navigates(step_at(initial_state(version), events, j)),
    ensures
        exists|i: int| 0 <= i < j && #[trigger] events[i] == Event::Poll(PollEvent::Accepted),
{
    let before = events.take(j);
    lemma_navigation_marks_readiness(state_after(initial_state(version), before), events[j]);
    lemma_settling_follows_connection(version, before);
    let i = choose|i: int|
        0 <= i < before.len() && #[trigger] before[i] == Event::Poll(PollEvent::Accepted);
    assert(events[i] == before[i]);
}

/// The view is sent to the server at most once: after the step that
/// navigates, every step rests and shows nothing.
pub proof fn lemma_navigation_happens_once(version: Seq<char>, events: Seq<Event>, j: int, k: int)
    requires
        0 <= j < k < events.len(),
        navigates(step_at(initial_state(version), events, j)),
    ensures
        step_at(initial_state(version), events, k).script is None,
        step_at(initial_state(version), events, k).task == Task::Rest,
        state_after(initial_state(version), events.take(k)).stage == Stage::Ready,
    decreases k - j,
{
    let start = initial_state(version);
    let prefix = events.take(k);
    assert(prefix.drop_last() == events.take(k - 1));
    assert(prefix.last() == events[k - 1]);
    if k == j + 1 {
        lemma_navigation_marks_readiness(state_after(start, events.take(j)), events[j]);
    } else {
        lemma_navigation_happens_once(version, events, j, k - 1);
        lemma_navigation_marks_readiness(state_after(start, events.take(k - 1)), events[k - 1]);
    }
    lemma_navigation_marks_readiness(state_after(start, prefix), events[k]);
}

proof fn lemma_settling_follows_connection(version: Seq<char>, events: Seq<Event>)
    ensures
        ({
            let state = state_after(initial_state(version), events);
            state.poller.state == PollState::Settling || state.poller.state == PollState::Ready
                || state.stage == Stage::Ready
        }) ==> exists|i: int|
            0 <= i < events.len() && #[trigger] events[i] == Event::Poll(PollEvent::Accepted),
    decreases events.len(),
{
    reveal(react);
    if events.len() > 0 {
        let before = events.drop_last();
        let earlier = state_after(initial_state(version), before);
        let state = state_after(initial_state(version), events);
        lemma_settling_follows_connection(version, before);
        if state.poller.state == PollState::Settling || state.poller.state == PollState::Ready
            || state.stage == Stage::Ready {
            if earlier.poller.state == PollState::Settling || earlier.poller.state
                == PollState::Ready || earlier.stage == Stage::Ready {
                let i = choose|i: int|
                    0 <= i < before.len() && #[trigger] before[i] == Event::Poll(
                        PollEvent::Accepted,
                    );
                assert(events[i] == before[i]);
            } else {
                assert(events.last() == Event::Poll(PollEvent::Accepted));
                assert(events[events.len() - 1] == Event::Poll(PollEvent::Accepted));
            }
        }
    }
}

/// `n` connection attempts that are refused, each followed by the end of
/// its pause.
pub open spec fn refusals(n: nat) -> Seq<Event>
    decreases n,
{
    if n == 0 {
        Seq::empty()
    } else {
        refusals((n - 1) as nat).push(Event::Poll(PollEvent::Refused)).push(
            Event::Poll(PollEvent::Elapsed),
        )
    }
}

/// What is reported on a fresh install that goes well: the bundle is there
/// and no server is unpacked yet, the bundle is unpacked, the entry point is
/// found as `located` says, the server is launched, refuses `refused`
/// connection attempts and accepts the next one.
pub open spec fn fresh_install(located: Event, refused: nat) -> Seq<Event> {
    fresh_head(located) + refusals(refused) + seq![
        Event::Poll(PollEvent::Accepted),
        Event::Poll(PollEvent::Elapsed),
    ]
}

/// A fresh install that goes well ends ready, however many attempts within
/// the budget the server refuses first. The steps come in their order: the
/// version is checked, the loading page is shown and the bundle unpacked,
/// the entry point located, the server launched and polled. The last step
/// sends the view to the server. No other step shows anything but the
/// loading page: there is no error page, and no second navigation. The
/// server is launched once.
pub proof fn lemma_fresh_install_ends_ready(version: Seq<char>, located: Event, refused: nat)
    requires
        located matches Event::Located { entry_point_present, .. } && entry_point_present,
        refused < MAX_ATTEMPTS,
    ensures
        ({
            let start = initial_state(version);
            let events = fresh_install(located, refused);
            let last = events.len() - 1;
            &&& events.len() == 7 + 2 * refused
            &&& state_after(start, events).stage == Stage::Ready
            &&& step_at(start, events, 0).task == Task::CheckVersion
            &&& step_at(start, events, 1).task == Task::Extract
            &&& step_at(start, events, 1).script == Some(loading_page(escaped(PREPARING@)))
            &&& step_at(start, events, 2).task == Task::Locate
            &&& step_at(start, events, 3).task == Task::Spawn
            &&& step_at(start, events, 4).task == Task::Connect
            &&& navigates(step_at(start, events, last))
            &&& forall|j: int|
                0 <= j < last && j != 1 ==> (#[trigger] step_at(start, events, j)).script is None
            &&& forall|j: int|
                5 <= j < last ==> (#[trigger] step_at(start, events, j)).state.stage
                    == Stage::Polling
            &&& forall|j: int|
                0 <= j <= last && j != 3 ==> (#[trigger] step_at(start, events, j)).task
                    != Task::Spawn
        }),
{
    let start = initial_state(version);
    let head = fresh_head(located);
    let tail = seq![Event::Poll(PollEvent::Accepted), Event::Poll(PollEvent::Elapsed)];
    let middle = refusals(refused);
    let events = fresh_install(located, refused);
    let last = events.len() - 1;

    lemma_fresh_head(version, located);
    let polling = state_after(start, head);
    lemma_refusals(polling, refused);
    let waiting = state_after(polling, middle);
    lemma_accepted_tail(waiting);

    let body = middle + tail;
    assert(events == head + body);
    lemma_state_after_concat(polling, middle, tail);
    lemma_state_after_concat(start, head, body);
    assert forall|j: int| 0 <= j <= last implies #[trigger] step_at(start, events, j) == (if j
        < 5 {
        step_at(start, head, j)
    } else if j < 5 + 2 * refused {
        step_at(polling, middle, j - 5)
    } else {
        step_at(waiting, tail, j - 5 - 2 * refused)
    }) by {
        if j < 5 {
            lemma_step_in_prefix(start, head, body, j);
        } else {
            lemma_step_past_prefix(start, head, body, j - 5);
            if j < 5 + 2 * refused {
                lemma_step_in_prefix(polling, middle, tail, j - 5);
            } else {
                lemma_step_past_prefix(polling, middle, tail, j - 5 - 2 * refused);
            }
        }
    }
    assert(step_at(start, events, last) == step_at(waiting, tail, 1));
    assert(step_at(start, events, last - 1) == step_at(waiting, tail, 0));
}

/// The events of a fresh install up to the launch of the server.
pub open spec fn fresh_head(located: Event) -> Seq<Event> {
    seq![
        Event::Started { bundle_present: true, entry_point_present: false },
        Event::VersionChecked { entry_point_present: false, marker: None },
        Event::Extracted,
        located,
        Event::Spawned,
    ]
}

/// A fresh install up to the launch of the server: each step hands out the
/// next task, only the second shows something, the loading page, and the
/// sequence is left polling with a fresh poller.
proof fn lemma_fresh_head(version: Seq<char>, located: Event)
    requires
        located matches Event::Located { entry_point_present, .. } && entry_point_present,
    ensures
        ({
            let start = initial_state(version);
            let head = fresh_head(located);
            &&& state_after(start, head).stage == Stage::Polling
            &&& state_after(start, head).poller == Poller {
                state: PollState::Connecting,
                refused: 0,
            }
            &&& step_at(start, head, 0).task == Task::CheckVersion
            &&& step_at(start, head, 1).task == Task::Extract
            &&& step_at(start, head, 1).script == Some(loading_page(escaped(PREPARING@)))
            &&& step_at(start, head, 2).task == Task::Locate
            &&& step_at(start, head, 3).task == Task::Spawn
            &&& step_at(start, head, 4).task == Task::Connect
            &&& step_at(start, head, 0).script is None
            &&& step_at(start, head, 2).script is None
            &&& step_at(start, head, 3).script is None
            &&& step_at(start, head, 4).script is None
        }),
{
    reveal(react);
    let start = initial_state(version);
    let e0 = Event::Started { bundle_present: true, entry_point_present: false };
    let e1 = Event::VersionChecked { entry_point_present: false, marker: None };
    let e2 = Event::Extracted;
    let e4 = Event::Spawned;
    let head = fresh_head(located);
    let h0 = Seq::<Event>::empty();
    let h1 = h0.push(e0);
    let h2 = h1.push(e1);
    let h3 = h2.push(e2);
    let h4 = h3.push(located);
    assert(head == h4.push(e4));
    assert(state_after(start, h0) == start);
    lemma_state_after_push(start, h0, e0);
    assert(state_after(start, h1).stage == Stage::CheckingVersion);
    lemma_state_after_push(start, h1, e1);
    assert(state_after(start, h2).stage == Stage::Extracting);
    lemma_state_after_push(start, h2, e2);
    assert(state_after(start, h3).stage == Stage::Locating);
    lemma_state_after_push(start, h3, located);
    assert(state_after(start, h4).stage == Stage::Spawning);
    lemma_state_after_push(start, h4, e4);
    assert(head.take(0) == h0);
    assert(head.take(1) == h1);
    assert(head.take(2) == h2);
    assert(head.take(3) == h3);
    assert(head.take(4) == h4);
}

/// An accepted attempt and the end of the settle delay: the first shows
/// nothing and keeps the sequence polling, the second sends the view to the
/// server and leaves the sequence ready.
proof fn lemma_accepted_tail(waiting: State)
    requires
        waiting.stage == Stage::Polling,
        waiting.poller.state == PollState::Connecting,
    ensures
        ({
            let tail = seq![Event::Poll(PollEvent::Accepted), Event::Poll(PollEvent::Elapsed)];
            &&& state_after(waiting, tail).stage == Stage::Ready
            &&& step_at(waiting, tail, 0).script is None
            &&& step_at(waiting, tail, 0).state.stage == Stage::Polling
            &&& step_at(waiting, tail, 0).task != Task::Spawn
            &&& step_at(waiting, tail, 1).task != Task::Spawn
            &&& navigates(step_at(waiting, tail, 1))
        }),
{
    reveal(react);
    let accepted = Event::Poll(PollEvent::Accepted);
    let elapsed = Event::Poll(PollEvent::Elapsed);
    let tail = seq![accepted, elapsed];
    let t0 = Seq::<Event>::empty();
    let t1 = t0.push(accepted);
    assert(tail == t1.push(elapsed));
    assert(state_after(waiting, t0) == waiting);
    lemma_state_after_push(waiting, t0, accepted);
    lemma_state_after_push(waiting, t1, elapsed);
    assert(tail.take(0) == t0);
    assert(tail.take(1) == t1);
}

/// The state after one more event.
proof fn lemma_state_after_push(start: State, events: Seq<Event>, event: Event)
    ensures
        state_after(start, events.push(event)) == react(state_after(start, events), event).state,
{
    assert(events.push(event).drop_last() == events);
}

/// The state after two runs of events, one after the other.
proof fn lemma_state_after_concat(start: State, first: Seq<Event>, second: Seq<Event>)
    ensures
        state_after(start, first + second) == state_after(state_after(start, first), second),
    decreases second.len(),
{
    if second.len() == 0 {
        assert(first + second == first);
    } else {
        assert((first + second).drop_last() == first + second.drop_last());
        lemma_state_after_concat(start, first, second.drop_last());
    }
}

/// A step within the first of two runs of events does not depend on the
/// second.
proof fn lemma_step_in_prefix(start: State, first: Seq<Event>, second: Seq<Event>, j: int)
    requires
        0 <= j < first.len(),
    ensures
        step_at(start, first + second, j) == step_at(start, first, j),
{
    assert((first + second).take(j) == first.take(j));
}

/// A step within the second of two runs of events starts from the state
/// that the first run leads to.
proof fn lemma_step_past_prefix(start: State, first: Seq<Event>, second: Seq<Event>, j: int)
    requires
        0 <= j < second.len(),
    ensures
        step_at(start, first + second, first.len() + j) == step_at(
            state_after(start, first),
            second,
            j,
        ),
{
    assert((first + second).take(first.len() + j) == first + second.take(j));
    lemma_state_after_concat(start, first, second.take(j));
}

/// Refused attempts within the budget keep the sequence polling and the
/// view as it is.
proof fn lemma_refusals(start: State, n: nat)
    requires
        start.stage == Stage::Polling,
        start.poller.state == PollState::Connecting,
        start.poller.refused + n < MAX_ATTEMPTS,
    ensures
        refusals(n).len() == 2 * n,
        state_after(start, refusals(n)) == (State {
            poller: Poller {
                state: PollState::Connecting,
                refused: (start.poller.refused + n) as u32,
            },
            ..start
        }),
        forall|j: int|
            0 <= j < 2 * n ==> (#[trigger] step_at(start, refusals(n), j)).script is None
                && step_at(start, refusals(n), j).state.stage == Stage::Polling && step_at(
                start,
                refusals(n),
                j,
            ).task != Task::Spawn,
    decreases n,
{
    reveal(react);
    if n > 0 {
        let before = refusals((n - 1) as nat);
        let refused = Event::Poll(PollEvent::Refused);
        let elapsed = Event::Poll(PollEvent::Elapsed);
        let pair = Seq::<Event>::empty().push(refused).push(elapsed);
        lemma_refusals(start, (n - 1) as nat);
        assert(refusals(n) == before + pair);
        let mid = state_after(start, before);
        lemma_state_after_push(mid, Seq::empty(), refused);
        lemma_state_after_push(mid, Seq::<Event>::empty().push(refused), elapsed);
        lemma_state_after_concat(start, before, pair);
        assert(pair.take(0) == Seq::<Event>::empty());
        assert(pair.take(1) == Seq::<Event>::empty().push(refused));
        assert forall|j: int| 0 <= j < 2 * n implies (#[trigger] step_at(
            start,
            refusals(n),
            j,
        )).script is None && step_at(start, refusals(n), j).state.stage == Stage::Polling
            && step_at(start, refusals(n), j).task != Task::Spawn by {
            if j < 2 * (n - 1) {
                lemma_step_in_prefix(start, before, pair, j);
            } else {
                lemma_step_past_prefix(start, before, pair, j - 2 * (n - 1));
            }
        }
    } else {
        assert(state_after(start, refusals(0)) == start);
    }
}

} // verus!
