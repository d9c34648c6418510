//! The capture pipeline: what the hook hands over, how a focus change is
//! resolved into an application, and what the session service does with it.

pub mod hook_driver;
pub mod resolution;
pub mod stream;
pub mod windows_service;

use crate::entity::event;
use crate::entity::session;
use crate::timestamp::Timestamp;
use vstd::prelude::*;

verus! {

/// A focus change as the hook reports it. It is made inside the callback,
/// handed over once, and never stored.
#[derive(Debug, Clone, Copy, PartialEq, Eq)]
pub struct RawWindowEvent {
    /// The hook that reported the event.
    pub child_id: isize,
    /// The kind of event that occurred.
    pub hook_handle: u32,
    /// The window that gained the focus.
    pub event_id: isize,
    /// The object within the window that the event is about.
    pub window_handle: i32,
    /// The element of the object that the event is about.
    pub object_id: i32,
    /// The thread that raised the event.
    pub thread_id: u32,
    /// Milliseconds since system boot at which the event was raised.
    pub timestamp: u32,
}

/// A focus change with its window and application identified.
#[derive(Debug, Clone, PartialEq, Eq)]
pub struct ProcessedWindowEvent {
    /// Title of the focused window.
    pub window_title: String,
    /// The process that owns the window.
    pub pid: u32,
    /// Query-only handle to that process.
    pub process_handle: isize,
    /// Path of the executable of the process.
    pub path: String,
    /// Milliseconds since system boot at which the focus changed.
    pub offset: u32,
    /// Display title of the application.
    pub app_title: String,
}

/// The step at which a focus change could not be resolved.
#[derive(Debug, Clone, Copy, PartialEq, Eq)]
pub enum ResolutionFailure {
    /// The window reports a title of no length.
    WindowTitleLength,
    /// The title of the window could not be read.
    WindowTitle,
    /// The window has no owning process to be found.
    ProcessId,
    /// The process could not be opened for queries.
    ProcessHandle,
    /// The path of the executable could not be read.
    ExecutablePath,
    /// The executable reports version information of no size.
    VersionInfoSize,
    /// The version information of the executable could not be read.
    VersionInfo,
    /// The version information holds no description of the file.
    AppTitle,
}

impl ResolutionFailure {
    /// The number, from 1 to 5, of the step of the resolution that failed.
    pub open spec fn spec_step(self) -> u8 {
        match self {
            ResolutionFailure::WindowTitleLength | ResolutionFailure::WindowTitle => 1,
            ResolutionFailure::ProcessId => 2,
            ResolutionFailure::ProcessHandle => 3,
            ResolutionFailure::ExecutablePath => 4,
            ResolutionFailure::VersionInfoSize
            | ResolutionFailure::VersionInfo
            | ResolutionFailure::AppTitle => 5,
        }
    }

    /// The number, from 1 to 5, of the step of the resolution that failed.
    #[verifier::when_used_as_spec(spec_step)]
    pub fn step(self) -> (step: u8)
        ensures
            step == self.spec_step(),
    {
        match self {
            ResolutionFailure::WindowTitleLength | ResolutionFailure::WindowTitle => 1,
            ResolutionFailure::ProcessId => 2,
            ResolutionFailure::ProcessHandle => 3,
            ResolutionFailure::ExecutablePath => 4,
            ResolutionFailure::VersionInfoSize
            | ResolutionFailure::VersionInfo
            | ResolutionFailure::AppTitle => 5,
        }
    }

    /// The text of the failure, as `message` gives it.
    pub open spec fn spec_message(self) -> Seq<char> {
        match self {
            ResolutionFailure::WindowTitleLength => "Could not acquire window title length"@,
            ResolutionFailure::WindowTitle => "Could not acquire window title"@,
            ResolutionFailure::ProcessId => "Could not acquire process id"@,
            ResolutionFailure::ProcessHandle => "Could not acquire process handle"@,
            ResolutionFailure::ExecutablePath => "Could not find application executable path"@,
            ResolutionFailure::VersionInfoSize => "Error on retrieving size of file version info"@,
            ResolutionFailure::VersionInfo => "Error on retrieving file version info"@,
            ResolutionFailure::AppTitle => "Error on retrieving application title"@,
        }
    }

    /// The failure in words.
    pub fn message(self) -> (text: String)
        ensures
            text@ == self.spec_message(),
    {
        match self {
            ResolutionFailure::WindowTitleLength => "Could not acquire window title length".to_owned(),
            ResolutionFailure::WindowTitle => "Could not acquire window title".to_owned(),
            ResolutionFailure::ProcessId => "Could not acquire process id".to_owned(),
            ResolutionFailure::ProcessHandle => "Could not acquire process handle".to_owned(),
            ResolutionFailure::ExecutablePath => "Could not find application executable path".to_owned(),
            ResolutionFailure::VersionInfoSize => "Error on retrieving size of file version info".to_owned(),
            ResolutionFailure::VersionInfo => "Error on retrieving file version info".to_owned(),
            ResolutionFailure::AppTitle => "Error on retrieving application title".to_owned(),
        }
    }
}

/// The store did not take an event.
#[derive(Debug, Clone, PartialEq, Eq)]
pub struct PersistenceFailure {
    /// What the store said.
    pub reason: String,
}

/// What the consumer loop of the session service is waiting for.
#[derive(Debug, Clone, Copy, PartialEq, Eq)]
pub enum Phase {
    /// The next item of the channel.
    Receiving,
    /// The resolution of the focus change that was received last.
    Resolving,
    /// The answer of the store about the event that was handed to it last.
    Persisting,
    /// Nothing: the loop has ended.
    Stopped,
}

/// What happened while the consumer loop was waiting.
#[derive(Debug, PartialEq, Eq)]
pub enum LoopEvent {
    /// The channel gave its next item: a focus change, the sentinel that ends
    /// the stream (the inner `None`), or word that the channel is closed (the
    /// outer `None`).
    Received(Option<Option<RawWindowEvent>>),
    /// The resolution of the focus change ended, at the wall-clock time `at`.
    Resolved { outcome: Result<ProcessedWindowEvent, ResolutionFailure>, at: Timestamp },
    /// The store answered.
    Persisted(Result<(), PersistenceFailure>),
}

/// What the consumer loop has to do next.
#[derive(Debug, Clone, PartialEq, Eq)]
pub enum LoopAction {
    /// Read the next item of the channel.
    Receive,
    /// Resolve this focus change.
    Resolve(RawWindowEvent),
    /// Hand this event to the store, once.
    Persist(event::Unsaved),
    /// Leave the loop.
    Stop,
    /// Go on waiting: what happened was not what the loop was waiting for.
    Wait,
}

/// Why a focus change left no event behind.
#[derive(Debug, Clone, PartialEq, Eq)]
pub enum Dropped {
    /// It could not be resolved.
    Unresolved(ResolutionFailure),
    /// The store did not take the event.
    NotPersisted(PersistenceFailure),
}

/// One turn of the consumer loop: what to do next, and the focus change that
/// was given up in this turn, if one was.
#[derive(Debug, Clone, PartialEq, Eq)]
pub struct Turn {
    /// What the loop has to do next.
    pub action: LoopAction,
    /// Why the focus change at hand left no event behind, if it was given up.
    pub dropped: Option<Dropped>,
}

/// One step of an orderly shutdown.
#[derive(Debug, Clone, Copy, PartialEq, Eq)]
pub enum StopStep {
    /// Put the sentinel into the channel.
    PublishSentinel,
    /// Wait until the thread of the hook driver has ended.
    JoinHookThread,
}

/// What a message to the messaging window calls for.
#[derive(Debug, Clone, Copy, PartialEq, Eq)]
pub enum WindowProcAction {
    /// End the message loop and destroy the window; the message is answered
    /// with 0.
    QuitAndDestroy,
    /// End the message loop; the message is answered with 0.
    Quit,
    /// Leave the message to the default window procedure, and answer with
    /// what it returns.
    Default,
}

/// The message that asks a window to close.
pub const WM_CLOSE: u32 = 0x0010;

/// The message that tells a window that it is being destroyed.
pub const WM_DESTROY: u32 = 0x0002;

/// The session service: it owns the one session of this run and consumes
/// what the hook driver publishes.
#[derive(Debug)]
pub struct Service {
    session: session::Model,
    phase: Phase,
    hook_thread_attached: bool,
}

/// The state of a [`Service`].
pub struct ServiceView {
    /// The session of this run.
    pub session: session::Model,
    /// What the consumer loop is waiting for.
    pub phase: Phase,
    /// Whether the thread of the hook driver has not been joined yet.
    pub hook_thread_attached: bool,
}

impl View for Service {
    type V = ServiceView;

    closed spec fn view(&self) -> ServiceView {
        ServiceView {
            session: self.session,
            phase: self.phase,
            hook_thread_attached: self.hook_thread_attached,
        }
    }
}

/// The event that is stored for a resolved focus change: what the resolution
/// found, stamped with the time of storing and tied to the session.
pub open spec fn event_to_store(
    resolved: ProcessedWindowEvent,
    at: Timestamp,
    session: session::Model,
) -> event::Unsaved {
    event::Unsaved {
        path: resolved.path,
        title: resolved.window_title,
        timestamp: at,
        app_title: resolved.app_title,
        offset: resolved.offset,
        session_id: session.id,
    }
}

/// The state after `event` happened in `state`, and the turn that it calls
/// for.
///
/// A focus change is resolved, then stored, and then the next item is read. A
/// focus change that cannot be resolved or stored is dropped, and the next
/// item is read all the same. The sentinel, or a closed channel, ends the
/// loop for good.
pub open spec fn turn_after(state: ServiceView, event: LoopEvent) -> (ServiceView, Turn) {
    match (state.phase, event) {
        (Phase::Receiving, LoopEvent::Received(Some(Some(raw)))) => (
            ServiceView { phase: Phase::Resolving, ..state },
            Turn { action: LoopAction::Resolve(raw), dropped: None },
        ),
        (Phase::Receiving, LoopEvent::Received(_)) => (
            ServiceView { phase: Phase::Stopped, ..state },
            Turn { action: LoopAction::Stop, dropped: None },
        ),
        (Phase::Resolving, LoopEvent::Resolved { outcome: Ok(resolved), at }) => (
            ServiceView { phase: Phase::Persisting, ..state },
            Turn {
                action: LoopAction::Persist(event_to_store(resolved, at, state.session)),
                dropped: None,
            },
        ),
        (Phase::Resolving, LoopEvent::Resolved { outcome: Err(failure), .. }) => (
            ServiceView { phase: Phase::Receiving, ..state },
            Turn { action: LoopAction::Receive, dropped: Some(Dropped::Unresolved(failure)) },
        ),
        (Phase::Persisting, LoopEvent::Persisted(Ok(_))) => (
            ServiceView { phase: Phase::Receiving, ..state },
            Turn { action: LoopAction::Receive, dropped: None },
        ),
        (Phase::Persisting, LoopEvent::Persisted(Err(failure))) => (
            ServiceView { phase: Phase::Receiving, ..state },
            Turn { action: LoopAction::Receive, dropped: Some(Dropped::NotPersisted(failure)) },
        ),
        (Phase::Stopped, _) => (state, Turn { action: LoopAction::Stop, dropped: None }),
        _ => (state, Turn { action: LoopAction::Wait, dropped: None }),
    }
}

impl Service {
    /// The service of the run whose session the store has accepted as
    /// `session`. Its loop begins by reading the channel, and the thread of
    /// the hook driver is running.
    pub fn new(session: session::Model) -> (service: Service)
        ensures
            service@ == (ServiceView {
                session,
                phase: Phase::Receiving,
                hook_thread_attached: true,
            }),
    {
        Service { session, phase: Phase::Receiving, hook_thread_attached: true }
    }

    /// The session of this run.
    pub fn session(&self) -> (session: session::Model)
        ensures
            session == self@.session,
    {
        self.session
    }

    /// What the consumer loop is waiting for.
    pub fn phase(&self) -> (phase: Phase)
        ensures
            phase == self@.phase,
    {
        self.phase
    }

    /// Whether the thread of the hook driver has not been joined yet.
    pub fn hook_thread_attached(&self) -> (attached: bool)
        ensures
            attached == self@.hook_thread_attached,
    {
        self.hook_thread_attached
    }

    /// Takes the consumer loop one turn further: `event` is what happened
    /// while the loop was waiting, and the answer is what it has to do next.
    pub fn spin_loop(&mut self, event: LoopEvent) -> (turn: Turn)
        ensures
            (final(self)@, turn) == turn_after(old(self)@, event),
    {
        match (self.phase, event) {
            (Phase::Receiving, LoopEvent::Received(Some(Some(raw)))) => {
                self.phase = Phase::Resolving;
                Turn { action: LoopAction::Resolve(raw), dropped: None }
            },
            (Phase::Receiving, LoopEvent::Received(_)) => {
                self.phase = Phase::Stopped;
                Turn { action: LoopAction::Stop, dropped: None }
            },
            (Phase::Resolving, LoopEvent::Resolved { outcome: Ok(resolved), at }) => {
                self.phase = Phase::Persisting;
                let record = event::Unsaved {
                    path: resolved.path,
                    title: resolved.window_title,
                    timestamp: at,
                    app_title: resolved.app_title,
                    offset: resolved.offset,
                    session_id: self.session.id,
                };
                Turn { action: LoopAction::Persist(record), dropped: None }
            },
            (Phase::Resolving, LoopEvent::Resolved { outcome: Err(failure), .. }) => {
                self.phase = Phase::Receiving;
                Turn { action: LoopAction::Receive, dropped: Some(Dropped::Unresolved(failure)) }
            },
            (Phase::Persisting, LoopEvent::Persisted(Ok(_))) => {
                self.phase = Phase::Receiving;
                Turn { action: LoopAction::Receive, dropped: None }
            },
            (Phase::Persisting, LoopEvent::Persisted(Err(failure))) => {
                self.phase = Phase::Receiving;
                Turn { action: LoopAction::Receive, dropped: Some(Dropped::NotPersisted(failure)) }
            },
            (Phase::Stopped, _) => Turn { action: LoopAction::Stop, dropped: None },
            _ => Turn { action: LoopAction::Wait, dropped: None },
        }
    }

    /// The steps of an orderly shutdown, in the order in which they are
    /// taken: the sentinel goes into the channel behind every focus change
    /// that is already there, and the caller then waits for the thread of the
    /// hook driver to end.
    pub fn stop_loop(&mut self) -> (steps: Vec<StopStep>)
        requires
            old(self)@.hook_thread_attached,
        ensures
            steps@ == seq![StopStep::PublishSentinel, StopStep::JoinHookThread],
            final(self)@ == (ServiceView { hook_thread_attached: false, ..old(self)@ }),
    {
        self.hook_thread_attached = false;
        let mut steps: Vec<StopStep> = Vec::new();
        steps.push(StopStep::PublishSentinel);
        steps.push(StopStep::JoinHookThread);
        assert(steps@ =~= seq![StopStep::PublishSentinel, StopStep::JoinHookThread]);
        steps
    }

    /// What the hook callback publishes for a focus change: the parameters
    /// of the notification, packed into one raw event.
    pub fn win_foreground_change_callback(
        child_id: isize,
        hook_handle: u32,
        event_id: isize,
        window_handle: i32,
        object_id: i32,
        thread_id: u32,
        timestamp: u32,
    ) -> (message: Option<RawWindowEvent>)
        ensures
            message == Some(
                RawWindowEvent {
                    child_id,
                    hook_handle,
                    event_id,
                    window_handle,
                    object_id,
                    thread_id,
                    timestamp,
                },
            ),
    {
        Some(
            RawWindowEvent {
                child_id,
                hook_handle,
                event_id,
                window_handle,
                object_id,
                thread_id,
                timestamp,
            },
        )
    }

    /// What the messaging window does with the message `msg`.
    pub fn window_messaging_proc(msg: u32) -> (action: WindowProcAction)
        ensures
            action == if msg == WM_CLOSE {
                WindowProcAction::QuitAndDestroy
            } else if msg == WM_DESTROY {
                WindowProcAction::Quit
            } else {
                WindowProcAction::Default
            },
    {
        if msg == WM_CLOSE {
            WindowProcAction::QuitAndDestroy
        } else if msg == WM_DESTROY {
            WindowProcAction::Quit
        } else {
            WindowProcAction::Default
        }
    }
}

/// A focus change that cannot be resolved does not end the loop: the loop
/// reads on, and resolves the focus change that comes next.
pub proof fn lemma_unresolved_event_does_not_stop_the_loop(
    state: ServiceView,
    failure: ResolutionFailure,
    at: Timestamp,
    next: RawWindowEvent,
)
    requires
        state.phase == Phase::Resolving,
    ensures
        ({
            let (dropped, turn) = turn_after(
                state,
                LoopEvent::Resolved { outcome: Err(failure), at },
            );
            let (resolving, next_turn) = turn_after(dropped, LoopEvent::Received(Some(Some(next))));
            &&& turn.action == LoopAction::Receive
            &&& turn.dropped == Some(Dropped::Unresolved(failure))
            &&& dropped == (ServiceView { phase: Phase::Receiving, ..state })
            &&& next_turn.action == LoopAction::Resolve(next)
            &&& resolving == state
        }),
{
}

/// An event that the store refuses does not end the loop either.
pub proof fn lemma_unstored_event_does_not_stop_the_loop(
    state: ServiceView,
    failure: PersistenceFailure,
    next: RawWindowEvent,
)
    requires
        state.phase == Phase::Persisting,
    ensures
        ({
            let (dropped, turn) = turn_after(state, LoopEvent::Persisted(Err(failure)));
            let (resolving, next_turn) = turn_after(dropped, LoopEvent::Received(Some(Some(next))));
            &&& turn.action == LoopAction::Receive
            &&& turn.dropped == Some(Dropped::NotPersisted(failure))
            &&& dropped == (ServiceView { phase: Phase::Receiving, ..state })
            &&& next_turn.action == LoopAction::Resolve(next)
            &&& resolving == (ServiceView { phase: Phase::Resolving, ..state })
        }),
{
}

/// Whether `event` is the end of the stream: the sentinel, or word that the
/// channel is closed.
pub open spec fn ends_stream(event: LoopEvent) -> bool {
    event matches LoopEvent::Received(item) && !(item matches Some(Some(_)))
}

/// Only the end of the stream, read while the loop waits for the channel,
/// ends the loop, and it ends it for good. The session stays the same
/// throughout.
pub proof fn lemma_only_the_end_of_the_stream_stops_the_loop(state: ServiceView, event: LoopEvent)
    ensures
        state.phase != Phase::Stopped ==> (turn_after(state, event).0.phase == Phase::Stopped
            <==> state.phase == Phase::Receiving && ends_stream(event)),
        state.phase == Phase::Stopped ==> turn_after(state, event) == (
            state,
            Turn { action: LoopAction::Stop, dropped: None },
        ),
        turn_after(state, event).0.session == state.session,
        turn_after(state, event).0.hook_thread_attached == state.hook_thread_attached,
{
}

/// An event is handed to the store exactly when a resolution that the loop
/// was waiting for has succeeded, so once for each such resolution; what is
/// handed over is tied to the session of this run.
pub proof fn lemma_one_store_attempt_per_resolved_event(state: ServiceView, event: LoopEvent)
    ensures
        turn_after(state, event).1.action is Persist <==> state.phase == Phase::Resolving && (
        event matches LoopEvent::Resolved { outcome, .. } && outcome is Ok),
        turn_after(state, event).1.action matches LoopAction::Persist(record)
            ==> record.session_id == state.session.id,
{
}

/// The state that a series of events leaves behind.
pub open spec fn state_after(state: ServiceView, events: Seq<LoopEvent>) -> ServiceView
    decreases events.len(),
{
    if events.len() == 0 {
        state
    } else {
        turn_after(state_after(state, events.drop_last()), events.last()).0
    }
}

/// As long as the stream has not ended, the loop has not stopped, however
/// many focus changes could not be resolved or stored on the way.
pub proof fn lemma_loop_runs_until_the_stream_ends(state: ServiceView, events: Seq<LoopEvent>)
    requires
        state.phase != Phase::Stopped,
        forall|i: int| 0 <= i < events.len() ==> !ends_stream(#[trigger] events[i]),
    ensures
        state_after(state, events).phase != Phase::Stopped,
        state_after(state, events).session == state.session,
    decreases events.len(),
{
    if events.len() > 0 {
        let earlier = events.drop_last();
        assert forall|i: int| 0 <= i < earlier.len() implies !ends_stream(
            #[trigger] earlier[i],
        ) by {
            assert(earlier[i] == events[i]);
        }
        lemma_loop_runs_until_the_stream_ends(state, earlier);
        lemma_only_the_end_of_the_stream_stops_the_loop(
            state_after(state, earlier),
            events.last(),
        );
    }
}

} // verus!
