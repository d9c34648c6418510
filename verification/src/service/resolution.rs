//! Resolving a focus change, one question to the operating system at a time.

use crate::service::ProcessedWindowEvent;
use crate::service::RawWindowEvent;
use crate::service::ResolutionFailure;
use vstd::prelude::*;

verus! {

/// How far the resolution of one focus change has come. It goes through five
/// steps in order; the first step that fails ends it, and what the steps
/// before it found is given up.
#[derive(Debug, Clone, PartialEq, Eq)]
pub enum Resolution {
    /// Step 1: the title of the focused window is wanted.
    WindowTitle { raw: RawWindowEvent },
    /// Step 2: the process that owns the window is wanted.
    ProcessId { raw: RawWindowEvent, window_title: String },
    /// Step 3: a query-only handle to the process is wanted.
    ProcessHandle { raw: RawWindowEvent, window_title: String, pid: u32 },
    /// Step 4: the path of the executable of the process is wanted.
    ExecutablePath { raw: RawWindowEvent, window_title: String, pid: u32, process_handle: isize },
    /// Step 5: the display title of the application is wanted.
    AppTitle {
        raw: RawWindowEvent,
        window_title: String,
        pid: u32,
        process_handle: isize,
        path: String,
    },
    /// All five steps succeeded.
    Resolved(ProcessedWindowEvent),
    /// A step failed.
    Failed(ResolutionFailure),
}

/// What to ask the operating system next.
#[derive(Debug, Clone, PartialEq, Eq)]
pub enum Query {
    /// The title of this window.
    WindowTitle(isize),
    /// The process that owns this window.
    ProcessId(isize),
    /// A query-only handle to this process.
    ProcessHandle(u32),
    /// The path of the executable of the process behind this handle.
    ExecutablePath(isize),
    /// The description in the version information of this executable.
    AppTitle(String),
}

/// What the operating system answered.
#[derive(Debug, PartialEq, Eq)]
pub enum Finding {
    /// The answer to [`Query::WindowTitle`].
    WindowTitle(Result<String, ResolutionFailure>),
    /// The answer to [`Query::ProcessId`].
    ProcessId(Result<u32, ResolutionFailure>),
    /// The answer to [`Query::ProcessHandle`].
    ProcessHandle(Result<isize, ResolutionFailure>),
    /// The answer to [`Query::ExecutablePath`].
    ExecutablePath(Result<String, ResolutionFailure>),
    /// The answer to [`Query::AppTitle`].
    AppTitle(Result<String, ResolutionFailure>),
}

impl Finding {
    /// Whether this is an answer to `query`.
    pub open spec fn answers(self, query: Query) -> bool {
        match (self, query) {
            (Finding::WindowTitle(_), Query::WindowTitle(_)) => true,
            (Finding::ProcessId(_), Query::ProcessId(_)) => true,
            (Finding::ProcessHandle(_), Query::ProcessHandle(_)) => true,
            (Finding::ExecutablePath(_), Query::ExecutablePath(_)) => true,
            (Finding::AppTitle(_), Query::AppTitle(_)) => true,
            _ => false,
        }
    }

    /// The failure that this answer reports, if it reports one.
    pub open spec fn failure(self) -> Option<ResolutionFailure> {
        match self {
            Finding::WindowTitle(Err(failure)) => Some(failure),
            Finding::ProcessId(Err(failure)) => Some(failure),
            Finding::ProcessHandle(Err(failure)) => Some(failure),
            Finding::ExecutablePath(Err(failure)) => Some(failure),
            Finding::AppTitle(Err(failure)) => Some(failure),
            _ => None,
        }
    }
}

impl Resolution {
    /// The question that is open, if the resolution has not ended.
    pub open spec fn spec_query(self) -> Option<Query> {
        match self {
            Resolution::WindowTitle { raw } => Some(Query::WindowTitle(raw.event_id)),
            Resolution::ProcessId { raw, .. } => Some(Query::ProcessId(raw.event_id)),
            Resolution::ProcessHandle { pid, .. } => Some(Query::ProcessHandle(pid)),
            Resolution::ExecutablePath { process_handle, .. } => Some(
                Query::ExecutablePath(process_handle),
            ),
            Resolution::AppTitle { path, .. } => Some(Query::AppTitle(path)),
            Resolution::Resolved(_) => None,
            Resolution::Failed(_) => None,
        }
    }

    /// The resolution after `finding` came in. An answer to the open question
    /// moves it on to the next step, or ends it when the answer is a failure;
    /// an answer to any other question changes nothing.
    pub open spec fn after(self, finding: Finding) -> Resolution {
        match (self, finding) {
            (Resolution::WindowTitle { raw }, Finding::WindowTitle(Ok(window_title))) => {
                Resolution::ProcessId { raw, window_title }
            },
            (Resolution::ProcessId { raw, window_title }, Finding::ProcessId(Ok(pid))) => {
                Resolution::ProcessHandle { raw, window_title, pid }
            },
            (
                Resolution::ProcessHandle { raw, window_title, pid },
                Finding::ProcessHandle(Ok(process_handle)),
            ) => Resolution::ExecutablePath { raw, window_title, pid, process_handle },
            (
                Resolution::ExecutablePath { raw, window_title, pid, process_handle },
                Finding::ExecutablePath(Ok(path)),
            ) => Resolution::AppTitle { raw, window_title, pid, process_handle, path },
            (
                Resolution::AppTitle { raw, window_title, pid, process_handle, path },
                Finding::AppTitle(Ok(app_title)),
            ) => Resolution::Resolved(
                ProcessedWindowEvent {
                    window_title,
                    pid,
                    process_handle,
                    path,
                    offset: raw.timestamp,
                    app_title,
                },
            ),
            (Resolution::WindowTitle { .. }, Finding::WindowTitle(Err(failure))) => {
                Resolution::Failed(failure)
            },
            (Resolution::ProcessId { .. }, Finding::ProcessId(Err(failure))) => Resolution::Failed(
                failure,
            ),
            (Resolution::ProcessHandle { .. }, Finding::ProcessHandle(Err(failure))) => {
                Resolution::Failed(failure)
            },
            (Resolution::ExecutablePath { .. }, Finding::ExecutablePath(Err(failure))) => {
                Resolution::Failed(failure)
            },
            (Resolution::AppTitle { .. }, Finding::AppTitle(Err(failure))) => Resolution::Failed(
                failure,
            ),
            (unchanged, _) => unchanged,
        }
    }

    /// How the resolution ended, if it has.
    pub open spec fn spec_outcome(self) -> Option<Result<ProcessedWindowEvent, ResolutionFailure>> {
        match self {
            Resolution::Resolved(event) => Some(Ok(event)),
            Resolution::Failed(failure) => Some(Err(failure)),
            _ => None,
        }
    }

    /// The resolution of `raw` before its first step.
    pub fn begin(raw: RawWindowEvent) -> (resolution: Resolution)
        ensures
            resolution == (Resolution::WindowTitle { raw }),
    {
        Resolution::WindowTitle { raw }
    }

    /// The question that is open, if the resolution has not ended.
    pub fn query(&self) -> (query: Option<Query>)
        ensures
            query == self.spec_query(),
    {
        match self {
            Resolution::WindowTitle { raw } => Some(Query::WindowTitle(raw.event_id)),
            Resolution::ProcessId { raw, .. } => Some(Query::ProcessId(raw.event_id)),
            Resolution::ProcessHandle { pid, .. } => Some(Query::ProcessHandle(*pid)),
            Resolution::ExecutablePath { process_handle, .. } => Some(
                Query::ExecutablePath(*process_handle),
            ),
            Resolution::AppTitle { path, .. } => Some(Query::AppTitle(path.clone())),
            Resolution::Resolved(_) => None,
            Resolution::Failed(_) => None,
        }
    }

    /// Takes in what the operating system answered.
    pub fn supply(self, finding: Finding) -> (resolution: Resolution)
        ensures
            resolution == self.after(finding),
    {
        match (self, finding) {
            (Resolution::WindowTitle { raw }, Finding::WindowTitle(Ok(window_title))) => {
                Resolution::ProcessId { raw, window_title }
            },
            (Resolution::ProcessId { raw, window_title }, Finding::ProcessId(Ok(pid))) => {
                Resolution::ProcessHandle { raw, window_title, pid }
            },
            (
                Resolution::ProcessHandle { raw, window_title, pid },
                Finding::ProcessHandle(Ok(process_handle)),
            ) => Resolution::ExecutablePath { raw, window_title, pid, process_handle },
            (
                Resolution::ExecutablePath { raw, window_title, pid, process_handle },
                Finding::ExecutablePath(Ok(path)),
            ) => Resolution::AppTitle { raw, window_title, pid, process_handle, path },
            (
                Resolution::AppTitle { raw, window_title, pid, process_handle, path },
                Finding::AppTitle(Ok(app_title)),
            ) => Resolution::Resolved(
                ProcessedWindowEvent {
                    window_title,
                    pid,
                    process_handle,
                    path,
                    offset: raw.timestamp,
                    app_title,
                },
            ),
            (Resolution::WindowTitle { .. }, Finding::WindowTitle(Err(failure))) => {
                Resolution::Failed(failure)
            },
            (Resolution::ProcessId { .. }, Finding::ProcessId(Err(failure))) => Resolution::Failed(
                failure,
            ),
            (Resolution::ProcessHandle { .. }, Finding::ProcessHandle(Err(failure))) => {
                Resolution::Failed(failure)
            },
            (Resolution::ExecutablePath { .. }, Finding::ExecutablePath(Err(failure))) => {
                Resolution::Failed(failure)
            },
            (Resolution::AppTitle { .. }, Finding::AppTitle(Err(failure))) => Resolution::Failed(
                failure,
            ),
            (unchanged, _) => unchanged,
        }
    }

    /// How the resolution ended, if it has.
    pub fn outcome(self) -> (outcome: Option<Result<ProcessedWindowEvent, ResolutionFailure>>)
        ensures
            outcome == self.spec_outcome(),
    {
        match self {
            Resolution::Resolved(event) => Some(Ok(event)),
            Resolution::Failed(failure) => Some(Err(failure)),
            _ => None,
        }
    }
}

/// Five answers without a failure, given in order, resolve a focus change
/// into what they found; its offset is the time that the hook reported.
pub proof fn lemma_five_answers_resolve(
    raw: RawWindowEvent,
    window_title: String,
    pid: u32,
    process_handle: isize,
    path: String,
    app_title: String,
)
    ensures
        (Resolution::WindowTitle { raw }).after(Finding::WindowTitle(Ok(window_title))).after(
            Finding::ProcessId(Ok(pid)),
        ).after(Finding::ProcessHandle(Ok(process_handle))).after(
            Finding::ExecutablePath(Ok(path)),
        ).after(Finding::AppTitle(Ok(app_title))) == Resolution::Resolved(
            ProcessedWindowEvent {
                window_title,
                pid,
                process_handle,
                path,
                offset: raw.timestamp,
                app_title,
            },
        ),
{
}

/// The first failure ends the resolution with its reason, whatever the steps
/// before it found.
pub proof fn lemma_first_failure_ends_resolution(resolution: Resolution, finding: Finding)
    requires
        resolution.spec_query() matches Some(query) && finding.answers(query),
        finding.failure() is Some,
    ensures
        resolution.after(finding) == Resolution::Failed(finding.failure()->0),
{
}

/// A resolution that has ended asks nothing more, and no answer changes it.
pub proof fn lemma_ended_resolution_stays(resolution: Resolution, finding: Finding)
    requires
        resolution.spec_outcome() is Some,
    ensures
        resolution.spec_query() is None,
        resolution.after(finding) == resolution,
{
}

/// A resolution has ended exactly when it has nothing left to ask.
pub proof fn lemma_resolution_asks_until_it_ends(resolution: Resolution)
    ensures
        resolution.spec_query() is None <==> resolution.spec_outcome() is Some,
{
}

} // verus!
