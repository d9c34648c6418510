//! Statistics over the events of one session: total and average dwell time,
//! dwell time per application, and the timeline of visits.

pub mod dwell;
mod tally;

use crate::entity::event;
use crate::entity::session;
use crate::server::dwell::average_dwell;
use crate::server::dwell::dwell_sum;
use crate::server::dwell::is_dwell_table;
use crate::server::dwell::is_ranked;
use crate::server::dwell::lemma_average_bounds;
use crate::server::dwell::lemma_dwell_table_sums_to_total;
use crate::server::dwell::offsets_non_decreasing;
use crate::server::dwell::ties_in_order_of_appearance;
use crate::server::dwell::total_dwell;
use crate::server::tally::rank;
use crate::server::tally::tally;
use crate::timestamp::whole_millis;
use crate::timestamp::Timestamp;
use vstd::prelude::*;

verus! {

/// One stretch of the timeline during which an application held the focus.
#[derive(Clone, Debug, PartialEq, Eq)]
pub struct AppVisitEntry {
    /// When the application took the focus.
    pub start: Timestamp,
    /// When the next application took it; absent while the visit lasts.
    pub finish: Option<Timestamp>,
    /// Whole milliseconds from `start` to `finish`; 0 while the visit lasts.
    pub duration: u32,
    /// Display title of the application.
    pub app_title: String,
}

/// What is reported about the current session.
#[derive(Clone, Debug, PartialEq, Eq)]
pub struct SessionStatisticsResponse {
    /// The session that the figures are about.
    pub session: session::Model,
    /// Dwell time of each application, the longest first.
    pub time_per_app: Vec<(String, u32)>,
    /// The visits in the order in which they happened, the current one last.
    pub app_visited_entries: Vec<AppVisitEntry>,
    /// Total dwell time divided by the number of events.
    pub avg_time_in_app: u32,
    /// Milliseconds between the first and the last event.
    pub total_time_in_apps: u32,
}

/// Why no statistics can be given.
#[derive(Clone, Copy, Debug, PartialEq, Eq)]
pub enum StatisticsError {
    /// There is no current session, or it has no events yet.
    DataUnavailable,
}

impl StatisticsError {
    /// The reason in words.
    pub fn message(&self) -> (text: String)
        ensures
            text@ == "No events found for current session"@,
    {
        "No events found for current session".to_owned()
    }
}

/// What a `u32` keeps of a count of milliseconds: its remainder modulo 2^32.
pub open spec fn wrapped_millis(millis: int) -> int {
    millis % 0x1_0000_0000
}

/// `entry` describes the visit that begins with event `i`: closed by the next
/// event, or still open when event `i` is the last.
pub open spec fn is_visit(entry: AppVisitEntry, events: Seq<event::Model>, i: int) -> bool {
    &&& entry.start == events[i].timestamp
    &&& entry.app_title@ == events[i].app_title@
    &&& if i + 1 < events.len() {
        &&& entry.finish == Some(events[i + 1].timestamp)
        &&& entry.duration == wrapped_millis(
            whole_millis(events[i + 1].timestamp@ - events[i].timestamp@),
        )
    } else {
        &&& entry.finish is None
        &&& entry.duration == 0
    }
}

/// Whether no event has a smaller offset than the one before it.
pub fn has_non_decreasing_offsets(events: &Vec<event::Model>) -> (ok: bool)
    ensures
        ok == offsets_non_decreasing(events@),
{
    let mut i: usize = 1;
    while i < events.len()
        invariant
            1 <= i,
            forall|a: int, b: int|
                0 <= a <= b < i && b < events.len() ==> events[a].offset <= events[b].offset,
        decreases events.len() - i,
    {
        if events[i].offset < events[i - 1].offset {
            return false;
        }
        i += 1;
    }
    true
}

/// The current session, from the answer of the store to the query for the
/// newest session. There is none before the first session is stored.
pub fn current_session(found: Option<session::Model>) -> (answer: Result<
    session::Model,
    StatisticsError,
>)
    ensures
        answer == match found {
            Some(session) => Ok::<session::Model, StatisticsError>(session),
            None => Err::<session::Model, StatisticsError>(StatisticsError::DataUnavailable),
        },
{
    match found {
        Some(session) => Ok(session),
        None => Err(StatisticsError::DataUnavailable),
    }
}

/// The time that each application held the focus, the longest first.
///
/// Walking the events in order, the time from each event to the next is
/// credited to the application of the earlier of the two. An application that
/// comes back later keeps adding to the same row, and the application of the
/// last event has a row too, which holds what it gathered before. Rows that
/// hold the same stand in the order in which their applications first occur.
pub fn calculate_session_apps_time(events: &Vec<event::Model>) -> (table: Vec<(String, u32)>)
    requires
        offsets_non_decreasing(events@),
    ensures
        is_dwell_table(table@, events@),
        is_ranked(table@),
        ties_in_order_of_appearance(table@, events@),
        dwell_sum(table@) == total_dwell(events@),
{
    let table = rank(tally(events), Ghost(events@));
    proof {
        lemma_dwell_table_sums_to_total(table@, events@);
    }
    table
}

/// The timeline of visits: one entry per event, in order. Each entry but the
/// last is closed by the event that follows it; the last is still open.
pub fn calculate_visited_app_entries(events: &Vec<event::Model>) -> (entries: Vec<AppVisitEntry>)
    requires
        events.len() > 0,
    ensures
        entries.len() == events.len(),
        forall|i: int| 0 <= i < events.len() ==> is_visit(#[trigger] entries[i], events@, i),
{
    let mut entries: Vec<AppVisitEntry> = Vec::new();
    let mut i: usize = 0;
    while i + 1 < events.len()
        invariant
            i < events.len(),
            entries.len() == i,
            forall|j: int| 0 <= j < i ==> is_visit(#[trigger] entries[j], events@, j),
        decreases events.len() - i,
    {
        let start = &events[i];
        let finish = &events[i + 1];
        let elapsed = start.timestamp.millis_until(&finish.timestamp);
        let duration = elapsed as u32;
        assert(duration == elapsed % 0x1_0000_0000) by (bit_vector)
            requires
                duration == elapsed as u32,
        ;
        entries.push(
            AppVisitEntry {
                start: start.timestamp,
                finish: Some(finish.timestamp),
                duration,
                app_title: start.app_title.clone(),
            },
        );
        i += 1;
    }
    let last = &events[i];
    entries.push(
        AppVisitEntry {
            start: last.timestamp,
            finish: None,
            duration: 0,
            app_title: last.app_title.clone(),
        },
    );
    entries
}

/// The statistics of the current session, from what the store holds of it:
/// `found` is the answer to the query for the newest session together with
/// its events, in the order in which they were stored.
///
/// Nothing can be said while no session exists or the session has no event.
pub fn get_current_session_statistics(found: &Vec<(session::Model, Vec<event::Model>)>) -> (answer:
    Result<SessionStatisticsResponse, StatisticsError>)
    requires
        found.len() > 0 ==> offsets_non_decreasing(found[0].1@),
    ensures
        answer is Err <==> found.len() == 0 || found[0].1.len() == 0,
        answer matches Err(reason) ==> reason == StatisticsError::DataUnavailable,
        answer matches Ok(report) ==> {
            let events = found[0].1@;
            &&& report.session == found[0].0
            &&& report.total_time_in_apps == total_dwell(events)
            &&& report.avg_time_in_app == average_dwell(events)
            &&& report.avg_time_in_app * events.len() <= report.total_time_in_apps
                <= report.avg_time_in_app * events.len() + (events.len() - 1)
            &&& is_dwell_table(report.time_per_app@, events)
            &&& is_ranked(report.time_per_app@)
            &&& ties_in_order_of_appearance(report.time_per_app@, events)
            &&& dwell_sum(report.time_per_app@) == report.total_time_in_apps
            &&& report.app_visited_entries.len() == events.len()
            &&& forall|i: int|
                0 <= i < events.len() ==> is_visit(
                    #[trigger] report.app_visited_entries[i],
                    events,
                    i,
                )
        },
{
    if found.len() == 0 {
        return Err(StatisticsError::DataUnavailable);
    }
    let session = found[0].0;
    let events = &found[0].1;
    if events.len() == 0 {
        return Err(StatisticsError::DataUnavailable);
    }
    let total_time_in_apps = events[events.len() - 1].offset - events[0].offset;
    let avg_time_in_app = (total_time_in_apps as u64 / events.len() as u64) as u32;
    proof {
        lemma_average_bounds(events@);
    }
    let time_per_app = calculate_session_apps_time(events);
    let app_visited_entries = calculate_visited_app_entries(events);
    Ok(
        SessionStatisticsResponse {
            session,
            time_per_app,
            app_visited_entries,
            avg_time_in_app,
            total_time_in_apps,
        },
    )
}

/// A visit that is closed after it began, and lasted less than the 2^32
/// milliseconds that fit its duration, has for its duration the whole
/// milliseconds between its start and its finish.
pub proof fn lemma_closed_visit_lasts_from_start_to_finish(
    entry: AppVisitEntry,
    events: Seq<event::Model>,
    i: int,
)
    requires
        0 <= i < events.len() - 1,
        is_visit(entry, events, i),
        0 <= whole_millis(events[i + 1].timestamp@ - events[i].timestamp@) <= u32::MAX,
    ensures
        entry.finish matches Some(finish) && entry.duration == whole_millis(
            finish@ - entry.start@,
        ),
        entry.duration >= 0,
{
}

} // verus!
