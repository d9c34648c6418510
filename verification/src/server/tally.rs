//! Building the table of dwell times: one pass over the events to add the
//! times up, and one over the rows to put the longest first.

use crate::entity::event;
use crate::server::dwell::covers;
use crate::server::dwell::distinct_apps;
use crate::server::dwell::dwell_of;
use crate::server::dwell::first_occurrence;
use crate::server::dwell::has_row;
use crate::server::dwell::in_order_of_appearance;
use crate::server::dwell::is_dwell_row;
use crate::server::dwell::is_dwell_table;
use crate::server::dwell::is_ranked;
use crate::server::dwell::lemma_absent_app_has_no_dwell;
use crate::server::dwell::lemma_dwell_within_total;
use crate::server::dwell::lemma_first_occurrence;
use crate::server::dwell::occurs;
use crate::server::dwell::offsets_non_decreasing;
use crate::server::dwell::ties_in_order_of_appearance;
use vstd::prelude::*;

verus! {

/// The index of the row of `table` that is about `app`, if there is one.
fn row_of(table: &Vec<(String, u32)>, app: &String) -> (found: Option<usize>)
    ensures
        match found {
            Some(k) => k < table.len() && table[k as int].0@ == app@,
            None => !has_row(table@, app@),
        },
{
    let mut k: usize = 0;
    while k < table.len()
        invariant
            k <= table.len(),
            forall|j: int| 0 <= j < k ==> table[j].0@ != app@,
        decreases table.len() - k,
    {
        if table[k].0 == *app {
            return Some(k);
        }
        k += 1;
    }
    None
}

/// What `tally` holds of its table between crediting the time up to the
/// newest event and giving the application of that event its row: the events
/// before the newest are `seen`, and with it they are `next`.
spec fn is_credited(
    table: Seq<(String, u32)>,
    seen: Seq<event::Model>,
    next: Seq<event::Model>,
) -> bool {
    &&& distinct_apps(table)
    &&& covers(table, seen)
    &&& in_order_of_appearance(table, seen)
    &&& forall|k: int|
        0 <= k < table.len() ==> occurs(seen, (#[trigger] table[k]).0@) && table[k].1 == dwell_of(
            next,
            table[k].0@,
        )
}

/// Crediting the time up to the newest event to the row of the event
/// before it brings every row up to date.
proof fn lemma_credit(
    table: Seq<(String, u32)>,
    seen: Seq<event::Model>,
    next: Seq<event::Model>,
    k: int,
    row: (String, u32),
)
    requires
        seen.len() > 0,
        next.len() == seen.len() + 1,
        next.drop_last() == seen,
        is_dwell_table(table, seen),
        in_order_of_appearance(table, seen),
        0 <= k < table.len(),
        table[k].0@ == seen.last().app_title@,
        row.0@ == table[k].0@,
        row.1 == table[k].1 + (next.last().offset - seen.last().offset),
    ensures
        is_credited(table.update(k, row), seen, next),
{
    let credited = table.update(k, row);
    assert forall|e: int| 0 <= e < seen.len() implies has_row(
        credited,
        #[trigger] seen[e].app_title@,
    ) by {
        let w = choose|w: int| 0 <= w < table.len() && #[trigger] table[w].0@ == seen[e].app_title@;
        assert(credited[w].0@ == seen[e].app_title@);
    }
}

/// A credited table whose rows include the application of the newest event
/// is the table of the events up to it.
proof fn lemma_known_app(
    table: Seq<(String, u32)>,
    seen: Seq<event::Model>,
    next: Seq<event::Model>,
)
    requires
        next.len() == seen.len() + 1,
        next.drop_last() == seen,
        is_credited(table, seen, next),
        has_row(table, next.last().app_title@),
    ensures
        is_dwell_table(table, next),
        in_order_of_appearance(table, next),
{
    assert forall|e: int| 0 <= e < next.len() implies has_row(
        table,
        #[trigger] next[e].app_title@,
    ) by {
        if e < seen.len() {
            assert(next[e] == seen[e]);
        }
    }
}

/// A credited table that lacks the application of the newest event becomes
/// the table of the events up to it when a row that holds nothing is added
/// for that application.
proof fn lemma_new_app(
    table: Seq<(String, u32)>,
    seen: Seq<event::Model>,
    next: Seq<event::Model>,
    row: (String, u32),
)
    requires
        next.len() == seen.len() + 1,
        next.drop_last() == seen,
        is_credited(table, seen, next),
        !has_row(table, next.last().app_title@),
        row.0@ == next.last().app_title@,
        row.1 == 0,
    ensures
        is_dwell_table(table.push(row), next),
        in_order_of_appearance(table.push(row), next),
{
    let grown = table.push(row);
    let app = row.0@;
    lemma_absent_app_has_no_dwell(seen, app);
    assert forall|e: int| 0 <= e < next.len() implies has_row(
        grown,
        #[trigger] next[e].app_title@,
    ) by {
        if e < seen.len() {
            let w = choose|w: int|
                0 <= w < table.len() && #[trigger] table[w].0@ == seen[e].app_title@;
            assert(grown[w].0@ == seen[e].app_title@);
        } else {
            assert(grown[table.len() as int].0@ == next[e].app_title@);
        }
    }
    assert forall|a: int, b: int| 0 <= a < b < grown.len() implies grown[a].0@ != grown[b].0@
        && first_occurrence(next, grown[a].0@) < first_occurrence(next, grown[b].0@) by {
        lemma_first_occurrence(seen, table[a].0@);
    }
}

/// The dwell time of each application that occurs in `events`, one row per
/// application, in the order in which the applications first occur.
pub(crate) fn tally(events: &Vec<event::Model>) -> (table: Vec<(String, u32)>)
    requires
        offsets_non_decreasing(events@),
    ensures
        is_dwell_table(table@, events@),
        in_order_of_appearance(table@, events@),
{
    let mut table: Vec<(String, u32)> = Vec::new();
    let mut i: usize = 0;
    while i < events.len()
        invariant
            i <= events.len(),
            offsets_non_decreasing(events@),
            is_dwell_table(table@, events@.take(i as int)),
            in_order_of_appearance(table@, events@.take(i as int)),
        decreases events.len() - i,
    {
        let ghost seen = events@.take(i as int);
        let ghost next = events@.take(i + 1);
        assert(next.drop_last() =~= seen);
        if i > 0 {
            let spent = events[i].offset - events[i - 1].offset;
            let found = row_of(&table, &events[i - 1].app_title);
            assert(has_row(table@, seen[i - 1].app_title@));
            let k = found.unwrap();
            let held = table[k].1;
            proof {
                lemma_dwell_within_total(next, table@[k as int].0@);
            }
            let name = table[k].0.clone();
            proof {
                lemma_credit(table@, seen, next, k as int, (name, (held + spent) as u32));
            }
            table.set(k, (name, held + spent));
        }
        if row_of(&table, &events[i].app_title).is_none() {
            let name = events[i].app_title.clone();
            proof {
                lemma_new_app(table@, seen, next, (name, 0u32));
            }
            table.push((name, 0));
        } else {
            proof {
                lemma_known_app(table@, seen, next);
            }
        }
        i += 1;
    }
    assert(events@.take(i as int) =~= events@);
    table
}

/// A row put into a table is found there, and so is every row that was.
proof fn lemma_insert_keeps_rows(
    table: Seq<(String, u32)>,
    at: int,
    row: (String, u32),
    app: Seq<char>,
)
    requires
        0 <= at <= table.len(),
        has_row(table, app) || row.0@ == app,
    ensures
        has_row(table.insert(at, row), app),
{
    let grown = table.insert(at, row);
    if row.0@ == app {
        assert(grown[at].0@ == app);
    } else {
        let k = choose|k: int| 0 <= k < table.len() && #[trigger] table[k].0@ == app;
        if k < at {
            assert(grown[k].0@ == app);
        } else {
            assert(grown[k + 1].0@ == app);
        }
    }
}

/// The rows of `table`, the longest dwell time first. Rows with equal dwell
/// times keep their order.
pub(crate) fn rank(table: Vec<(String, u32)>, Ghost(events): Ghost<Seq<event::Model>>) -> (ranked: Vec<
    (String, u32),
>)
    requires
        is_dwell_table(table@, events),
        in_order_of_appearance(table@, events),
    ensures
        is_dwell_table(ranked@, events),
        is_ranked(ranked@),
        ties_in_order_of_appearance(ranked@, events),
{
    let mut rest = table;
    let mut ranked: Vec<(String, u32)> = Vec::new();
    while rest.len() > 0
        invariant
            distinct_apps(rest@),
            distinct_apps(ranked@),
            forall|j: int, k: int|
                0 <= j < rest.len() && 0 <= k < ranked.len() ==> rest[j].0@ != ranked[k].0@
                    && first_occurrence(events, rest[j].0@) < first_occurrence(
                    events,
                    ranked[k].0@,
                ),
            forall|i: int|
                0 <= i < events.len() ==> has_row(rest@, #[trigger] events[i].app_title@)
                    || has_row(ranked@, events[i].app_title@),
            forall|j: int| 0 <= j < rest.len() ==> is_dwell_row(#[trigger] rest[j], events),
            forall|k: int| 0 <= k < ranked.len() ==> is_dwell_row(#[trigger] ranked[k], events),
            in_order_of_appearance(rest@, events),
            is_ranked(ranked@),
            ties_in_order_of_appearance(ranked@, events),
        decreases rest.len(),
    {
        let ghost rest_before = rest@;
        let ghost ranked_before = ranked@;
        let row = rest.pop().unwrap();
        let mut at: usize = 0;
        while at < ranked.len() && ranked[at].1 > row.1
            invariant
                at <= ranked.len(),
                forall|k: int| 0 <= k < at ==> ranked[k].1 > row.1,
            decreases ranked.len() - at,
        {
            at += 1;
        }
        ranked.insert(at, row);
        proof {
            ranked_before.insert_ensures(at as int, row);
            assert forall|i: int| 0 <= i < events.len() implies has_row(
                rest@,
                #[trigger] events[i].app_title@,
            ) || has_row(ranked@, events[i].app_title@) by {
                let app = events[i].app_title@;
                if has_row(ranked_before, app) {
                    lemma_insert_keeps_rows(ranked_before, at as int, row, app);
                } else {
                    let j = choose|j: int|
                        0 <= j < rest_before.len() && #[trigger] rest_before[j].0@ == app;
                    if j == rest_before.len() - 1 {
                        lemma_insert_keeps_rows(ranked_before, at as int, row, app);
                    } else {
                        assert(rest[j].0@ == app);
                    }
                }
            }
        }
    }
    ranked
}

} // verus!
