//! What a table of dwell times is: the time for which each application held
//! the focus, and what holds of a table that lists it.

use crate::entity::event;
use vstd::prelude::*;

verus! {

/// No event has a smaller offset than an earlier one.
pub open spec fn offsets_non_decreasing(events: Seq<event::Model>) -> bool {
    forall|i: int, j: int| 0 <= i <= j < events.len() ==> events[i].offset <= events[j].offset
}

/// Milliseconds between the first and the last event.
pub open spec fn total_dwell(events: Seq<event::Model>) -> int {
    if events.len() == 0 {
        0
    } else {
        events.last().offset - events.first().offset
    }
}

/// Total dwell time divided by the number of events, rounded down.
pub open spec fn average_dwell(events: Seq<event::Model>) -> int {
    total_dwell(events) / (events.len() as int)
}

/// Milliseconds during which `app` held the focus: the sum, over every event
/// of `app` that has a successor, of the time until that successor.
pub open spec fn dwell_of(events: Seq<event::Model>, app: Seq<char>) -> int
    decreases events.len(),
{
    if events.len() < 2 {
        0
    } else {
        let earlier = events.drop_last();
        let held = if earlier.last().app_title@ == app {
            events.last().offset - earlier.last().offset
        } else {
            0
        };
        dwell_of(earlier, app) + held
    }
}

/// Some event belongs to `app`.
pub open spec fn occurs(events: Seq<event::Model>, app: Seq<char>) -> bool {
    exists|i: int| 0 <= i < events.len() && #[trigger] events[i].app_title@ == app
}

/// The index of the first event that belongs to `app`, given that one does;
/// `lemma_first_occurrence` shows that it is.
pub open spec fn first_occurrence(events: Seq<event::Model>, app: Seq<char>) -> int
    decreases events.len(),
{
    if events.len() == 0 {
        0
    } else if occurs(events.drop_last(), app) {
        first_occurrence(events.drop_last(), app)
    } else {
        events.len() - 1
    }
}

/// Some row of `table` is about `app`.
pub open spec fn has_row(table: Seq<(String, u32)>, app: Seq<char>) -> bool {
    exists|k: int| 0 <= k < table.len() && #[trigger] table[k].0@ == app
}

/// No application has two rows.
pub open spec fn distinct_apps(table: Seq<(String, u32)>) -> bool {
    forall|j: int, k: int| 0 <= j < k < table.len() ==> table[j].0@ != table[k].0@
}

/// `row` is about an application that occurs in `events` and holds its dwell
/// time.
pub open spec fn is_dwell_row(row: (String, u32), events: Seq<event::Model>) -> bool {
    occurs(events, row.0@) && row.1 == dwell_of(events, row.0@)
}

/// Every application that occurs in `events` has a row in `table`.
pub open spec fn covers(table: Seq<(String, u32)>, events: Seq<event::Model>) -> bool {
    forall|i: int| 0 <= i < events.len() ==> has_row(table, #[trigger] events[i].app_title@)
}

/// `table` has one row for each application that occurs in `events`, no
/// other row, and each row holds the dwell time of its application.
pub open spec fn is_dwell_table(table: Seq<(String, u32)>, events: Seq<event::Model>) -> bool {
    &&& distinct_apps(table)
    &&& covers(table, events)
    &&& forall|k: int| 0 <= k < table.len() ==> is_dwell_row(#[trigger] table[k], events)
}

/// The sum of the dwell times in `table`.
pub open spec fn dwell_sum(table: Seq<(String, u32)>) -> int
    decreases table.len(),
{
    if table.len() == 0 {
        0
    } else {
        dwell_sum(table.drop_last()) + table.last().1
    }
}

/// No row holds more than a row before it.
pub open spec fn is_ranked(table: Seq<(String, u32)>) -> bool {
    forall|j: int, k: int| 0 <= j <= k < table.len() ==> table[j].1 >= table[k].1
}

/// Of two rows that hold the same, the one whose application occurs first in
/// `events` stands first.
pub open spec fn ties_in_order_of_appearance(
    table: Seq<(String, u32)>,
    events: Seq<event::Model>,
) -> bool {
    forall|j: int, k: int|
        0 <= j < k < table.len() && table[j].1 == table[k].1 ==> first_occurrence(
            events,
            table[j].0@,
        ) < first_occurrence(events, table[k].0@)
}

/// The rows stand in the order in which their applications first occur in
/// `events`.
pub open spec fn in_order_of_appearance(
    table: Seq<(String, u32)>,
    events: Seq<event::Model>,
) -> bool {
    forall|j: int, k: int|
        0 <= j < k < table.len() ==> first_occurrence(events, table[j].0@) < first_occurrence(
            events,
            table[k].0@,
        )
}

/// The average, multiplied back by the number of events, falls short of the
/// total by less than the number of events.
pub proof fn lemma_average_bounds(events: Seq<event::Model>)
    requires
        events.len() > 0,
        offsets_non_decreasing(events),
    ensures
        0 <= average_dwell(events) <= total_dwell(events),
        average_dwell(events) * events.len() <= total_dwell(events) <= average_dwell(events)
            * events.len() + (events.len() - 1),
{
    let total = total_dwell(events);
    let count = events.len() as int;
    assert(0 <= total / count <= total && (total / count) * count <= total <= (total / count)
        * count + (count - 1)) by (nonlinear_arith)
        requires
            0 <= total,
            0 < count,
    ;
}

/// The first event of an application that occurs is an event of it, and no
/// event before it is.
pub proof fn lemma_first_occurrence(events: Seq<event::Model>, app: Seq<char>)
    requires
        occurs(events, app),
    ensures
        0 <= first_occurrence(events, app) < events.len(),
        events[first_occurrence(events, app)].app_title@ == app,
        forall|i: int| 0 <= i < first_occurrence(events, app) ==> events[i].app_title@ != app,
    decreases events.len(),
{
    let earlier = events.drop_last();
    if occurs(earlier, app) {
        lemma_first_occurrence(earlier, app);
        assert forall|i: int| 0 <= i < first_occurrence(events, app) implies events[i].app_title@
            != app by {
            assert(earlier[i].app_title@ != app);
        }
    } else {
        assert forall|i: int| 0 <= i < events.len() - 1 implies events[i].app_title@ != app by {
            assert(earlier[i].app_title@ != app);
        }
    }
}

/// An application that holds the focus holds it for no longer than the
/// events span.
pub(crate) proof fn lemma_dwell_within_total(events: Seq<event::Model>, app: Seq<char>)
    requires
        offsets_non_decreasing(events),
    ensures
        0 <= dwell_of(events, app) <= total_dwell(events),
    decreases events.len(),
{
    if events.len() >= 2 {
        let earlier = events.drop_last();
        lemma_dwell_within_total(earlier, app);
    }
}

/// An application that does not occur holds the focus for no time.
pub(crate) proof fn lemma_absent_app_has_no_dwell(events: Seq<event::Model>, app: Seq<char>)
    requires
        !occurs(events, app),
    ensures
        dwell_of(events, app) == 0,
    decreases events.len(),
{
    if events.len() >= 2 {
        let earlier = events.drop_last();
        lemma_absent_app_has_no_dwell(earlier, app);
    }
}

/// The sum, over the rows of `table`, of the time for which the application
/// of the row held the focus in `events`.
spec fn dwell_of_rows(table: Seq<(String, u32)>, events: Seq<event::Model>) -> int
    decreases table.len(),
{
    if table.len() == 0 {
        0
    } else {
        dwell_of_rows(table.drop_last(), events) + dwell_of(events, table.last().0@)
    }
}

/// With fewer than two events, no application has held the focus.
proof fn lemma_no_dwell_without_a_successor(table: Seq<(String, u32)>, events: Seq<event::Model>)
    requires
        events.len() < 2,
    ensures
        dwell_of_rows(table, events) == 0,
    decreases table.len(),
{
    if table.len() > 0 {
        lemma_no_dwell_without_a_successor(table.drop_last(), events);
    }
}

/// The newest event adds the time since the event before it to the row of
/// that event's application, and to no other row.
proof fn lemma_newest_event_credits_one_row(table: Seq<(String, u32)>, events: Seq<event::Model>)
    requires
        events.len() >= 2,
        distinct_apps(table),
    ensures
        dwell_of_rows(table, events) == dwell_of_rows(table, events.drop_last()) + if has_row(
            table,
            events[events.len() - 2].app_title@,
        ) {
            events.last().offset - events[events.len() - 2].offset
        } else {
            0
        },
    decreases table.len(),
{
    let app = events[events.len() - 2].app_title@;
    if table.len() > 0 {
        let above = table.drop_last();
        lemma_newest_event_credits_one_row(above, events);
        if table.last().0@ != app && has_row(table, app) {
            let k = choose|k: int| 0 <= k < table.len() && #[trigger] table[k].0@ == app;
            assert(above[k].0@ == app);
        }
    }
}

/// The times for which the applications held the focus add up to the time
/// between the first and the last event: each step from one event to the
/// next is counted for exactly one application.
proof fn lemma_rows_span_the_events(table: Seq<(String, u32)>, events: Seq<event::Model>)
    requires
        distinct_apps(table),
        covers(table, events),
    ensures
        dwell_of_rows(table, events) == total_dwell(events),
    decreases events.len(),
{
    if events.len() < 2 {
        lemma_no_dwell_without_a_successor(table, events);
    } else {
        let earlier = events.drop_last();
        lemma_rows_span_the_events(table, earlier);
        lemma_newest_event_credits_one_row(table, events);
    }
}

/// In a table whose rows hold the dwell times of their applications, the sum
/// of what the rows hold is the sum of those dwell times.
proof fn lemma_sum_is_dwell_of_rows(table: Seq<(String, u32)>, events: Seq<event::Model>)
    requires
        forall|k: int| 0 <= k < table.len() ==> is_dwell_row(#[trigger] table[k], events),
    ensures
        dwell_sum(table) == dwell_of_rows(table, events),
    decreases table.len(),
{
    if table.len() > 0 {
        let above = table.drop_last();
        lemma_sum_is_dwell_of_rows(above, events);
    }
}

/// The dwell times of a dwell table add up to the time between the first and
/// the last event, whatever the order of its rows.
pub proof fn lemma_dwell_table_sums_to_total(table: Seq<(String, u32)>, events: Seq<event::Model>)
    requires
        is_dwell_table(table, events),
    ensures
        dwell_sum(table) == total_dwell(events),
{
    lemma_rows_span_the_events(table, events);
    lemma_sum_is_dwell_of_rows(table, events);
}

/// The applications of `table`, row by row.
spec fn apps_of(table: Seq<(String, u32)>) -> Seq<Seq<char>> {
    Seq::new(table.len(), |k: int| table[k].0@)
}

/// The application of a row of one dwell table has a row in every other
/// dwell table of the same events, and that row holds the same.
proof fn lemma_row_is_in_the_other_table(
    a: Seq<(String, u32)>,
    b: Seq<(String, u32)>,
    events: Seq<event::Model>,
    k: int,
)
    requires
        is_dwell_table(a, events),
        is_dwell_table(b, events),
        0 <= k < a.len(),
    ensures
        has_row(b, a[k].0@),
        forall|m: int| 0 <= m < b.len() && b[m].0@ == a[k].0@ ==> b[m].1 == a[k].1,
{
    assert(is_dwell_row(a[k], events));
    let w = choose|w: int| 0 <= w < events.len() && #[trigger] events[w].app_title@ == a[k].0@;
    assert(has_row(b, events[w].app_title@));
    assert forall|m: int| 0 <= m < b.len() && b[m].0@ == a[k].0@ implies b[m].1 == a[k].1 by {
        assert(is_dwell_row(b[m], events));
    }
}

/// Two dwell tables of the same events have the same number of rows.
proof fn lemma_dwell_tables_are_equally_long(
    a: Seq<(String, u32)>,
    b: Seq<(String, u32)>,
    events: Seq<event::Model>,
)
    requires
        is_dwell_table(a, events),
        is_dwell_table(b, events),
    ensures
        a.len() == b.len(),
{
    let apps_a = apps_of(a);
    let apps_b = apps_of(b);
    assert forall|app: Seq<char>| apps_a.to_set().contains(app) <==> apps_b.to_set().contains(
        app,
    ) by {
        if apps_a.contains(app) {
            let k = choose|k: int| 0 <= k < apps_a.len() && apps_a[k] == app;
            lemma_row_is_in_the_other_table(a, b, events, k);
            let m = choose|m: int| 0 <= m < b.len() && #[trigger] b[m].0@ == a[k].0@;
            assert(apps_b[m] == app);
        }
        if apps_b.contains(app) {
            let k = choose|k: int| 0 <= k < apps_b.len() && apps_b[k] == app;
            lemma_row_is_in_the_other_table(b, a, events, k);
            let m = choose|m: int| 0 <= m < a.len() && #[trigger] a[m].0@ == b[k].0@;
            assert(apps_a[m] == app);
        }
    }
    assert(apps_a.to_set() =~= apps_b.to_set());
    apps_a.unique_seq_to_set();
    apps_b.unique_seq_to_set();
}

/// Two ranked dwell tables of the same events that agree on their first `k`
/// rows agree on the next row too.
proof fn lemma_ranked_dwell_tables_agree_on_the_next_row(
    a: Seq<(String, u32)>,
    b: Seq<(String, u32)>,
    events: Seq<event::Model>,
    k: int,
)
    requires
        is_dwell_table(a, events),
        is_ranked(a),
        ties_in_order_of_appearance(a, events),
        is_dwell_table(b, events),
        is_ranked(b),
        ties_in_order_of_appearance(b, events),
        a.len() == b.len(),
        0 <= k < a.len(),
        forall|i: int| 0 <= i < k ==> a[i].0@ == b[i].0@,
    ensures
        a[k].0@ == b[k].0@,
{
    lemma_row_is_in_the_other_table(a, b, events, k);
    lemma_row_is_in_the_other_table(b, a, events, k);
    let m = choose|m: int| 0 <= m < b.len() && #[trigger] b[m].0@ == a[k].0@;
    let n = choose|n: int| 0 <= n < a.len() && #[trigger] a[n].0@ == b[k].0@;
    if m < k {
        assert(a[m].0@ == b[m].0@);
    }
    if n < k {
        assert(a[n].0@ == b[n].0@);
    }
    if m > k && n > k {
        assert(a[k].1 >= a[n].1);
        assert(b[k].1 >= b[m].1);
    }
}

/// Two ranked dwell tables of the same events agree on their first `k` rows.
proof fn lemma_ranked_dwell_tables_agree_up_to(
    a: Seq<(String, u32)>,
    b: Seq<(String, u32)>,
    events: Seq<event::Model>,
    k: int,
)
    requires
        is_dwell_table(a, events),
        is_ranked(a),
        ties_in_order_of_appearance(a, events),
        is_dwell_table(b, events),
        is_ranked(b),
        ties_in_order_of_appearance(b, events),
        a.len() == b.len(),
        0 <= k <= a.len(),
    ensures
        forall|i: int| 0 <= i < k ==> a[i].0@ == b[i].0@,
    decreases k,
{
    if k > 0 {
        lemma_ranked_dwell_tables_agree_up_to(a, b, events, k - 1);
        lemma_ranked_dwell_tables_agree_on_the_next_row(a, b, events, k - 1);
    }
}

/// The events determine their ranked dwell table: any two of them name the
/// same applications with the same dwell times, row by row.
pub proof fn lemma_ranked_dwell_table_is_unique(
    a: Seq<(String, u32)>,
    b: Seq<(String, u32)>,
    events: Seq<event::Model>,
)
    requires
        is_dwell_table(a, events),
        is_ranked(a),
        ties_in_order_of_appearance(a, events),
        is_dwell_table(b, events),
        is_ranked(b),
        ties_in_order_of_appearance(b, events),
    ensures
        a.len() == b.len(),
        forall|k: int| 0 <= k < a.len() ==> a[k].0@ == b[k].0@ && a[k].1 == b[k].1,
{
    lemma_dwell_tables_are_equally_long(a, b, events);
    lemma_ranked_dwell_tables_agree_up_to(a, b, events, a.len() as int);
}

} // verus!
