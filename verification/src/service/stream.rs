//! What the consumer loop makes of a whole stream: which of the focus changes
//! that the channel carries end up at the store.

use crate::entity::event;
use crate::service::event_to_store;
use crate::service::turn_after;
use crate::service::LoopAction;
use crate::service::LoopEvent;
use crate::service::PersistenceFailure;
use crate::service::Phase;
use crate::service::ProcessedWindowEvent;
use crate::service::RawWindowEvent;
use crate::service::ResolutionFailure;
use crate::service::ServiceView;
use crate::service::Turn;
use crate::timestamp::Timestamp;
use vstd::prelude::*;

verus! {

/// What awaits one item of the channel once the loop has read it: how its
/// resolution ends and when, and what the store answers if the event gets
/// that far.
pub struct Fate {
    /// How the resolution ends.
    pub outcome: Result<ProcessedWindowEvent, ResolutionFailure>,
    /// The wall-clock time at which it ends.
    pub at: Timestamp,
    /// What the store answers when the event is handed to it.
    pub stored: Result<(), PersistenceFailure>,
}

/// One item of the channel, a focus change or the sentinel, with its fate.
pub type Item = (Option<RawWindowEvent>, Fate);

/// Whether the sentinel is among `stream`.
pub open spec fn has_sentinel(stream: Seq<Item>) -> bool {
    exists|i: int| 0 <= i < stream.len() && (#[trigger] stream[i]).0 is None
}

/// The turns that the loop takes over one item, from reading it to being
/// ready for the next, and the state in which they leave the loop.
pub open spec fn turns_over_item(state: ServiceView, item: Item) -> (ServiceView, Seq<Turn>) {
    let (read, first) = turn_after(state, LoopEvent::Received(Some(item.0)));
    if first.action is Resolve {
        let (resolved, second) = turn_after(
            read,
            LoopEvent::Resolved { outcome: item.1.outcome, at: item.1.at },
        );
        if second.action is Persist {
            let (stored, third) = turn_after(resolved, LoopEvent::Persisted(item.1.stored));
            (stored, seq![first, second, third])
        } else {
            (resolved, seq![first, second])
        }
    } else {
        (read, seq![first])
    }
}

/// The turns that the loop takes over `stream`, item by item, and the state
/// in which they leave it. Once the loop has stopped it reads no further.
pub open spec fn turns_over(state: ServiceView, stream: Seq<Item>) -> (ServiceView, Seq<Turn>)
    decreases stream.len(),
{
    if stream.len() == 0 {
        (state, Seq::empty())
    } else {
        let (before, turns) = turns_over(state, stream.drop_last());
        if before.phase == Phase::Stopped {
            (before, turns)
        } else {
            let (after, more) = turns_over_item(before, stream.last());
            (after, turns + more)
        }
    }
}

/// The events that `turns` hand to the store, in order.
pub open spec fn handed_to_store(turns: Seq<Turn>) -> Seq<event::Unsaved>
    decreases turns.len(),
{
    if turns.len() == 0 {
        Seq::empty()
    } else {
        let before = handed_to_store(turns.drop_last());
        match turns.last().action {
            LoopAction::Persist(record) => before.push(record),
            _ => before,
        }
    }
}

/// The events of the focus changes of `stream` that come before the sentinel
/// and can be resolved, in order, as events of the session `state.session`.
pub open spec fn resolved_before_sentinel(state: ServiceView, stream: Seq<Item>) -> Seq<
    event::Unsaved,
>
    decreases stream.len(),
{
    if stream.len() == 0 {
        Seq::empty()
    } else {
        let before = resolved_before_sentinel(state, stream.drop_last());
        if has_sentinel(stream.drop_last()) {
            before
        } else {
            match stream.last() {
                (Some(_), Fate { outcome: Ok(resolved), at, .. }) => before.push(
                    event_to_store(resolved, at, state.session),
                ),
                _ => before,
            }
        }
    }
}

/// What is handed to the store over two runs of turns is what is handed over
/// in the first, followed by what is handed over in the second.
proof fn lemma_handed_to_store_in_sequence(turns: Seq<Turn>, more: Seq<Turn>)
    ensures
        handed_to_store(turns + more) == handed_to_store(turns) + handed_to_store(more),
    decreases more.len(),
{
    if more.len() > 0 {
        assert((turns + more).drop_last() =~= turns + more.drop_last());
        lemma_handed_to_store_in_sequence(turns, more.drop_last());
    }
}

/// Over one item the loop hands one event to the store if the item is a focus
/// change that can be resolved, and none otherwise; it stops if the item is
/// the sentinel, and is ready for the next item otherwise.
proof fn lemma_turns_over_item(state: ServiceView, item: Item)
    requires
        state.phase == Phase::Receiving,
    ensures
        turns_over_item(state, item).0 == (ServiceView {
            phase: if item.0 is None {
                Phase::Stopped
            } else {
                Phase::Receiving
            },
            ..state
        }),
        handed_to_store(turns_over_item(state, item).1) == match item {
            (Some(_), Fate { outcome: Ok(resolved), at, .. }) => seq![
                event_to_store(resolved, at, state.session),
            ],
            _ => Seq::<event::Unsaved>::empty(),
        },
{
    reveal_with_fuel(handed_to_store, 4);
}

/// The loop hands to the store the events of exactly those focus changes
/// that were published before the sentinel and could be resolved: each of
/// them once, in the order of publishing, and as an event of the session of
/// this run. A focus change that cannot be resolved, or an event that the
/// store refuses, keeps none of the others from being handed over. The loop
/// has stopped exactly when it has read the sentinel.
pub proof fn lemma_loop_stores_what_resolves_before_the_sentinel(
    state: ServiceView,
    stream: Seq<Item>,
)
    requires
        state.phase == Phase::Receiving,
    ensures
        handed_to_store(turns_over(state, stream).1) == resolved_before_sentinel(state, stream),
        turns_over(state, stream).0 == (ServiceView {
            phase: if has_sentinel(stream) {
                Phase::Stopped
            } else {
                Phase::Receiving
            },
            ..state
        }),
    decreases stream.len(),
{
    if stream.len() > 0 {
        let earlier = stream.drop_last();
        lemma_loop_stores_what_resolves_before_the_sentinel(state, earlier);
        let (before, turns) = turns_over(state, earlier);
        if has_sentinel(earlier) {
            let i = choose|i: int| 0 <= i < earlier.len() && (#[trigger] earlier[i]).0 is None;
            assert(stream[i].0 is None);
        } else {
            lemma_turns_over_item(before, stream.last());
            lemma_handed_to_store_in_sequence(turns, turns_over_item(before, stream.last()).1);
            if stream.last().0 is Some {
                assert forall|i: int| 0 <= i < stream.len() implies (#[trigger] stream[i]).0
                    is Some by {
                    if i < earlier.len() {
                        assert(earlier[i] == stream[i]);
                    }
                }
            }
        }
    }
}

} // verus!
