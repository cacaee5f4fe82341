use vstd::prelude::*;
use crate::log::LogEntry;
use crate::widget::{Message, ModelView};

verus! {

/// The state reached from a fresh widget by handling `events` in order.
pub open spec fn run(events: Seq<Message>) -> ModelView
    decreases events.len(),
{
    if events.len() == 0 {
        ModelView::initial()
    } else {
        run(events.drop_last()).step(events.last())
    }
}

/// The message at `i` is a `StartInterval` with no `Cancel` or `Done` after it.
pub open spec fn start_unended(events: Seq<Message>, i: int) -> bool {
    &&& 0 <= i < events.len()
    &&& events[i] == Message::StartInterval
    &&& forall|j: int|
        i < j < events.len() ==> #[trigger] events[j] != Message::Cancel && events[j]
            != Message::Done
}

/// Some `StartInterval` in `events` has no `Cancel` or `Done` after it.
pub open spec fn started_and_not_ended(events: Seq<Message>) -> bool {
    exists|i: int| #[trigger] start_unended(events, i)
}

/// After any sequence of messages, a job runs exactly when some
/// `StartInterval` has come with no `Cancel` or `Done` after it.
pub proof fn lemma_running_iff_started(events: Seq<Message>)
    ensures
        run(events).running <==> started_and_not_ended(events),
    decreases events.len(),
{
    if events.len() > 0 {
        let prev = events.drop_last();
        let n = events.len() - 1;
        lemma_running_iff_started(prev);
        assert(events[n] == events.last());
        if events.last() == Message::StartInterval {
            assert(start_unended(events, n));
        } else if events.last() == Message::Tick {
            if started_and_not_ended(prev) {
                let i = choose|i: int| start_unended(prev, i);
                assert forall|j: int| i < j < events.len() implies #[trigger] events[j]
                    != Message::Cancel && events[j] != Message::Done by {
                    if j < n {
                        assert(events[j] == prev[j]);
                    }
                }
                assert(start_unended(events, i));
            }
            if started_and_not_ended(events) {
                let i = choose|i: int| start_unended(events, i);
                assert forall|j: int| i < j < prev.len() implies #[trigger] prev[j]
                    != Message::Cancel && prev[j] != Message::Done by {
                    assert(events[j] == prev[j]);
                }
                assert(start_unended(prev, i));
            }
        } else if started_and_not_ended(events) {
            let i = choose|i: int| start_unended(events, i);
            assert(events[n] != Message::Cancel && events[n] != Message::Done);
        }
    }
}

/// A `Cancel` right after a `StartInterval` leaves no job running and the
/// log ending in "canceled", whatever the state before.
pub proof fn lemma_cancel_after_start(s: ModelView)
    ensures
        !s.step(Message::StartInterval).step(Message::Cancel).running,
        s.step(Message::StartInterval).step(Message::Cancel).log.last() == LogEntry::Canceled,
        s.step(Message::StartInterval).step(Message::Cancel).log == seq![
            LogEntry::IntervalStarted,
            LogEntry::Canceled,
        ],
{
    assert(s.step(Message::StartInterval).step(Message::Cancel).log =~= seq![
        LogEntry::IntervalStarted,
        LogEntry::Canceled,
    ]);
}

} // verus!
