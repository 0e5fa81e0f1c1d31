//! A walk back through the event history, batch by batch.
//!
//! The first batch is asked for without `before_id`, and each further one with the lowest id of
//! the batch before it. Events that come meanwhile are newer than those of the first batch.

use vstd::prelude::*;

use crate::api::queries::{
    are_event_rows, is_event_plan, is_event_row, row_limit_of, EventsParams,
};
use crate::api::walk::lemma_filter_end;
use crate::api::wire::WireHistoricalEvent;
use crate::state::{EventQuery, HistoricalEvent};
use crate::text::opt_text;

verus! {

// ---------------------------------------------------------------------
// The history
// ---------------------------------------------------------------------

/// Whether an event has a lower id than another.
pub open spec fn has_lower_id(than: u64) -> spec_fn(HistoricalEvent) -> bool {
    |row: HistoricalEvent| row.id < than
}

/// Whether events stand with the highest id first.
pub open spec fn highest_first(rows: Seq<HistoricalEvent>) -> bool {
    forall|i: int, j: int|
        0 <= i < j < rows.len() ==> (#[trigger] rows[j]).id < (#[trigger] rows[i]).id
}

/// What the history answers when `limit` events are read, of those with a lower id where one is
/// given: the first of them.
pub open spec fn history_answer(
    history: Seq<HistoricalEvent>,
    before_id: Option<u64>,
    limit: nat,
) -> Seq<HistoricalEvent> {
    let left = match before_id {
        Some(than) => history.filter(has_lower_id(than)),
        None => history,
    };
    if limit < left.len() {
        left.take(limit as int)
    } else {
        left
    }
}

/// Whether a history holds these events, and before them only events with higher ids.
pub open spec fn history_grew(
    history: Seq<HistoricalEvent>,
    rows: Seq<HistoricalEvent>,
) -> bool {
    &&& highest_first(history)
    &&& rows.len() <= history.len()
    &&& history.skip(history.len() - rows.len()) == rows
}

// ---------------------------------------------------------------------
// The walk
// ---------------------------------------------------------------------

/// A request of a walk, and what became of it.
pub struct EventStep {
    pub params: EventsParams,
    pub plan: (EventQuery, usize),
    /// The events that meet the filters of the request.
    pub history: Seq<HistoricalEvent>,
    pub batch: Seq<WireHistoricalEvent>,
}

/// Whether two requests ask for the same events, as many at a time.
pub open spec fn same_events(a: EventsParams, b: EventsParams) -> bool {
    &&& a.since_ms == b.since_ms
    &&& a.until_ms == b.until_ms
    &&& opt_text(a.device_id) == opt_text(b.device_id)
    &&& opt_text(a.instance_id) == opt_text(b.instance_id)
    &&& opt_text(a.plugin_id) == opt_text(b.plugin_id)
    &&& opt_text(a.topic) == opt_text(b.topic)
    &&& opt_text(a.topic_prefix) == opt_text(b.topic_prefix)
    &&& a.after_id == b.after_id
    &&& a.limit == b.limit
}

/// Whether a request of a walk carries the lowest id of the batch before it, and was planned and
/// answered from a history that grew from `rows`.
pub open spec fn is_event_step(
    steps: Seq<EventStep>,
    i: int,
    rows: Seq<HistoricalEvent>,
) -> bool {
    let step = steps[i];
    &&& same_events(step.params, steps[0].params)
    &&& step.params.before_id == (if i == 0 {
        None
    } else {
        Some(steps[i - 1].batch.last().id)
    })
    &&& is_event_plan(step.plan, step.params)
    &&& if i == 0 {
        step.history == rows && highest_first(rows)
    } else {
        history_grew(step.history, rows)
    }
    &&& are_event_rows(
        step.batch,
        history_answer(step.history, step.plan.0.before_id, step.plan.1 as nat),
    )
}

/// Whether these are the first requests of a walk through a history that held `rows` at its
/// first: every batch but the last has an event, and the next one is asked for with its id.
pub open spec fn is_event_walk(steps: Seq<EventStep>, rows: Seq<HistoricalEvent>) -> bool {
    &&& steps.len() > 0
    &&& forall|i: int| 0 <= i < steps.len() ==> #[trigger] is_event_step(steps, i, rows)
    &&& forall|i: int| 0 <= i < steps.len() - 1 ==> (#[trigger] steps[i]).batch.len() > 0
}

/// The events of the batches, one batch after the other.
pub open spec fn events_walked(steps: Seq<EventStep>) -> Seq<WireHistoricalEvent>
    decreases steps.len(),
{
    if steps.len() == 0 {
        Seq::empty()
    } else {
        events_walked(steps.drop_last()) + steps.last().batch
    }
}

/// After the last of the first `n` events come the others, whatever came meanwhile.
proof fn lemma_events_after(
    history: Seq<HistoricalEvent>,
    rows: Seq<HistoricalEvent>,
    n: int,
)
    requires
        history_grew(history, rows),
        0 < n <= rows.len(),
    ensures
        history.filter(has_lower_id(rows[n - 1].id)) == rows.skip(n),
{
    let added = history.len() - rows.len();
    let last = added + n - 1;
    let than = rows[n - 1].id;
    assert(history.skip(added)[n - 1] == history[last]);
    assert forall|i: int| 0 <= i < history.len() implies (has_lower_id(than)(
        #[trigger] history[i],
    ) <==> last + 1 <= i) by {
        if i < last {
            assert(history[last].id < history[i].id);
        } else if i > last {
            assert(history[i].id < history[last].id);
        }
    }
    lemma_filter_end(history, has_lower_id(than), last + 1);
    assert(history.skip(last + 1) =~= rows.skip(n)) by {
        assert(history.skip(added).skip(n) =~= history.skip(last + 1));
    }
}

/// How far the first requests of a walk have come.
proof fn lemma_event_walk(steps: Seq<EventStep>, rows: Seq<HistoricalEvent>)
    requires
        is_event_walk(steps, rows),
    ensures
        ({
            let n = events_walked(steps).len() as int;
            let batch = steps.last().batch;
            &&& n <= rows.len()
            &&& forall|k: int|
                0 <= k < n ==> is_event_row(#[trigger] events_walked(steps)[k], rows[k])
            &&& batch.len() > 0 ==> n > 0 && batch.last().id == rows[n - 1].id
            &&& batch.len() <= row_limit_of(steps[0].params.limit)
            &&& batch.len() < row_limit_of(steps[0].params.limit) ==> n == rows.len()
            &&& steps.len() <= n + 1
            &&& batch.len() > 0 ==> steps.len() <= n
        }),
    decreases steps.len(),
{
    let at = steps.len() - 1;
    let step = steps.last();
    let first = events_walked(steps.drop_last());
    let done = first.len() as int;
    assert(is_event_step(steps, at, rows));
    if at == 0 {
        assert(rows.skip(0) =~= rows);
    } else {
        let fewer = steps.drop_last();
        assert forall|i: int| 0 <= i < fewer.len() implies #[trigger] is_event_step(
            fewer,
            i,
            rows,
        ) by {
            assert(is_event_step(steps, i, rows));
        }
        assert forall|i: int| 0 <= i < fewer.len() - 1 implies (
        #[trigger] fewer[i]).batch.len() > 0 by {
            assert(steps[i].batch.len() > 0);
        }
        lemma_event_walk(fewer, rows);
        assert(steps[at - 1] == fewer.last());
        assert(steps[at - 1].batch.len() > 0);
        lemma_events_after(step.history, rows, done);
    }
    let read = history_answer(step.history, step.plan.0.before_id, step.plan.1 as nat);
    assert(read.len() <= rows.skip(done).len());
    assert(forall|k: int| 0 <= k < read.len() ==> #[trigger] read[k] == rows[done + k]);
    assert forall|k: int| 0 <= k < done + read.len() implies is_event_row(
        #[trigger] events_walked(steps)[k],
        rows[k],
    ) by {
        if k < done {
            assert(events_walked(steps)[k] == first[k]);
        } else {
            assert(events_walked(steps)[k] == step.batch[k - done]);
            assert(read[k - done] == rows[k]);
        }
    }
    if read.len() > 0 {
        assert(is_event_row(step.batch[read.len() - 1], read[read.len() - 1]));
        assert(read[read.len() - 1] == rows[done + read.len() - 1]);
    }
}

// ---------------------------------------------------------------------
// Laws
// ---------------------------------------------------------------------

/// Where the history stands with the highest id first, a walk loses no event and meets none
/// twice: its batches, one after the other, are the events in their order, and all of them once a
/// batch is not full. It ends: there are no more batches than events and one, and the last may be
/// empty.
pub proof fn law_event_walk_is_lossless(steps: Seq<EventStep>, rows: Seq<HistoricalEvent>)
    requires
        is_event_walk(steps, rows),
    ensures
        events_walked(steps).len() <= rows.len(),
        forall|k: int|
            0 <= k < events_walked(steps).len() ==> is_event_row(
                #[trigger] events_walked(steps)[k],
                rows[k],
            ),
        steps.last().batch.len() <= row_limit_of(steps[0].params.limit),
        steps.last().batch.len() < row_limit_of(steps[0].params.limit)
            ==> events_walked(steps).len() == rows.len(),
        steps.len() <= rows.len() + 1,
        steps.last().batch.len() > 0 ==> steps.len() <= rows.len(),
{
    lemma_event_walk(steps, rows);
}

} // verus!
