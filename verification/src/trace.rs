//! The event trace of an emission.
//!
//! Emitting a record opens a named timed span and closes it again, so the
//! trace of emitting a sequence of records is a sequence of start and end
//! events. `emission_of` says which trace emitting a record sequence
//! produces; `balanced` says that a trace never closes a span it has not
//! opened and leaves no span open at its end. `lemma_emission_balanced`
//! proves that every emission trace is balanced.

use crate::records::SpanModel;
use vstd::prelude::*;

verus! {

/// One event of an emission trace: a span starts, carrying its record's
/// name and `brief` attribute, or the span of that name ends.
pub ghost enum TraceEvent {
    Start { span: SpanModel },
    End { name: Seq<char> },
}

/// How an event changes the number of open spans.
pub open spec fn open_delta(event: TraceEvent) -> int {
    match event {
        TraceEvent::Start { .. } => 1,
        TraceEvent::End { .. } => -1,
    }
}

/// The number of spans still open after the trace `events`: spans started,
/// minus spans ended.
pub open spec fn open_count(events: Seq<TraceEvent>) -> int
    decreases events.len(),
{
    if events.len() == 0 {
        0
    } else {
        open_count(events.drop_last()) + open_delta(events.last())
    }
}

/// A trace is balanced when no prefix of it ends more spans than it has
/// started, and at its end no span is left open.
pub open spec fn balanced(events: Seq<TraceEvent>) -> bool {
    &&& forall|i: int| 0 <= i <= events.len() ==> open_count(#[trigger] events.take(i)) >= 0
    &&& open_count(events) == 0
}

/// The trace that emitting `spans` in order produces: for each span in
/// turn, a start event followed at once by its end event.
pub open spec fn emission_of(spans: Seq<SpanModel>) -> Seq<TraceEvent>
    decreases spans.len(),
{
    if spans.len() == 0 {
        Seq::empty()
    } else {
        emission_of(spans.drop_last())
            .push(TraceEvent::Start { span: spans.last() })
            .push(TraceEvent::End { name: spans.last().name })
    }
}

/// The shape of an emission trace, event by event: two events per span,
/// the start of span `i` at position `2*i` and its end right after it.
pub open spec fn emission_shape(spans: Seq<SpanModel>, events: Seq<TraceEvent>) -> bool {
    &&& events.len() == 2 * spans.len()
    &&& forall|i: int|
        0 <= i < spans.len() ==> events[2 * i] == (TraceEvent::Start { span: spans[i] })
    &&& forall|i: int|
        0 <= i < spans.len() ==> events[2 * i + 1] == (TraceEvent::End { name: spans[i].name })
}

/// The emission trace of `spans` has the event-by-event shape that
/// `emission_shape` describes.
pub proof fn lemma_emission_shape(spans: Seq<SpanModel>)
    ensures
        emission_shape(spans, emission_of(spans)),
    decreases spans.len(),
{
    if spans.len() > 0 {
        let prior_spans = spans.drop_last();
        let prior = emission_of(prior_spans);
        let events = emission_of(spans);
        lemma_emission_shape(prior_spans);
        assert forall|i: int| 0 <= i < spans.len() implies events[2 * i] == (TraceEvent::Start {
            span: spans[i],
        }) && events[2 * i + 1] == (TraceEvent::End { name: spans[i].name }) by {
            if i < spans.len() - 1 {
                assert(prior_spans[i] == spans[i]);
                assert(events[2 * i] == prior[2 * i]);
                assert(events[2 * i + 1] == prior[2 * i + 1]);
            }
        }
    }
}

/// Every span that an emission opens is closed before the emission ends:
/// the emission trace of any record sequence is balanced.
pub proof fn lemma_emission_balanced(spans: Seq<SpanModel>)
    ensures
        balanced(emission_of(spans)),
    decreases spans.len(),
{
    let events = emission_of(spans);
    if spans.len() == 0 {
        assert(forall|i: int| 0 <= i <= events.len() ==> events.take(i) =~= events);
    } else {
        let prior = emission_of(spans.drop_last());
        let start = TraceEvent::Start { span: spans.last() };
        lemma_emission_balanced(spans.drop_last());
        assert(prior.push(start).drop_last() =~= prior);
        assert(open_count(prior.push(start)) == open_count(prior) + 1);
        assert(events.drop_last() =~= prior.push(start));
        assert(open_count(events) == open_count(prior.push(start)) - 1);
        assert forall|i: int| 0 <= i <= events.len() implies open_count(
            #[trigger] events.take(i),
        ) >= 0 by {
            if i <= prior.len() {
                assert(events.take(i) =~= prior.take(i));
                assert(open_count(prior.take(i)) >= 0);
            } else if i == prior.len() + 1 {
                assert(events.take(i) =~= prior.push(start));
            } else {
                assert(events.take(i) =~= events);
            }
        }
    }
}

} // verus!
