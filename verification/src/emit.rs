//! Emitting span records on an OpenTelemetry tracer.
//!
//! `emit_spans` turns each record into a named timed span carrying its
//! `brief` attribute, started and at once ended; `emit_thesis_spans` does so
//! for the five fixed thesis-point records. Both return the emission's
//! event trace as a ghost value, and their contracts pin that trace down:
//! it is exactly the trace `emission_of` describes, and it is balanced, so
//! no span is left open when the call returns.

use crate::records::{models_of, thesis_model, thesis_records, SpanRecord};
use crate::trace::{
    balanced, emission_of, emission_shape, lemma_emission_balanced, lemma_emission_shape,
    TraceEvent,
};
use opentelemetry::global::BoxedTracer;
use opentelemetry::trace::{Span, Tracer};
use vstd::prelude::*;

verus! {

/// Declares opentelemetry's `global::BoxedTracer` so that a tracer can
/// stand in signatures here. Its values are opaque: nothing is assumed of
/// what a tracer does with the spans it is handed.
#[verifier::external_type_specification]
#[verifier::external_body]
pub struct ExBoxedTracer(BoxedTracer);

/// Relies on opentelemetry's `Tracer::span_builder`,
/// `SpanBuilder::with_attributes`, `SpanBuilder::start` and `Span::end`:
/// starts on `tracer` a span named `name` carrying the single attribute
/// `"brief"` with value `brief`, and ends it at once.
#[verifier::external_body]
fn record_span(tracer: &BoxedTracer, name: &str, brief: &str) {
    let mut span = tracer
        .span_builder(name.to_string())
        .with_attributes(vec![opentelemetry::KeyValue::new("brief", brief.to_string())])
        .start(tracer);
    span.end();
}

/// Emits each record of `records`, in order, as a span on `tracer`: a span
/// named after the record, carrying the record's `brief` attribute, started
/// and at once ended. The ghost result is the emission's event trace:
/// exactly the trace that `emission_of` gives the records, so every opened
/// span is closed before the call returns.
pub fn emit_spans(tracer: &BoxedTracer, records: &Vec<SpanRecord>) -> (events: Ghost<
    Seq<TraceEvent>,
>)
    ensures
        events@ == emission_of(models_of(records@)),
        emission_shape(models_of(records@), events@),
        balanced(events@),
{
    let ghost spans = models_of(records@);
    let mut events: Ghost<Seq<TraceEvent>> = Ghost(Seq::empty());
    let mut i: usize = 0;
    while i < records.len()
        invariant
            0 <= i <= records.len(),
            spans == models_of(records@),
            events@ == emission_of(spans.take(i as int)),
        decreases records.len() - i,
    {
        record_span(tracer, records[i].name.as_str(), records[i].brief.as_str());
        proof {
            let next = spans.take(i as int + 1);
            assert(next.drop_last() =~= spans.take(i as int));
            assert(next.last() == spans[i as int]);
        }
        events = Ghost(
            events@.push(TraceEvent::Start { span: spans[i as int] }).push(
                TraceEvent::End { name: spans[i as int].name },
            ),
        );
        i += 1;
    }
    proof {
        assert(spans.take(records.len() as int) =~= spans);
        lemma_emission_shape(spans);
        lemma_emission_balanced(spans);
    }
    events
}

/// Emits the five thesis-point spans on `tracer`, in their fixed order:
/// each a span named after its thesis point, carrying that point's `brief`
/// description as its one attribute, started and at once ended. The ghost
/// result is the emission's event trace: the five start/end pairs of
/// `thesis_model`, balanced.
pub fn emit_thesis_spans(tracer: &BoxedTracer) -> (events: Ghost<Seq<TraceEvent>>)
    ensures
        events@ == emission_of(thesis_model()),
        emission_shape(thesis_model(), events@),
        balanced(events@),
{
    let records = thesis_records();
    emit_spans(tracer, &records)
}

} // verus!
