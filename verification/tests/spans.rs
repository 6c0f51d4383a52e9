use thesis_spans::emit::{emit_spans, emit_thesis_spans};
use thesis_spans::records::{thesis_records, SpanRecord};

#[test]
fn thesis_records_are_the_five_fixed_points() {
    let records = thesis_records();
    assert_eq!(records.len(), 5);

    assert_eq!(records[0].name, "thesis.telemetry_as_system");
    assert_eq!(records[0].brief, "Telemetry is the system, not an add-on.");

    assert_eq!(records[1].name, "thesis.span_drives_code");
    assert_eq!(records[1].brief, "Spans generate code & CLI.");

    assert_eq!(records[2].name, "thesis.trace_to_prompt_emergence");
    assert_eq!(records[2].brief, "Traces → LLM prompts (emergent).");

    assert_eq!(records[3].name, "thesis.telemetry_communication_channel");
    assert_eq!(records[3].brief, "Spans are the agent messaging bus.");

    assert_eq!(records[4].name, "thesis.system_models_itself");
    assert_eq!(records[4].brief, "Trace graph is a live self-model.");
}

#[test]
fn thesis_names_are_pairwise_distinct() {
    let records = thesis_records();
    for i in 0..records.len() {
        for j in 0..records.len() {
            if i != j {
                assert_ne!(records[i].name, records[j].name);
            }
        }
    }
}

#[test]
fn emit_thesis_spans_runs_on_a_tracer() {
    let tracer = opentelemetry::global::tracer("thesis_spans_tests");
    let _ = emit_thesis_spans(&tracer);
}

#[test]
fn emit_spans_runs_on_custom_records() {
    let tracer = opentelemetry::global::tracer("thesis_spans_tests");
    let records = vec![
        SpanRecord { name: "demo.first".to_owned(), brief: "First demo record.".to_owned() },
        SpanRecord { name: "demo.second".to_owned(), brief: "Second demo record.".to_owned() },
    ];
    let _ = emit_spans(&tracer, &records);
}

#[test]
fn emit_spans_runs_on_no_records() {
    let tracer = opentelemetry::global::tracer("thesis_spans_tests");
    let records: Vec<SpanRecord> = Vec::new();
    let _ = emit_spans(&tracer, &records);
}
