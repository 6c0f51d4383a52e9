//! The span records: a name and a single `brief` attribute.
//!
//! Five fixed records exist, the "thesis points". `thesis_records` builds
//! them; `thesis_model` is their mathematical value, and the names are
//! pairwise distinct (`lemma_thesis_names_distinct`).

use vstd::prelude::*;

verus! {

/// A span record: a named, timed unit of execution carrying one metadata
/// field, the key `"brief"` with a human-readable description as its value.
pub struct SpanRecord {
    pub name: String,
    pub brief: String,
}

/// The mathematical value of a `SpanRecord`: its two strings as
/// sequences of characters.
pub ghost struct SpanModel {
    pub name: Seq<char>,
    pub brief: Seq<char>,
}

impl View for SpanRecord {
    type V = SpanModel;

    open spec fn view(&self) -> SpanModel {
        SpanModel { name: self.name@, brief: self.brief@ }
    }
}

/// The models of a sequence of records.
pub open spec fn models_of(records: Seq<SpanRecord>) -> Seq<SpanModel> {
    records.map_values(|r: SpanRecord| r@)
}

/// The five thesis-point records, as mathematical values.
pub open spec fn thesis_model() -> Seq<SpanModel> {
    seq![
        SpanModel {
            name: "thesis.telemetry_as_system"@,
            brief: "Telemetry is the system, not an add-on."@,
        },
        SpanModel {
            name: "thesis.span_drives_code"@,
            brief: "Spans generate code & CLI."@,
        },
        SpanModel {
            name: "thesis.trace_to_prompt_emergence"@,
            brief: "Traces → LLM prompts (emergent)."@,
        },
        SpanModel {
            name: "thesis.telemetry_communication_channel"@,
            brief: "Spans are the agent messaging bus."@,
        },
        SpanModel {
            name: "thesis.system_models_itself"@,
            brief: "Trace graph is a live self-model."@,
        },
    ]
}

/// Builds the five thesis-point records, in their fixed order.
pub fn thesis_records() -> (records: Vec<SpanRecord>)
    ensures
        models_of(records@) == thesis_model(),
{
    let mut records: Vec<SpanRecord> = Vec::new();
    records.push(SpanRecord {
        name: "thesis.telemetry_as_system".to_owned(),
        brief: "Telemetry is the system, not an add-on.".to_owned(),
    });
    records.push(SpanRecord {
        name: "thesis.span_drives_code".to_owned(),
        brief: "Spans generate code & CLI.".to_owned(),
    });
    records.push(SpanRecord {
        name: "thesis.trace_to_prompt_emergence".to_owned(),
        brief: "Traces → LLM prompts (emergent).".to_owned(),
    });
    records.push(SpanRecord {
        name: "thesis.telemetry_communication_channel".to_owned(),
        brief: "Spans are the agent messaging bus.".to_owned(),
    });
    records.push(SpanRecord {
        name: "thesis.system_models_itself".to_owned(),
        brief: "Trace graph is a live self-model.".to_owned(),
    });
    proof {
        assert(models_of(records@) =~~= thesis_model());
    }
    records
}

/// The names of the five thesis points are pairwise distinct.
pub proof fn lemma_thesis_names_distinct()
    ensures
        forall|i: int, j: int|
            0 <= i < thesis_model().len() && 0 <= j < thesis_model().len() && i != j
                ==> thesis_model()[i].name != thesis_model()[j].name,
{
    reveal_strlit("thesis.telemetry_as_system");
    reveal_strlit("thesis.span_drives_code");
    reveal_strlit("thesis.trace_to_prompt_emergence");
    reveal_strlit("thesis.telemetry_communication_channel");
    reveal_strlit("thesis.system_models_itself");
    assert(thesis_model()[0].name.len() == 26);
    assert(thesis_model()[1].name.len() == 23);
    assert(thesis_model()[2].name.len() == 32);
    assert(thesis_model()[3].name.len() == 38);
    assert(thesis_model()[4].name.len() == 27);
}

} // verus!
