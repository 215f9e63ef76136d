//! The documents in which results leave the engine: what is written to a
//! terminal, to an artifact file, or to a client of the daemon.

use vstd::prelude::*;

use crate::json::{
    array_of_texts, lemma_array_view, members_view, object_of, push_member, text_array, text_or_null, texts_view,
    Json, JsonValue,
};
use crate::text::{decimal, decimal_text};
use crate::types::{
    error_code_name, status_name, steps_view, CommandResult, DaemonResponse, EnvSummary, EnvView,
    ErrorInfo, ErrorView, ResponseView, ResultView, ScenarioResult, ScenarioResultView, StepTiming, TimingInfo,
    TimingView,
};

verus! {

/// The member `name`, where there is a value for it.
pub open spec fn optional_member(name: Seq<char>, value: Option<JsonValue>) -> Seq<(Seq<char>, JsonValue)> {
    match value {
        Some(v) => seq![(name, v)],
        None => Seq::empty(),
    }
}

/// The document of an error: its code by name and its message, and its
/// details unless they are `null`.
pub open spec fn error_json(e: ErrorView) -> JsonValue {
    JsonValue::Object(
        seq![("code"@, JsonValue::String(error_code_name(e.code))), ("message"@, JsonValue::String(e.message))]
            + optional_member(
            "details"@,
            if e.details == JsonValue::Null {
                None
            } else {
                Some(e.details)
            },
        ),
    )
}

/// The document of the steps of a timing: one member for each step, with
/// its milliseconds.
pub open spec fn steps_json(steps: Seq<(Seq<char>, u64)>) -> JsonValue {
    JsonValue::Object(Seq::new(steps.len(), |i: int| (steps[i].0, JsonValue::Number(decimal_text(steps[i].1 as nat)))))
}

/// The document of a timing: the total, and the steps unless there are
/// none.
pub open spec fn timing_json(t: TimingView) -> JsonValue {
    JsonValue::Object(
        seq![("total"@, JsonValue::Number(decimal_text(t.total as nat)))] + optional_member(
            "steps"@,
            if t.steps.len() == 0 {
                None
            } else {
                Some(steps_json(t.steps))
            },
        ),
    )
}

/// The document of an environment summary.
pub open spec fn env_json(e: EnvView) -> JsonValue {
    JsonValue::Object(
        seq![
            ("os"@, JsonValue::String(e.os)),
            ("arch"@, JsonValue::String(e.arch)),
            ("headless"@, JsonValue::Bool(e.headless)),
        ],
    )
}

/// The document of a result. The status is written by its lower-case name;
/// the error and the payload are left out where there is none.
pub open spec fn result_json(r: ResultView) -> JsonValue {
    JsonValue::Object(
        seq![
            ("run_id"@, JsonValue::String(r.run_id)),
            ("command"@, JsonValue::String(r.command)),
            ("target"@, JsonValue::String(r.target)),
            ("status"@, JsonValue::String(status_name(r.status))),
        ] + optional_member(
            "error"@,
            match r.error {
                Some(e) => Some(error_json(e)),
                None => None,
            },
        ) + seq![
            ("timing_ms"@, timing_json(r.timing)),
            ("artifacts"@, text_array(r.artifacts)),
            ("env_summary"@, env_json(r.env)),
        ] + optional_member("data"@, r.data),
    )
}

/// The document of what a scenario gave: the name or `null`, the overall
/// status, and the document of each step's result.
pub open spec fn scenario_result_json(s: ScenarioResultView) -> JsonValue {
    JsonValue::Object(
        seq![
            ("name"@, text_or_null(s.name)),
            ("overall_status"@, JsonValue::String(status_name(s.overall_status))),
            (
                "step_results"@,
                JsonValue::Array(Seq::new(s.step_results.len(), |i: int| result_json(s.step_results[i]))),
            ),
        ],
    )
}

/// The document of a response: its identifier, and whichever of result and
/// error it carries.
pub open spec fn response_json(resp: ResponseView) -> JsonValue {
    JsonValue::Object(
        seq![("id"@, JsonValue::String(resp.id))] + optional_member(
            "result"@,
            match resp.result {
                Some(r) => Some(result_json(r)),
                None => None,
            },
        ) + optional_member(
            "error"@,
            match resp.error {
                Some(e) => Some(error_json(e)),
                None => None,
            },
        ),
    )
}

impl ErrorInfo {
    /// The document of the error.
    pub fn to_json(&self) -> (j: Json)
        ensures
            j@ == error_json(self@),
    {
        let mut members: Vec<(String, Json)> = Vec::new();
        assert(members_view(members@) =~= Seq::empty());
        push_member(&mut members, "code", Json::String(self.code.as_str().to_string()));
        push_member(&mut members, "message", Json::String(self.message.clone()));
        if !self.details.is_null() {
            push_member(&mut members, "details", self.details.clone());
        }
        let j = object_of(members);
        assert(j@->Object_0 =~= error_json(self@)->Object_0);
        j
    }
}

fn steps_to_json(steps: &Vec<StepTiming>) -> (j: Json)
    ensures
        j@ == steps_json(steps_view(steps@)),
{
    let mut out: Vec<(String, Json)> = Vec::new();
    let mut i: usize = 0;
    while i < steps.len()
        invariant
            i <= steps.len(),
            out@.len() == i,
            forall|k: int|
                0 <= k < i ==> out@[k].0@ == steps@[k].name@ && out@[k].1@ == JsonValue::Number(
                    decimal_text(steps@[k].ms as nat),
                ),
        decreases steps.len() - i,
    {
        out.push((steps[i].name.clone(), Json::Number(decimal(steps[i].ms))));
        i += 1;
    }
    let j = object_of(out);
    assert(j@->Object_0 =~= steps_json(steps_view(steps@))->Object_0);
    j
}

impl TimingInfo {
    /// The document of the timing.
    pub fn to_json(&self) -> (j: Json)
        ensures
            j@ == timing_json(self@),
    {
        let mut members: Vec<(String, Json)> = Vec::new();
        assert(members_view(members@) =~= Seq::empty());
        push_member(&mut members, "total", Json::Number(decimal(self.total)));
        if self.steps.len() > 0 {
            push_member(&mut members, "steps", steps_to_json(&self.steps));
        }
        let j = object_of(members);
        assert(j@->Object_0 =~= timing_json(self@)->Object_0);
        j
    }
}

impl EnvSummary {
    /// The document of the summary.
    pub fn to_json(&self) -> (j: Json)
        ensures
            j@ == env_json(self@),
    {
        let mut members: Vec<(String, Json)> = Vec::new();
        assert(members_view(members@) =~= Seq::empty());
        push_member(&mut members, "os", Json::String(self.os.clone()));
        push_member(&mut members, "arch", Json::String(self.arch.clone()));
        push_member(&mut members, "headless", Json::Bool(self.headless));
        let j = object_of(members);
        assert(j@->Object_0 =~= env_json(self@)->Object_0);
        j
    }
}

impl CommandResult {
    /// The document of the result.
    pub fn to_json(&self) -> (j: Json)
        ensures
            j@ == result_json(self@),
    {
        let mut members: Vec<(String, Json)> = Vec::new();
        assert(members_view(members@) =~= Seq::empty());
        push_member(&mut members, "run_id", Json::String(self.run_id.clone()));
        push_member(&mut members, "command", Json::String(self.command.clone()));
        push_member(&mut members, "target", Json::String(self.target.clone()));
        push_member(&mut members, "status", Json::String(self.status.as_str().to_string()));
        match &self.error {
            Some(e) => {
                push_member(&mut members, "error", e.to_json());
            },
            None => {},
        }
        push_member(&mut members, "timing_ms", self.timing_ms.to_json());
        let artifacts = array_of_texts(&self.artifacts);
        assert(texts_view(self.artifacts@) =~= self@.artifacts);
        push_member(&mut members, "artifacts", artifacts);
        push_member(&mut members, "env_summary", self.env_summary.to_json());
        match &self.data {
            Some(d) => {
                push_member(&mut members, "data", d.clone());
            },
            None => {},
        }
        let j = object_of(members);
        assert(j@->Object_0 =~= result_json(self@)->Object_0);
        j
    }
}

impl ScenarioResult {
    /// The document of the verdict.
    pub fn to_json(&self) -> (j: Json)
        ensures
            j@ == scenario_result_json(self@),
    {
        let mut results: Vec<Json> = Vec::new();
        let mut i: usize = 0;
        while i < self.step_results.len()
            invariant
                i <= self.step_results.len(),
                results@.len() == i,
                forall|k: int| 0 <= k < i ==> results@[k]@ == result_json(self.step_results@[k]@),
            decreases self.step_results.len() - i,
        {
            results.push(self.step_results[i].to_json());
            i += 1;
        }
        proof {
            lemma_array_view(results);
        }
        let list = Json::Array(results);
        assert(list@->Array_0 =~= Seq::new(
            self@.step_results.len(),
            |i: int| result_json(self@.step_results[i]),
        ));
        let name = match &self.name {
            Some(n) => Json::String(n.clone()),
            None => Json::Null,
        };
        let mut members: Vec<(String, Json)> = Vec::new();
        assert(members_view(members@) =~= Seq::empty());
        push_member(&mut members, "name", name);
        push_member(&mut members, "overall_status", Json::String(self.overall_status.as_str().to_string()));
        push_member(&mut members, "step_results", list);
        let j = object_of(members);
        assert(j@->Object_0 =~= scenario_result_json(self@)->Object_0);
        j
    }
}

impl DaemonResponse {
    /// The document of the response.
    pub fn to_json(&self) -> (j: Json)
        ensures
            j@ == response_json(self@),
    {
        let mut members: Vec<(String, Json)> = Vec::new();
        assert(members_view(members@) =~= Seq::empty());
        push_member(&mut members, "id", Json::String(self.id.clone()));
        match &self.result {
            Some(r) => {
                push_member(&mut members, "result", r.to_json());
            },
            None => {},
        }
        match &self.error {
            Some(e) => {
                push_member(&mut members, "error", e.to_json());
            },
            None => {},
        }
        let j = object_of(members);
        assert(j@->Object_0 =~= response_json(self@)->Object_0);
        j
    }
}

} // verus!
