//! The scenario runner: reads a script and executes its steps in order.

use vstd::prelude::*;

use crate::commands::{executed, CommandHandler, CommandRegistry};
use crate::context::AppContext;
use crate::host::HostView;
use crate::json::{items_view, parse_yaml, yaml_document, Json, JsonValue};
use crate::probes::{probed, run_probe};
use crate::text::{concat, concat3, decimal, decimal_text, parse_u64, parsed_u64, str_eq};
use crate::types::{
    default_expect_status, default_timeout_ms, results_view, scenario_steps_view, status_name, CommandResult,
    ResultView, Scenario, ScenarioResult, ScenarioStep, ScenarioView, Status, StepView,
};

verus! {

/// What a call step expects: the text of the member `expect_status`, and
/// `pass` where there is no such member.
pub open spec fn expect_read(v: JsonValue) -> Result<Seq<char>, Seq<char>> {
    match v.member("expect_status"@) {
        None => Ok("pass"@),
        Some(x) => match x.text() {
            Some(t) => Ok(t),
            None => Err("'expect_status' must be a string"@),
        },
    }
}

/// The time limit of a call step: the number of the member `timeout_ms`,
/// and 30000 where there is no such member.
pub open spec fn timeout_read(v: JsonValue) -> Result<u64, Seq<char>> {
    match v.member("timeout_ms"@) {
        None => Ok(30_000u64),
        Some(JsonValue::Number(t)) => match parsed_u64(t) {
            Some(n) => Ok(n),
            None => Err("'timeout_ms' must be an unsigned integer"@),
        },
        Some(_) => Err("'timeout_ms' must be an unsigned integer"@),
    }
}

/// The call step that a document with the member `call` describes.
pub open spec fn call_read(v: JsonValue, call: JsonValue) -> Result<StepView, Seq<char>> {
    match call.text() {
        None => Err("'call' must be a string"@),
        Some(name) => match expect_read(v) {
            Err(m) => Err(m),
            Ok(expect_status) => match timeout_read(v) {
                Err(m) => Err(m),
                Ok(timeout_ms) => Ok(
                    StepView::Call {
                        call: name,
                        args: match v.member("args"@) {
                            Some(a) => a,
                            None => JsonValue::Null,
                        },
                        expect_status,
                        timeout_ms,
                    },
                ),
            },
        },
    }
}

/// The step that a document describes. The member that is present decides:
/// `call` makes a call step, `probe` a probe step. A document with both or
/// with neither is refused, each with a message of its own.
pub open spec fn step_read(v: JsonValue) -> Result<StepView, Seq<char>> {
    match (v.member("call"@), v.member("probe"@)) {
        (Some(_), Some(_)) => Err("step has both 'call' and 'probe'"@),
        (None, None) => Err("step has neither 'call' nor 'probe'"@),
        (Some(call), None) => call_read(v, call),
        (None, Some(probe)) => match probe.text() {
            Some(name) => Ok(StepView::Probe { probe: name }),
            None => Err("'probe' must be a string"@),
        },
    }
}

/// The first `n` steps of a list of documents; the error of the first
/// document that is refused, with its position.
pub open spec fn steps_read(items: Seq<JsonValue>, n: nat) -> Result<Seq<StepView>, Seq<char>>
    decreases n,
{
    if n == 0 {
        Ok(Seq::empty())
    } else {
        match steps_read(items, (n - 1) as nat) {
            Err(m) => Err(m),
            Ok(steps) => match step_read(items[n - 1]) {
                Ok(step) => Ok(steps.push(step)),
                Err(m) => Err("step "@ + decimal_text((n - 1) as nat) + ": "@ + m),
            },
        }
    }
}

/// The name of a scenario: the text of the member `name`; none where the
/// member is missing or `null`.
pub open spec fn name_read(doc: JsonValue) -> Result<Option<Seq<char>>, Seq<char>> {
    match doc.member("name"@) {
        None => Ok(None),
        Some(JsonValue::Null) => Ok(None),
        Some(JsonValue::String(s)) => Ok(Some(s)),
        Some(_) => Err("'name' must be a string"@),
    }
}

/// The scenario that a document describes: an object with an optional
/// `name` and the list `steps`.
pub open spec fn scenario_read(doc: JsonValue) -> Result<ScenarioView, Seq<char>> {
    match name_read(doc) {
        Err(m) => Err(m),
        Ok(name) => match doc.member("steps"@) {
            Some(JsonValue::Array(items)) => match steps_read(items, items.len()) {
                Ok(steps) => Ok(ScenarioView { name, steps }),
                Err(m) => Err(m),
            },
            _ => Err("'steps' must be a list"@),
        },
    }
}

/// Whether a reading gave the scenario, or the message, that the rules give.
pub open spec fn scenario_matches(r: Result<Scenario, String>, expected: Result<ScenarioView, Seq<char>>) -> bool {
    match r {
        Ok(s) => expected == Ok::<ScenarioView, Seq<char>>(s@),
        Err(m) => expected == Err::<ScenarioView, Seq<char>>(m@),
    }
}

/// Whether a reading gave the step, or the message, that the rules give.
pub open spec fn step_matches(r: Result<ScenarioStep, String>, expected: Result<StepView, Seq<char>>) -> bool {
    match r {
        Ok(s) => expected == Ok::<StepView, Seq<char>>(s@),
        Err(m) => expected == Err::<StepView, Seq<char>>(m@),
    }
}

fn read_expect(v: &Json) -> (r: Result<String, String>)
    ensures
        match r {
            Ok(t) => expect_read(v@) == Ok::<Seq<char>, Seq<char>>(t@),
            Err(m) => expect_read(v@) == Err::<Seq<char>, Seq<char>>(m@),
        },
{
    match v.get("expect_status") {
        None => Ok(default_expect_status()),
        Some(x) => match x.as_str() {
            Some(t) => Ok(t.to_string()),
            None => Err("'expect_status' must be a string".to_string()),
        },
    }
}

fn read_timeout(v: &Json) -> (r: Result<u64, String>)
    ensures
        match r {
            Ok(n) => timeout_read(v@) == Ok::<u64, Seq<char>>(n),
            Err(m) => timeout_read(v@) == Err::<u64, Seq<char>>(m@),
        },
{
    match v.get("timeout_ms") {
        None => Ok(default_timeout_ms()),
        Some(x) => match x.as_number() {
            Some(t) => match parse_u64(t) {
                Some(n) => Ok(n),
                None => Err("'timeout_ms' must be an unsigned integer".to_string()),
            },
            None => Err("'timeout_ms' must be an unsigned integer".to_string()),
        },
    }
}

/// Reads one step of a scenario from its document.
pub fn step_from_json(v: &Json) -> (r: Result<ScenarioStep, String>)
    ensures
        step_matches(r, step_read(v@)),
{
    match (v.get("call"), v.get("probe")) {
        (Some(_), Some(_)) => Err("step has both 'call' and 'probe'".to_string()),
        (None, None) => Err("step has neither 'call' nor 'probe'".to_string()),
        (Some(call), None) => {
            let name = match call.as_str() {
                Some(t) => t.to_string(),
                None => {
                    return Err("'call' must be a string".to_string());
                },
            };
            let expect_status = match read_expect(v) {
                Ok(t) => t,
                Err(m) => {
                    return Err(m);
                },
            };
            let timeout_ms = match read_timeout(v) {
                Ok(n) => n,
                Err(m) => {
                    return Err(m);
                },
            };
            let args = match v.get("args") {
                Some(a) => a.clone(),
                None => Json::Null,
            };
            Ok(ScenarioStep::Call { call: name, args, expect_status, timeout_ms })
        },
        (None, Some(probe)) => match probe.as_str() {
            Some(t) => Ok(ScenarioStep::Probe { probe: t.to_string() }),
            None => Err("'probe' must be a string".to_string()),
        },
    }
}

/// A list of steps that is refused up to some position is refused with the
/// same message up to every later one.
pub proof fn lemma_steps_read_stays_refused(items: Seq<JsonValue>, n: nat, m: nat)
    requires
        n <= m,
        steps_read(items, n) is Err,
    ensures
        steps_read(items, m) == steps_read(items, n),
    decreases m - n,
{
    if n < m {
        lemma_steps_read_stays_refused(items, n, (m - 1) as nat);
    }
}

/// Reads a scenario from its document.
pub fn scenario_from_json(doc: &Json) -> (r: Result<Scenario, String>)
    ensures
        scenario_matches(r, scenario_read(doc@)),
{
    let name = match doc.get("name") {
        None => None,
        Some(n) => {
            if n.is_null() {
                None
            } else {
                match n.as_str() {
                    Some(t) => Some(t.to_string()),
                    None => {
                        return Err("'name' must be a string".to_string());
                    },
                }
            }
        },
    };
    let items = match doc.get("steps") {
        Some(list) => match list.as_array() {
            Some(items) => items,
            None => {
                return Err("'steps' must be a list".to_string());
            },
        },
        None => {
            return Err("'steps' must be a list".to_string());
        },
    };
    let ghost docs = items_view(items@);
    let mut steps: Vec<ScenarioStep> = Vec::new();
    assert(scenario_steps_view(steps@) =~= Seq::empty());
    let mut i: usize = 0;
    while i < items.len()
        invariant
            i <= items.len(),
            docs == items_view(items@),
            doc@.member("steps"@) == Some(JsonValue::Array(docs)),
            name_read(doc@) == Ok::<Option<Seq<char>>, Seq<char>>(crate::host::opt_text(name)),
            steps_read(docs, i as nat) == Ok::<Seq<StepView>, Seq<char>>(scenario_steps_view(steps@)),
        decreases items.len() - i,
    {
        match step_from_json(&items[i]) {
            Ok(step) => {
                let ghost before = scenario_steps_view(steps@);
                steps.push(step);
                assert(scenario_steps_view(steps@) =~= before.push(step@));
            },
            Err(m) => {
                let position = decimal(i as u64);
                let mut text = concat3("step ", position.as_str(), ": ");
                text.append(m.as_str());
                proof {
                    assert(steps_read(docs, (i + 1) as nat) is Err);
                    lemma_steps_read_stays_refused(docs, (i + 1) as nat, docs.len());
                }
                return Err(text);
            },
        }
        i += 1;
    }
    Ok(Scenario { name, steps })
}

/// What loading gives for a YAML text: the scenario that its document
/// describes; or a message that begins with `failed to parse scenario YAML: `
/// and goes on with the rule that the document breaks, or with the parser's
/// own message where the text is no YAML document.
pub open spec fn loaded(yaml: Seq<char>, r: Result<Scenario, String>) -> bool {
    match yaml_document(yaml) {
        Some(doc) => match scenario_read(doc) {
            Ok(s) => r is Ok && r->Ok_0@ == s,
            Err(m) => r is Err && r->Err_0@ == "failed to parse scenario YAML: "@ + m,
        },
        None => r is Err && crate::text::starts_with(r->Err_0@, "failed to parse scenario YAML: "@),
    }
}

/// Loads a scenario from YAML text.
pub fn load_scenario(yaml: &str) -> (r: Result<Scenario, String>)
    ensures
        loaded(yaml@, r),
{
    let doc = match parse_yaml(yaml) {
        Ok(doc) => doc,
        Err(m) => {
            let text = concat("failed to parse scenario YAML: ", m.as_str());
            assert(text@.take("failed to parse scenario YAML: "@.len() as int) =~= "failed to parse scenario YAML: "@);
            return Err(text);
        },
    };
    match scenario_from_json(&doc) {
        Ok(s) => Ok(s),
        Err(m) => Err(concat("failed to parse scenario YAML: ", m.as_str())),
    }
}

/// What running a step gives: the result of executing its command, or of
/// running its probe.
pub open spec fn step_ran(
    step: StepView,
    commands: Map<Seq<char>, CommandHandler>,
    host: HostView,
    url: Seq<char>,
    r: ResultView,
) -> bool {
    match step {
        StepView::Call { call, args, .. } => executed(commands, call, args, host, r),
        StepView::Probe { probe } => probed(probe, host, url, r),
    }
}

/// Whether a result is what its step asks for: a call step asks for the
/// status that it names, a probe step for a pass or a skip.
pub open spec fn step_met(step: StepView, r: ResultView) -> bool {
    match step {
        StepView::Call { expect_status, .. } => status_name(r.status) == expect_status,
        StepView::Probe { .. } => r.status == Status::Pass || r.status == Status::Skip,
    }
}

/// Whether each of the first `n` results is what its step asks for.
pub open spec fn all_met(steps: Seq<StepView>, results: Seq<ResultView>, n: int) -> bool {
    forall|i: int| 0 <= i < n ==> step_met(#[trigger] steps[i], results[i])
}

/// What running a scenario gives.
///
/// Every step is run once and in order, and its result is kept as it came,
/// so there are as many results as steps. The verdict is a pass where every
/// result is what its step asks for, and a fail otherwise.
pub open spec fn scenario_ran(
    scenario: ScenarioView,
    commands: Map<Seq<char>, CommandHandler>,
    host: HostView,
    url: Seq<char>,
    out: crate::types::ScenarioResultView,
) -> bool {
    &&& out.name == scenario.name
    &&& out.step_results.len() == scenario.steps.len()
    &&& forall|i: int|
        0 <= i < scenario.steps.len() ==> step_ran(
            #[trigger] scenario.steps[i],
            commands,
            host,
            url,
            out.step_results[i],
        )
    &&& out.overall_status == if all_met(scenario.steps, out.step_results, scenario.steps.len() as int) {
        Status::Pass
    } else {
        Status::Fail
    }
}

/// Executes a scenario and returns its verdict with the result of each step.
pub fn run_scenario(scenario: &Scenario, ctx: &AppContext, registry: &CommandRegistry) -> (out: ScenarioResult)
    ensures
        scenario_ran(scenario@, registry@, ctx.host@, ctx.network_probe_host@, out@),
{
    let mut step_results: Vec<CommandResult> = Vec::new();
    let mut overall = Status::Pass;
    let ghost steps = scenario@.steps;
    assert(results_view(step_results@) =~= Seq::empty());
    let mut i: usize = 0;
    while i < scenario.steps.len()
        invariant
            i <= scenario.steps.len(),
            steps == scenario@.steps,
            steps.len() == scenario.steps@.len(),
            step_results@.len() == i,
            forall|k: int|
                0 <= k < i ==> step_ran(
                    #[trigger] steps[k],
                    registry@,
                    ctx.host@,
                    ctx.network_probe_host@,
                    results_view(step_results@)[k],
                ),
            overall == if all_met(steps, results_view(step_results@), i as int) {
                Status::Pass
            } else {
                Status::Fail
            },
        decreases scenario.steps.len() - i,
    {
        let ghost before = results_view(step_results@);
        let step = &scenario.steps[i];
        assert(steps[i as int] == step@);
        let result = match step {
            ScenarioStep::Call { call, args, expect_status, timeout_ms } => {
                let r = registry.execute(call.as_str(), args.clone(), ctx);
                if !str_eq(r.status.as_str(), expect_status.as_str()) {
                    overall = Status::Fail;
                }
                r
            },
            ScenarioStep::Probe { probe } => {
                let r = run_probe(probe.as_str(), ctx);
                match r.status {
                    Status::Pass => {},
                    Status::Skip => {},
                    _ => {
                        overall = Status::Fail;
                    },
                }
                r
            },
        };
        step_results.push(result);
        proof {
            let after = results_view(step_results@);
            assert(after.len() == i + 1);
            assert(forall|k: int| 0 <= k < i ==> after[k] == before[k]);
            assert(after[i as int] == result@);
            assert(all_met(steps, after, i + 1) == (all_met(steps, before, i as int) && step_met(
                steps[i as int],
                result@,
            )));
        }
        i += 1;
    }
    let name = match &scenario.name {
        Some(n) => Some(n.clone()),
        None => None,
    };
    ScenarioResult { name, overall_status: overall, step_results }
}

/// A YAML text loads as the scenario that its document describes.
pub open spec fn loaded_as(yaml: Seq<char>, scenario: ScenarioView) -> bool {
    yaml_document(yaml) matches Some(doc) && scenario_read(doc) == Ok::<ScenarioView, Seq<char>>(scenario)
}

/// A YAML text describes no scenario: it is no document, or its document
/// breaks a rule.
pub open spec fn not_loaded(yaml: Seq<char>) -> bool {
    match yaml_document(yaml) {
        Some(doc) => scenario_read(doc) is Err,
        None => true,
    }
}

/// A text is loaded exactly when it describes a scenario, and a refusal
/// always begins with the loader's prefix.
pub proof fn lemma_refusal_has_prefix(yaml: Seq<char>, r: Result<Scenario, String>)
    requires
        loaded(yaml, r),
    ensures
        r is Ok <==> !not_loaded(yaml),
        r is Ok ==> loaded_as(yaml, r->Ok_0@),
        r is Err ==> crate::text::starts_with(r->Err_0@, "failed to parse scenario YAML: "@),
{
    if r is Err {
        let prefix = "failed to parse scenario YAML: "@;
        match yaml_document(yaml) {
            Some(doc) => {
                let m = scenario_read(doc)->Err_0;
                assert((prefix + m).take(prefix.len() as int) =~= prefix);
            },
            None => {},
        }
    }
}

/// A scenario passes or fails, nothing else; it has one result for each
/// step; and one result that is not what its step asks for makes it fail,
/// whatever the other steps give.
pub proof fn lemma_scenario_outcome(
    scenario: ScenarioView,
    commands: Map<Seq<char>, CommandHandler>,
    host: HostView,
    url: Seq<char>,
    out: crate::types::ScenarioResultView,
    i: int,
)
    requires
        scenario_ran(scenario, commands, host, url, out),
        0 <= i < scenario.steps.len(),
    ensures
        out.overall_status == Status::Pass || out.overall_status == Status::Fail,
        out.step_results.len() == scenario.steps.len(),
        !step_met(scenario.steps[i], out.step_results[i]) ==> out.overall_status == Status::Fail,
        out.overall_status == Status::Pass ==> step_met(scenario.steps[i], out.step_results[i]),
{
}

/// A scenario without steps passes.
pub proof fn lemma_empty_scenario_passes(
    scenario: ScenarioView,
    commands: Map<Seq<char>, CommandHandler>,
    host: HostView,
    url: Seq<char>,
    out: crate::types::ScenarioResultView,
)
    requires
        scenario_ran(scenario, commands, host, url, out),
        scenario.steps.len() == 0,
    ensures
        out.overall_status == Status::Pass,
        out.step_results.len() == 0,
{
}

} // verus!
