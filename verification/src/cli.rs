//! What the command line does with the engine, less the reading and the
//! printing: how arguments become results, what an exit code is, and how a
//! result reads to a person.

use vstd::prelude::*;

use crate::commands::{executed, CommandHandler, CommandRegistry};
use crate::context::AppContext;
use crate::host::{detect_headless, headless, HostFacts, HostView};
use crate::json::{json_document, parse_json, JsonValue};
use crate::scenario::{load_scenario, run_scenario, scenario_ran};
use crate::text::{concat, concat3, decimal, decimal_text, starts_with};
use crate::types::{
    env_of, err_view, is_run_id, new_run_id, result_err, CommandResult, EnvSummary, ErrorCode, ErrorInfo, ErrorView,
    ResultView, ScenarioResult, Status, TimingInfo, TimingView,
};

verus! {

/// The exit code of the process for a status: success for a pass and for a
/// skip, 1 for a fail, 2 for an error.
pub open spec fn exit_code_of(status: Status) -> i32 {
    match status {
        Status::Pass => 0i32,
        Status::Skip => 0i32,
        Status::Fail => 1i32,
        Status::Error => 2i32,
    }
}

/// The exit code of the process for a status.
pub fn exit_code(status: Status) -> (code: i32)
    ensures
        code == exit_code_of(status),
{
    match status {
        Status::Pass => 0,
        Status::Skip => 0,
        Status::Fail => 1,
        Status::Error => 2,
    }
}

/// What a call from the command line gives for a command name and the text
/// of its arguments: what the registry returns for the document that the
/// text holds; or, where the text is no JSON document, the refusal of the
/// call as invalid input with zero elapsed time.
pub open spec fn called(
    commands: Map<Seq<char>, CommandHandler>,
    cmd: Seq<char>,
    args_text: Seq<char>,
    host: HostView,
    out: Result<CommandResult, CommandResult>,
) -> bool {
    match json_document(args_text) {
        Some(args) => out is Ok && executed(commands, cmd, args, host, out->Ok_0@),
        None => {
            &&& out is Err
            &&& is_run_id(out->Err_0@.run_id)
            &&& exists|message: Seq<char>|
                starts_with(message, "invalid JSON args: "@) && out->Err_0@ == #[trigger] err_view(
                    "call"@,
                    cmd,
                    out->Err_0@.run_id,
                    0,
                    ErrorCode::InvalidInput,
                    message,
                    env_of(host),
                )
        },
    }
}

/// Invokes the command `cmd` on arguments given as JSON text. The result
/// is `Ok` where the command was executed and `Err` where the arguments
/// were refused before any command ran.
pub fn cmd_call(cmd: &str, args_text: &str, ctx: &AppContext, registry: &CommandRegistry) -> (out: Result<
    CommandResult,
    CommandResult,
>)
    ensures
        called(registry@, cmd@, args_text@, ctx.host@, out),
{
    match parse_json(args_text) {
        Ok(args) => Ok(registry.execute(cmd, args, ctx)),
        Err(m) => {
            let run_id = new_run_id();
            let message = concat("invalid JSON args: ", m.as_str());
            assert(message@.take("invalid JSON args: "@.len() as int) =~= "invalid JSON args: "@);
            let r = result_err(
                "call",
                cmd,
                run_id.as_str(),
                0,
                ErrorCode::InvalidInput,
                message,
                EnvSummary::of(&ctx.host),
            );
            assert(r@ == err_view(
                "call"@,
                cmd@,
                r@.run_id,
                0,
                ErrorCode::InvalidInput,
                message@,
                env_of(ctx.host@),
            ));
            Err(r)
        },
    }
}

/// The result of a scenario run that could not start: an error of the
/// command `run-scenario` on the script's path, with zero elapsed time.
pub open spec fn scenario_refusal(path: Seq<char>, code: ErrorCode, message: Seq<char>, host: HostView, r: ResultView) -> bool {
    &&& is_run_id(r.run_id)
    &&& r == err_view("run-scenario"@, path, r.run_id, 0, code, message, env_of(host))
}

/// The result for a script that could not be read from its file.
pub fn unreadable_scenario(path: &str, detail: &str, host: &HostFacts) -> (r: CommandResult)
    ensures
        scenario_refusal(path@, ErrorCode::IoError, "cannot read scenario file: "@ + detail@, host@, r@),
{
    let run_id = new_run_id();
    let message = concat("cannot read scenario file: ", detail);
    result_err("run-scenario", path, run_id.as_str(), 0, ErrorCode::IoError, message, EnvSummary::of(host))
}

/// What running the script at `path` with the text `yaml` gives: the
/// verdict of the scenario that the text describes, or an invalid-input
/// error that carries the loader's message.
pub open spec fn scenario_text_ran(
    path: Seq<char>,
    yaml: Seq<char>,
    commands: Map<Seq<char>, CommandHandler>,
    host: HostView,
    url: Seq<char>,
    out: Result<ScenarioResult, CommandResult>,
) -> bool {
    match out {
        Ok(verdict) => exists|scenario: crate::types::ScenarioView|
            crate::scenario::loaded_as(yaml, scenario) && #[trigger] scenario_ran(
                scenario,
                commands,
                host,
                url,
                verdict@,
            ),
        Err(r) => crate::scenario::not_loaded(yaml) && is_run_id(r@.run_id) && r@.status == Status::Error
            && r@.command == "run-scenario"@ && r@.target == path && r@.timing.total == 0 && r@.error is Some
            && r@.error->Some_0.code == ErrorCode::InvalidInput && starts_with(
            r@.error->Some_0.message,
            "failed to parse scenario YAML: "@,
        ),
    }
}

/// Loads the script at `path` from its text and runs it.
pub fn cmd_run_scenario(path: &str, yaml: &str, ctx: &AppContext, registry: &CommandRegistry) -> (out: Result<
    ScenarioResult,
    CommandResult,
>)
    ensures
        scenario_text_ran(path@, yaml@, registry@, ctx.host@, ctx.network_probe_host@, out),
{
    match load_scenario(yaml) {
        Ok(scenario) => {
            let verdict = run_scenario(&scenario, ctx, registry);
            assert(crate::scenario::loaded_as(yaml@, scenario@));
            Ok(verdict)
        },
        Err(message) => {
            let run_id = new_run_id();
            proof {
                crate::scenario::lemma_refusal_has_prefix(yaml@, Err(message));
            }
            let r = result_err(
                "run-scenario",
                path,
                run_id.as_str(),
                0,
                ErrorCode::InvalidInput,
                message,
                EnvSummary::of(&ctx.host),
            );
            Err(r)
        },
    }
}

/// The exit code of the process after a scenario: that of the overall
/// status where the script ran, which is 1 for a fail, and that of the
/// refusal where it did not, which is 2.
pub open spec fn scenario_exit_code_of(out: Result<ScenarioResult, CommandResult>) -> i32 {
    match out {
        Ok(ran) => exit_code_of(ran@.overall_status),
        Err(refusal) => exit_code_of(refusal@.status),
    }
}

/// The exit code of the process after a scenario.
pub fn scenario_exit_code(out: &Result<ScenarioResult, CommandResult>) -> (code: i32)
    ensures
        code == scenario_exit_code_of(*out),
{
    match out {
        Ok(ran) => exit_code(ran.overall_status),
        Err(refusal) => exit_code(refusal.status),
    }
}

/// After a scenario the process exits with 0 where every step was met,
/// with 1 where one was not, and with 2 where the script was refused.
pub proof fn lemma_scenario_exit_code(
    path: Seq<char>,
    yaml: Seq<char>,
    commands: Map<Seq<char>, CommandHandler>,
    host: HostView,
    url: Seq<char>,
    out: Result<ScenarioResult, CommandResult>,
)
    requires
        scenario_text_ran(path, yaml, commands, host, url, out),
    ensures
        out is Err ==> scenario_exit_code_of(out) == 2,
        out is Ok && out->Ok_0@.overall_status == Status::Pass ==> scenario_exit_code_of(out) == 0,
        out is Ok && out->Ok_0@.overall_status == Status::Fail ==> scenario_exit_code_of(out) == 1,
        out is Ok ==> out->Ok_0@.overall_status == Status::Pass || out->Ok_0@.overall_status == Status::Fail,
{
}

/// The result of emitting a desktop event. Events are not delivered yet, so
/// every event is skipped: as unsupported on a host without a display, as
/// unimplemented on every other.
pub open spec fn emitted(event: Seq<char>, host: HostView, r: ResultView) -> bool {
    &&& is_run_id(r.run_id)
    &&& r == ResultView {
        run_id: r.run_id,
        command: "emit"@,
        target: event,
        status: Status::Skip,
        error: Some(
            if headless(host) {
                ErrorView {
                    code: ErrorCode::Unsupported,
                    message: "event '"@ + event + "' unsupported in headless environment"@,
                    details: JsonValue::Null,
                }
            } else {
                ErrorView {
                    code: ErrorCode::Unimplemented,
                    message: "event '"@ + event + "' is not yet implemented (skeleton)"@,
                    details: JsonValue::Null,
                }
            },
        ),
        timing: TimingView { total: 0, steps: Seq::empty() },
        artifacts: Seq::empty(),
        env: env_of(host),
        data: None,
    }
}

/// Emits a desktop event.
pub fn cmd_emit(event: &str, host: &HostFacts) -> (r: CommandResult)
    ensures
        emitted(event@, host@, r@),
{
    let run_id = new_run_id();
    let (code, message) = if detect_headless(host) {
        (ErrorCode::Unsupported, concat3("event '", event, "' unsupported in headless environment"))
    } else {
        (ErrorCode::Unimplemented, concat3("event '", event, "' is not yet implemented (skeleton)"))
    };
    let r = CommandResult {
        run_id,
        command: "emit".to_string(),
        target: event.to_string(),
        status: Status::Skip,
        error: Some(ErrorInfo { code, message, details: crate::json::Json::Null }),
        timing_ms: TimingInfo::new(0),
        artifacts: Vec::new(),
        env_summary: EnvSummary::of(host),
        data: None,
    };
    assert(r@.artifacts =~= Seq::empty());
    r
}

/// The word that heads a result printed for a person.
pub open spec fn status_label(status: Status) -> Seq<char> {
    match status {
        Status::Pass => "PASS"@,
        Status::Fail => "FAIL"@,
        Status::Skip => "SKIP"@,
        Status::Error => "ERROR"@,
    }
}

/// The name of a status as a scenario's verdict prints it.
pub open spec fn status_word(status: Status) -> Seq<char> {
    match status {
        Status::Pass => "Pass"@,
        Status::Fail => "Fail"@,
        Status::Skip => "Skip"@,
        Status::Error => "Error"@,
    }
}

fn label_of(status: Status) -> (s: &'static str)
    ensures
        s@ == status_label(status),
{
    match status {
        Status::Pass => "PASS",
        Status::Fail => "FAIL",
        Status::Skip => "SKIP",
        Status::Error => "ERROR",
    }
}

fn word_of(status: Status) -> (s: &'static str)
    ensures
        s@ == status_word(status),
{
    match status {
        Status::Pass => "Pass",
        Status::Fail => "Fail",
        Status::Skip => "Skip",
        Status::Error => "Error",
    }
}

/// The text of a truth value.
pub open spec fn bool_text(b: bool) -> Seq<char> {
    if b {
        "true"@
    } else {
        "false"@
    }
}

/// The line for one timed step.
pub open spec fn step_line(step: (Seq<char>, u64)) -> Seq<char> {
    "    "@ + step.0 + ": "@ + decimal_text(step.1 as nat) + "ms"@
}

/// The lines that open a result printed for a person: the status with the
/// command and its target, the run identifier, the total time, one line for
/// each step, and the error on one line with its code and message.
pub open spec fn human_head_of(r: ResultView) -> Seq<Seq<char>> {
    seq![
        "["@ + status_label(r.status) + "] "@ + r.command + " "@ + r.target,
        "  run_id: "@ + r.run_id,
        "  timing: "@ + decimal_text(r.timing.total as nat) + "ms"@,
    ] + Seq::new(r.timing.steps.len(), |i: int| step_line(r.timing.steps[i])) + match r.error {
        Some(e) => seq!["  error:  "@ + crate::types::error_code_name(e.code) + " – "@ + e.message],
        None => Seq::empty(),
    }
}

/// The line that closes a result printed for a person.
pub open spec fn human_env_line_of(r: ResultView) -> Seq<char> {
    "  env: os="@ + r.env.os + " arch="@ + r.env.arch + " headless="@ + bool_text(r.env.headless)
}

/// The lines that open a result printed for a person. The payload, where
/// there is one, is printed after them and before the closing line.
pub fn human_head(r: &CommandResult) -> (lines: Vec<String>)
    ensures
        crate::json::texts_view(lines@) == human_head_of(r@),
{
    let mut lines: Vec<String> = Vec::new();
    let mut first = concat3("[", label_of(r.status), "] ");
    first.append(r.command.as_str());
    first.append(" ");
    first.append(r.target.as_str());
    lines.push(first);
    lines.push(concat("  run_id: ", r.run_id.as_str()));
    let total = decimal(r.timing_ms.total);
    lines.push(concat3("  timing: ", total.as_str(), "ms"));
    let ghost head = human_head_of(r@).take(3);
    let ghost steps = r@.timing.steps;
    assert(lines@[0]@ == head[0]);
    assert(lines@[1]@ == head[1]);
    assert(lines@[2]@ == head[2]);
    let mut i: usize = 0;
    while i < r.timing_ms.steps.len()
        invariant
            i <= r.timing_ms.steps.len(),
            steps == r@.timing.steps,
            steps.len() == r.timing_ms.steps@.len(),
            head == human_head_of(r@).take(3),
            lines@.len() == 3 + i,
            forall|k: int| 0 <= k < 3 ==> lines@[k]@ == head[k],
            forall|k: int| 0 <= k < i ==> lines@[3 + k]@ == step_line(steps[k]),
        decreases r.timing_ms.steps.len() - i,
    {
        assert(steps[i as int] == (r.timing_ms.steps@[i as int].name@, r.timing_ms.steps@[i as int].ms));
        let step = &r.timing_ms.steps[i];
        let ms = decimal(step.ms);
        let mut line = concat3("    ", step.name.as_str(), ": ");
        line.append(ms.as_str());
        line.append("ms");
        lines.push(line);
        i += 1;
    }
    match &r.error {
        Some(e) => {
            let mut line = concat3("  error:  ", e.code.as_str(), " – ");
            line.append(e.message.as_str());
            lines.push(line);
        },
        None => {},
    }
    proof {
        let want = human_head_of(r@);
        let got = crate::json::texts_view(lines@);
        assert(got.len() == want.len());
        assert forall|k: int| 0 <= k < got.len() implies got[k] == want[k] by {
            if k < 3 {
                assert(got[k] == head[k]);
            } else if k < 3 + steps.len() {
                assert(got[k] == step_line(steps[k - 3]));
            } else {
            }
        }
    }
    assert(crate::json::texts_view(lines@) =~= human_head_of(r@));
    lines
}

/// The line that closes a result printed for a person.
pub fn human_env_line(r: &CommandResult) -> (line: String)
    ensures
        line@ == human_env_line_of(r@),
{
    let mut line = concat3("  env: os=", r.env_summary.os.as_str(), " arch=");
    line.append(r.env_summary.arch.as_str());
    line.append(" headless=");
    line.append(
        if r.env_summary.headless {
            "true"
        } else {
            "false"
        },
    );
    line
}

/// The line for the result of one step of a scenario.
pub open spec fn scenario_step_line(i: nat, r: ResultView) -> Seq<char> {
    "  Step "@ + decimal_text(i) + ": "@ + r.target + " -> "@ + status_word(r.status) + " ("@ + decimal_text(
        r.timing.total as nat,
    ) + "ms)"@
}

/// The lines of a scenario's verdict printed for a person: the name, the
/// verdict, and one line for each step.
pub open spec fn scenario_lines_of(s: crate::types::ScenarioResultView) -> Seq<Seq<char>> {
    seq![
        "Scenario: "@ + match s.name {
            Some(n) => n,
            None => "<unnamed>"@,
        },
        "Overall: "@ + status_word(s.overall_status),
    ] + Seq::new(s.step_results.len(), |i: int| scenario_step_line(i as nat, s.step_results[i]))
}

/// The lines of a scenario's verdict printed for a person.
pub fn scenario_lines(s: &ScenarioResult) -> (lines: Vec<String>)
    ensures
        crate::json::texts_view(lines@) == scenario_lines_of(s@),
{
    let mut lines: Vec<String> = Vec::new();
    let name = match &s.name {
        Some(n) => n.as_str(),
        None => "<unnamed>",
    };
    lines.push(concat("Scenario: ", name));
    lines.push(concat("Overall: ", word_of(s.overall_status)));
    let ghost head = scenario_lines_of(s@).take(2);
    let ghost results = s@.step_results;
    assert(lines@[0]@ == head[0]);
    assert(lines@[1]@ == head[1]);
    let mut i: usize = 0;
    while i < s.step_results.len()
        invariant
            i <= s.step_results.len(),
            results == s@.step_results,
            results.len() == s.step_results@.len(),
            head == scenario_lines_of(s@).take(2),
            lines@.len() == 2 + i,
            forall|k: int| 0 <= k < 2 ==> lines@[k]@ == head[k],
            forall|k: int| 0 <= k < i ==> lines@[2 + k]@ == scenario_step_line(k as nat, results[k]),
        decreases s.step_results.len() - i,
    {
        assert(results[i as int] == s.step_results@[i as int]@);
        let r = &s.step_results[i];
        let position = decimal(i as u64);
        let total = decimal(r.timing_ms.total);
        let mut line = concat3("  Step ", position.as_str(), ": ");
        line.append(r.target.as_str());
        line.append(" -> ");
        line.append(word_of(r.status));
        line.append(" (");
        line.append(total.as_str());
        line.append("ms)");
        lines.push(line);
        i += 1;
    }
    proof {
        let want = scenario_lines_of(s@);
        let got = crate::json::texts_view(lines@);
        assert(got.len() == want.len());
        assert forall|k: int| 0 <= k < got.len() implies got[k] == want[k] by {
            if k < 2 {
                assert(got[k] == head[k]);
            } else {
                assert(got[k] == scenario_step_line((k - 2) as nat, results[k - 2]));
            }
        }
    }
    assert(crate::json::texts_view(lines@) =~= scenario_lines_of(s@));
    lines
}

} // verus!
