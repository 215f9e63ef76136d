//! The result model: the shapes that every command, probe and scenario
//! returns.

use vstd::prelude::*;

pub use crate::host::{current_os, detect_headless};

use crate::host::{headless, HostFacts, HostView};
use crate::json::{Json, JsonValue};

verus! {

/// Outcome class of one command, probe or scenario.
#[derive(Clone, Copy, Debug, PartialEq, Eq, Structural)]
pub enum Status {
    Pass,
    Fail,
    Skip,
    Error,
}

/// The lower-case name under which a status is written and compared.
pub open spec fn status_name(s: Status) -> Seq<char> {
    match s {
        Status::Pass => "pass"@,
        Status::Fail => "fail"@,
        Status::Skip => "skip"@,
        Status::Error => "error"@,
    }
}

impl Status {
    /// The lower-case name of the status.
    pub fn as_str(&self) -> (name: &'static str)
        ensures
            name@ == status_name(*self),
    {
        match self {
            Status::Pass => "pass",
            Status::Fail => "fail",
            Status::Skip => "skip",
            Status::Error => "error",
        }
    }
}

/// The closed set of error kinds that a result can carry.
#[derive(Clone, Copy, Debug, PartialEq, Eq, Structural)]
pub enum ErrorCode {
    InvalidInput,
    Unsupported,
    Unimplemented,
    DependencyMissing,
    PermissionDenied,
    NetworkError,
    IoError,
    Timeout,
    ExternalInterference,
    InternalError,
}

/// The upper-case name under which an error code is written.
pub open spec fn error_code_name(c: ErrorCode) -> Seq<char> {
    match c {
        ErrorCode::InvalidInput => "INVALID_INPUT"@,
        ErrorCode::Unsupported => "UNSUPPORTED"@,
        ErrorCode::Unimplemented => "UNIMPLEMENTED"@,
        ErrorCode::DependencyMissing => "DEPENDENCY_MISSING"@,
        ErrorCode::PermissionDenied => "PERMISSION_DENIED"@,
        ErrorCode::NetworkError => "NETWORK_ERROR"@,
        ErrorCode::IoError => "IO_ERROR"@,
        ErrorCode::Timeout => "TIMEOUT"@,
        ErrorCode::ExternalInterference => "EXTERNAL_INTERFERENCE"@,
        ErrorCode::InternalError => "INTERNAL_ERROR"@,
    }
}

impl ErrorCode {
    /// The upper-case name of the code.
    pub fn as_str(&self) -> (name: &'static str)
        ensures
            name@ == error_code_name(*self),
    {
        match self {
            ErrorCode::InvalidInput => "INVALID_INPUT",
            ErrorCode::Unsupported => "UNSUPPORTED",
            ErrorCode::Unimplemented => "UNIMPLEMENTED",
            ErrorCode::DependencyMissing => "DEPENDENCY_MISSING",
            ErrorCode::PermissionDenied => "PERMISSION_DENIED",
            ErrorCode::NetworkError => "NETWORK_ERROR",
            ErrorCode::IoError => "IO_ERROR",
            ErrorCode::Timeout => "TIMEOUT",
            ErrorCode::ExternalInterference => "EXTERNAL_INTERFERENCE",
            ErrorCode::InternalError => "INTERNAL_ERROR",
        }
    }
}

/// What went wrong, for a result that is not a plain pass.
#[derive(Clone, Debug, PartialEq, Eq)]
pub struct ErrorInfo {
    pub code: ErrorCode,
    pub message: String,
    /// Further detail; `null` where there is none.
    pub details: Json,
}

/// The mathematical value of an [`ErrorInfo`].
pub struct ErrorView {
    pub code: ErrorCode,
    pub message: Seq<char>,
    pub details: JsonValue,
}

impl View for ErrorInfo {
    type V = ErrorView;

    open spec fn view(&self) -> ErrorView {
        ErrorView { code: self.code, message: self.message@, details: self.details@ }
    }
}

/// The duration of one named step of a probe.
#[derive(Clone, Debug, PartialEq, Eq)]
pub struct StepTiming {
    pub name: String,
    pub ms: u64,
}

/// How long an operation took, in all and step by step.
#[derive(Clone, Debug, PartialEq, Eq)]
pub struct TimingInfo {
    pub total: u64,
    /// One entry per step, in the order in which the steps ended.
    pub steps: Vec<StepTiming>,
}

/// The mathematical value of a [`TimingInfo`].
pub struct TimingView {
    pub total: u64,
    pub steps: Seq<(Seq<char>, u64)>,
}

/// No step name occurs twice.
pub open spec fn distinct_steps(steps: Seq<(Seq<char>, u64)>) -> bool {
    forall|i: int, j: int| 0 <= i < j < steps.len() ==> steps[i].0 != steps[j].0
}

impl TimingView {
    /// No step name occurs twice.
    pub open spec fn distinct(self) -> bool {
        distinct_steps(self.steps)
    }
}

/// The names and durations of a list of steps.
pub open spec fn steps_view(steps: Seq<StepTiming>) -> Seq<(Seq<char>, u64)> {
    Seq::new(steps.len(), |i: int| (steps[i].name@, steps[i].ms))
}

impl View for TimingInfo {
    type V = TimingView;

    open spec fn view(&self) -> TimingView {
        TimingView { total: self.total, steps: steps_view(self.steps@) }
    }
}

/// A list of steps after the step `name` has been timed: the step stands
/// where it stood with its new duration, or at the end where it is new. A
/// name is never held twice on this account.
pub open spec fn put_step(steps: Seq<(Seq<char>, u64)>, name: Seq<char>, ms: u64) -> Seq<(Seq<char>, u64)>
    decreases steps.len(),
{
    if steps.len() == 0 {
        seq![(name, ms)]
    } else if steps[0].0 == name {
        steps.update(0, (name, ms))
    } else {
        seq![steps[0]] + put_step(steps.drop_first(), name, ms)
    }
}

/// Whether a list of steps holds a step of the given name.
pub open spec fn has_step(steps: Seq<(Seq<char>, u64)>, name: Seq<char>) -> bool {
    exists|i: int| 0 <= i < steps.len() && (#[trigger] steps[i]).0 == name
}

/// Timing a step behind steps of other names times it among the rest.
pub proof fn lemma_put_step_behind(steps: Seq<(Seq<char>, u64)>, k: int, name: Seq<char>, ms: u64)
    requires
        0 <= k <= steps.len(),
        forall|i: int| 0 <= i < k ==> (#[trigger] steps[i]).0 != name,
    ensures
        put_step(steps, name, ms) == steps.take(k) + put_step(steps.skip(k), name, ms),
    decreases k,
{
    if k == 0 {
        assert(steps.skip(0) =~= steps);
        assert(steps.take(0) + put_step(steps, name, ms) =~= put_step(steps, name, ms));
    } else {
        let rest = steps.drop_first();
        assert forall|i: int| 0 <= i < k - 1 implies (#[trigger] rest[i]).0 != name by {
            assert(rest[i] == steps[i + 1]);
        }
        lemma_put_step_behind(rest, k - 1, name, ms);
        assert(rest.skip(k - 1) =~= steps.skip(k));
        assert(steps.take(k) =~= seq![steps[0]] + rest.take(k - 1));
        assert(steps[0].0 != name);
        assert(seq![steps[0]] + (rest.take(k - 1) + put_step(rest.skip(k - 1), name, ms)) =~= steps.take(k)
            + put_step(steps.skip(k), name, ms));
    }
}

/// Timing a step of a new name appends it.
pub proof fn lemma_put_new_step(steps: Seq<(Seq<char>, u64)>, name: Seq<char>, ms: u64)
    requires
        !has_step(steps, name),
    ensures
        put_step(steps, name, ms) == steps.push((name, ms)),
{
    assert forall|i: int| 0 <= i < steps.len() implies (#[trigger] steps[i]).0 != name by {
        if steps[i].0 == name {
            assert(has_step(steps, name));
        }
    }
    lemma_put_step_behind(steps, steps.len() as int, name, ms);
    assert(steps.skip(steps.len() as int) =~= Seq::empty());
    assert(steps.take(steps.len() as int) =~= steps);
    assert(steps + seq![(name, ms)] =~= steps.push((name, ms)));
}

/// Timing a step keeps the names of the steps distinct.
pub proof fn lemma_put_step_distinct(steps: Seq<(Seq<char>, u64)>, name: Seq<char>, ms: u64)
    requires
        distinct_steps(steps),
    ensures
        distinct_steps(put_step(steps, name, ms)),
        put_step(steps, name, ms).len() == if has_step(steps, name) {
            steps.len()
        } else {
            steps.len() + 1
        },
        has_step(put_step(steps, name, ms), name),
    decreases steps.len(),
{
    let out = put_step(steps, name, ms);
    if steps.len() == 0 {
        assert(out[0].0 == name);
    } else if steps[0].0 == name {
        assert(out[0].0 == name);
        assert(has_step(steps, name));
        assert forall|i: int, j: int| 0 <= i < j < out.len() implies out[i].0 != out[j].0 by {
            assert(out[i].0 == steps[i].0);
            assert(out[j].0 == steps[j].0);
        }
    } else {
        let rest = steps.drop_first();
        assert forall|i: int, j: int| 0 <= i < j < rest.len() implies rest[i].0 != rest[j].0 by {
            assert(rest[i] == steps[i + 1]);
            assert(rest[j] == steps[j + 1]);
        }
        lemma_put_step_distinct(rest, name, ms);
        let tail = put_step(rest, name, ms);
        assert(out =~= seq![steps[0]] + tail);
        assert(has_step(rest, name) == has_step(steps, name)) by {
            if has_step(rest, name) {
                let i = choose|i: int| 0 <= i < rest.len() && (#[trigger] rest[i]).0 == name;
                assert(steps[i + 1].0 == name);
            }
            if has_step(steps, name) {
                let i = choose|i: int| 0 <= i < steps.len() && (#[trigger] steps[i]).0 == name;
                assert(rest[i - 1].0 == name);
            }
        }
        let w = choose|i: int| 0 <= i < tail.len() && (#[trigger] tail[i]).0 == name;
        assert(out[w + 1].0 == name);
        lemma_put_step_names(rest, name, ms);
        assert forall|i: int, j: int| 0 <= i < j < out.len() implies out[i].0 != out[j].0 by {
            if i == 0 {
                assert(out[j] == tail[j - 1]);
                if tail[j - 1].0 != name {
                    let k = choose|k: int| 0 <= k < rest.len() && rest[k].0 == (#[trigger] tail[j - 1]).0;
                    assert(rest[k] == steps[k + 1]);
                }
            } else {
                assert(out[i] == tail[i - 1]);
                assert(out[j] == tail[j - 1]);
            }
        }
    }
}

/// Every step of a list in which a step was timed has the name of that
/// step or the name of a step of the list.
pub proof fn lemma_put_step_names(steps: Seq<(Seq<char>, u64)>, name: Seq<char>, ms: u64)
    ensures
        forall|j: int|
            0 <= j < put_step(steps, name, ms).len() ==> (#[trigger] put_step(steps, name, ms)[j]).0 == name
                || exists|k: int| 0 <= k < steps.len() && steps[k].0 == put_step(steps, name, ms)[j].0,
    decreases steps.len(),
{
    let out = put_step(steps, name, ms);
    if steps.len() == 0 {
    } else if steps[0].0 == name {
        assert forall|j: int| 0 <= j < out.len() implies (#[trigger] out[j]).0 == name || exists|k: int|
            0 <= k < steps.len() && steps[k].0 == out[j].0 by {
            if j > 0 {
                assert(steps[j].0 == out[j].0);
            }
        }
    } else {
        let rest = steps.drop_first();
        lemma_put_step_names(rest, name, ms);
        let tail = put_step(rest, name, ms);
        assert(out =~= seq![steps[0]] + tail);
        assert forall|j: int| 0 <= j < out.len() implies (#[trigger] out[j]).0 == name || exists|k: int|
            0 <= k < steps.len() && steps[k].0 == out[j].0 by {
            if j == 0 {
                assert(steps[0].0 == out[0].0);
            } else {
                assert(out[j] == tail[j - 1]);
                if tail[j - 1].0 != name {
                    let k = choose|k: int| 0 <= k < rest.len() && rest[k].0 == tail[j - 1].0;
                    assert(steps[k + 1].0 == out[j].0);
                }
            }
        }
    }
}

/// Times the step `name`: a step of that name gets the new duration, and a
/// new step goes to the end of the list.
pub fn push_step(steps: &mut Vec<StepTiming>, name: &str, ms: u64)
    ensures
        steps_view(final(steps)@) == put_step(steps_view(old(steps)@), name@, ms),
{
    let ghost all = steps_view(steps@);
    let mut i: usize = 0;
    while i < steps.len()
        invariant
            i <= steps.len(),
            *steps == *old(steps),
            all == steps_view(steps@),
            forall|k: int| 0 <= k < i ==> (#[trigger] all[k]).0 != name@,
        decreases steps.len() - i,
    {
        if crate::text::str_eq(steps[i].name.as_str(), name) {
            proof {
                lemma_put_step_behind(all, i as int, name@, ms);
                assert(all.skip(i as int)[0] == all[i as int]);
            }
            steps.set(i, StepTiming { name: name.to_string(), ms });
            assert(steps_view(steps@) =~= all.take(i as int) + all.skip(i as int).update(0, (name@, ms)));
            return;
        }
        i += 1;
    }
    proof {
        lemma_put_step_behind(all, all.len() as int, name@, ms);
        assert(all.skip(all.len() as int) =~= Seq::empty());
        assert(all.take(all.len() as int) =~= all);
    }
    steps.push(StepTiming { name: name.to_string(), ms });
    assert(steps_view(steps@) =~= all + seq![(name@, ms)]);
}

/// A result with its steps replaced by the given ones.
pub fn with_steps(r: CommandResult, steps: Vec<StepTiming>) -> (out: CommandResult)
    ensures
        out@ == (ResultView { timing: TimingView { total: r@.timing.total, steps: steps_view(steps@) }, ..r@ }),
{
    let mut out = r;
    out.timing_ms.steps = steps;
    out
}

impl Default for TimingInfo {
    /// No time taken and no steps.
    fn default() -> (t: TimingInfo)
        ensures
            t@ == (TimingView { total: 0, steps: Seq::empty() }),
    {
        TimingInfo::new(0)
    }
}

impl TimingInfo {
    /// A timing with a total and no steps.
    pub fn new(total: u64) -> (t: TimingInfo)
        ensures
            t@ == (TimingView { total, steps: Seq::empty() }),
    {
        let t = TimingInfo { total, steps: Vec::new() };
        assert(t@.steps =~= Seq::empty());
        t
    }

    /// Records that the step `name` took `ms` milliseconds. A step that was
    /// recorded before is recorded anew in its place.
    pub fn record(&mut self, name: &str, ms: u64)
        ensures
            final(self)@ == (TimingView {
                total: old(self)@.total,
                steps: put_step(old(self)@.steps, name@, ms),
            }),
    {
        push_step(&mut self.steps, name, ms);
    }
}

/// Where a result was produced.
#[derive(Clone, Debug, PartialEq, Eq)]
pub struct EnvSummary {
    pub os: String,
    pub arch: String,
    pub headless: bool,
}

/// The mathematical value of an [`EnvSummary`].
pub struct EnvView {
    pub os: Seq<char>,
    pub arch: Seq<char>,
    pub headless: bool,
}

impl View for EnvSummary {
    type V = EnvView;

    open spec fn view(&self) -> EnvView {
        EnvView { os: self.os@, arch: self.arch@, headless: self.headless }
    }
}

/// The summary that belongs to a host.
pub open spec fn env_of(host: HostView) -> EnvView {
    EnvView { os: host.os, arch: host.arch, headless: headless(host) }
}

impl EnvSummary {
    /// Summarises the host as the caller observed it.
    pub fn of(host: &HostFacts) -> (env: EnvSummary)
        ensures
            env@ == env_of(host@),
    {
        EnvSummary { os: host.os.clone(), arch: host.arch.clone(), headless: detect_headless(host) }
    }
}

/// The stable result of one command or probe.
#[derive(Clone, Debug, PartialEq, Eq)]
pub struct CommandResult {
    pub run_id: String,
    pub command: String,
    pub target: String,
    pub status: Status,
    pub error: Option<ErrorInfo>,
    pub timing_ms: TimingInfo,
    pub artifacts: Vec<String>,
    pub env_summary: EnvSummary,
    /// The payload of a success; absent on failure.
    pub data: Option<Json>,
}

/// The mathematical value of a [`CommandResult`].
pub struct ResultView {
    pub run_id: Seq<char>,
    pub command: Seq<char>,
    pub target: Seq<char>,
    pub status: Status,
    pub error: Option<ErrorView>,
    pub timing: TimingView,
    pub artifacts: Seq<Seq<char>>,
    pub env: EnvView,
    pub data: Option<JsonValue>,
}

impl View for CommandResult {
    type V = ResultView;

    open spec fn view(&self) -> ResultView {
        ResultView {
            run_id: self.run_id@,
            command: self.command@,
            target: self.target@,
            status: self.status,
            error: match self.error {
                Some(e) => Some(e@),
                None => None,
            },
            timing: self.timing_ms@,
            artifacts: Seq::new(self.artifacts@.len(), |i: int| self.artifacts@[i]@),
            env: self.env_summary@,
            data: match self.data {
                Some(d) => Some(d@),
                None => None,
            },
        }
    }
}

/// A lower-case hexadecimal digit.
pub open spec fn is_lower_hex(c: char) -> bool {
    ('0' <= c && c <= '9') || ('a' <= c && c <= 'f')
}

/// The text of a random (version 4) UUID in its hyphenated lower-case form:
/// 36 characters, hyphens after the 8th, 12th, 16th and 20th digit, the
/// version digit `4` and a variant digit of `8`, `9`, `a` or `b`.
pub open spec fn is_run_id(s: Seq<char>) -> bool {
    &&& s.len() == 36
    &&& forall|i: int|
        0 <= i < 36 ==> if i == 8 || i == 13 || i == 18 || i == 23 {
            s[i] == '-'
        } else {
            is_lower_hex(#[trigger] s[i])
        }
    &&& s[14] == '4'
    &&& (s[19] == '8' || s[19] == '9' || s[19] == 'a' || s[19] == 'b')
}

/// A fresh run identifier.
///
/// Calls `uuid::Uuid::new_v4` and renders the result with its `Display`
/// impl. The contract claims the shape of that text, which holds of every
/// outcome: the crate fixes the version and variant bits and prints lower-case
/// hexadecimal digits in the 8-4-4-4-12 grouping. Which digits come out is
/// random and is not stated.
#[verifier::external_body]
pub fn new_run_id() -> (id: String)
    ensures
        is_run_id(id@),
{
    uuid::Uuid::new_v4().to_string()
}

/// The result of a success, before its payload is attached.
pub open spec fn ok_view(
    command: Seq<char>,
    target: Seq<char>,
    run_id: Seq<char>,
    total_ms: u64,
    env: EnvView,
) -> ResultView {
    ResultView {
        run_id,
        command,
        target,
        status: Status::Pass,
        error: None,
        timing: TimingView { total: total_ms, steps: Seq::empty() },
        artifacts: Seq::empty(),
        env,
        data: None,
    }
}

/// The result of a failure with the given code and message.
pub open spec fn err_view(
    command: Seq<char>,
    target: Seq<char>,
    run_id: Seq<char>,
    total_ms: u64,
    code: ErrorCode,
    message: Seq<char>,
    env: EnvView,
) -> ResultView {
    ResultView {
        run_id,
        command,
        target,
        status: Status::Error,
        error: Some(ErrorView { code, message, details: JsonValue::Null }),
        timing: TimingView { total: total_ms, steps: Seq::empty() },
        artifacts: Seq::empty(),
        env,
        data: None,
    }
}

/// The result of an operation that was skipped for the given reason.
pub open spec fn skip_view(
    command: Seq<char>,
    target: Seq<char>,
    run_id: Seq<char>,
    total_ms: u64,
    reason: Seq<char>,
    env: EnvView,
) -> ResultView {
    ResultView {
        run_id,
        command,
        target,
        status: Status::Skip,
        error: Some(ErrorView { code: ErrorCode::Unsupported, message: reason, details: JsonValue::Null }),
        timing: TimingView { total: total_ms, steps: Seq::empty() },
        artifacts: Seq::empty(),
        env,
        data: None,
    }
}

/// Builds a passing result; the caller attaches the payload.
pub fn result_ok(command: &str, target: &str, run_id: &str, total_ms: u64, env: EnvSummary) -> (r:
    CommandResult)
    ensures
        r@ == ok_view(command@, target@, run_id@, total_ms, env@),
{
    let r = CommandResult {
        run_id: run_id.to_string(),
        command: command.to_string(),
        target: target.to_string(),
        status: Status::Pass,
        error: None,
        timing_ms: TimingInfo::new(total_ms),
        artifacts: Vec::new(),
        env_summary: env,
        data: None,
    };
    assert(r@.artifacts =~= Seq::empty());
    r
}

/// Builds a failed result.
pub fn result_err(
    command: &str,
    target: &str,
    run_id: &str,
    total_ms: u64,
    code: ErrorCode,
    message: String,
    env: EnvSummary,
) -> (r: CommandResult)
    ensures
        r@ == err_view(command@, target@, run_id@, total_ms, code, message@, env@),
{
    let r = CommandResult {
        run_id: run_id.to_string(),
        command: command.to_string(),
        target: target.to_string(),
        status: Status::Error,
        error: Some(ErrorInfo { code, message, details: Json::Null }),
        timing_ms: TimingInfo::new(total_ms),
        artifacts: Vec::new(),
        env_summary: env,
        data: None,
    };
    assert(r@.artifacts =~= Seq::empty());
    r
}

/// Builds a skipped result; the reason is reported as unsupported.
pub fn result_skip(command: &str, target: &str, run_id: &str, total_ms: u64, reason: String, env: EnvSummary) -> (r:
    CommandResult)
    ensures
        r@ == skip_view(command@, target@, run_id@, total_ms, reason@, env@),
{
    let r = CommandResult {
        run_id: run_id.to_string(),
        command: command.to_string(),
        target: target.to_string(),
        status: Status::Skip,
        error: Some(ErrorInfo { code: ErrorCode::Unsupported, message: reason, details: Json::Null }),
        timing_ms: TimingInfo::new(total_ms),
        artifacts: Vec::new(),
        env_summary: env,
        data: None,
    };
    assert(r@.artifacts =~= Seq::empty());
    r
}

/// What a call step expects of its command unless the script says otherwise.
pub fn default_expect_status() -> (s: String)
    ensures
        s@ == "pass"@,
{
    "pass".to_string()
}

/// The time limit of a call step unless the script says otherwise, in
/// milliseconds. It is carried and not enforced.
pub fn default_timeout_ms() -> (ms: u64)
    ensures
        ms == 30_000,
{
    30_000
}

/// One step of a scenario: the call of a command, or a probe.
#[derive(Clone, Debug, PartialEq, Eq)]
pub enum ScenarioStep {
    Call { call: String, args: Json, expect_status: String, timeout_ms: u64 },
    Probe { probe: String },
}

/// The mathematical value of a [`ScenarioStep`].
pub enum StepView {
    Call { call: Seq<char>, args: JsonValue, expect_status: Seq<char>, timeout_ms: u64 },
    Probe { probe: Seq<char> },
}

impl View for ScenarioStep {
    type V = StepView;

    open spec fn view(&self) -> StepView {
        match self {
            ScenarioStep::Call { call, args, expect_status, timeout_ms } => StepView::Call {
                call: call@,
                args: args@,
                expect_status: expect_status@,
                timeout_ms: *timeout_ms,
            },
            ScenarioStep::Probe { probe } => StepView::Probe { probe: probe@ },
        }
    }
}

/// A script: an ordered list of steps, with an optional name.
#[derive(Clone, Debug, PartialEq, Eq)]
pub struct Scenario {
    pub name: Option<String>,
    pub steps: Vec<ScenarioStep>,
}

/// The mathematical value of a [`Scenario`].
pub struct ScenarioView {
    pub name: Option<Seq<char>>,
    pub steps: Seq<StepView>,
}

/// The views of a list of steps.
pub open spec fn scenario_steps_view(steps: Seq<ScenarioStep>) -> Seq<StepView> {
    Seq::new(steps.len(), |i: int| steps[i]@)
}

impl View for Scenario {
    type V = ScenarioView;

    open spec fn view(&self) -> ScenarioView {
        ScenarioView { name: crate::host::opt_text(self.name), steps: scenario_steps_view(self.steps@) }
    }
}

/// The verdict of a scenario with the result of each of its steps.
#[derive(Clone, Debug, PartialEq, Eq)]
pub struct ScenarioResult {
    pub name: Option<String>,
    pub overall_status: Status,
    pub step_results: Vec<CommandResult>,
}

/// The mathematical value of a [`ScenarioResult`].
pub struct ScenarioResultView {
    pub name: Option<Seq<char>>,
    pub overall_status: Status,
    pub step_results: Seq<ResultView>,
}

/// The views of a list of results.
pub open spec fn results_view(results: Seq<CommandResult>) -> Seq<ResultView> {
    Seq::new(results.len(), |i: int| results[i]@)
}

impl View for ScenarioResult {
    type V = ScenarioResultView;

    open spec fn view(&self) -> ScenarioResultView {
        ScenarioResultView {
            name: crate::host::opt_text(self.name),
            overall_status: self.overall_status,
            step_results: results_view(self.step_results@),
        }
    }
}

/// A full report on the host.
#[derive(Clone, Debug, PartialEq, Eq)]
pub struct DoctorReport {
    pub os_name: String,
    pub os_version: String,
    pub kernel: String,
    pub arch: String,
    pub user_id: Option<u32>,
    pub effective_user_id: Option<u32>,
    pub is_admin: bool,
    pub headless: bool,
    pub session_type: Option<String>,
    pub display_server: Option<String>,
    /// The proxy variables that are set, as (name, value) pairs.
    pub proxy_env: Vec<(String, String)>,
}

/// The mathematical value of a [`DoctorReport`].
pub struct ReportView {
    pub os_name: Seq<char>,
    pub os_version: Seq<char>,
    pub kernel: Seq<char>,
    pub arch: Seq<char>,
    pub user_id: Option<u32>,
    pub effective_user_id: Option<u32>,
    pub is_admin: bool,
    pub headless: bool,
    pub session_type: Option<Seq<char>>,
    pub display_server: Option<Seq<char>>,
    pub proxy_env: Seq<(Seq<char>, Seq<char>)>,
}

impl View for DoctorReport {
    type V = ReportView;

    open spec fn view(&self) -> ReportView {
        ReportView {
            os_name: self.os_name@,
            os_version: self.os_version@,
            kernel: self.kernel@,
            arch: self.arch@,
            user_id: self.user_id,
            effective_user_id: self.effective_user_id,
            is_admin: self.is_admin,
            headless: self.headless,
            session_type: crate::host::opt_text(self.session_type),
            display_server: crate::host::opt_text(self.display_server),
            proxy_env: crate::host::pairs_view(self.proxy_env@),
        }
    }
}

/// A request to the daemon.
#[derive(Clone, Debug, PartialEq, Eq)]
pub struct DaemonRequest {
    /// Chosen by the caller and echoed in the response.
    pub id: String,
    pub method: String,
    /// `null` where the request has none.
    pub params: Json,
}

/// The mathematical value of a [`DaemonRequest`].
pub struct RequestView {
    pub id: Seq<char>,
    pub method: Seq<char>,
    pub params: JsonValue,
}

impl View for DaemonRequest {
    type V = RequestView;

    open spec fn view(&self) -> RequestView {
        RequestView { id: self.id@, method: self.method@, params: self.params@ }
    }
}

/// A response of the daemon: the result of the request, or the error that
/// kept it from running.
#[derive(Clone, Debug, PartialEq, Eq)]
pub struct DaemonResponse {
    pub id: String,
    pub result: Option<CommandResult>,
    pub error: Option<ErrorInfo>,
}

/// The mathematical value of a [`DaemonResponse`].
pub struct ResponseView {
    pub id: Seq<char>,
    pub result: Option<ResultView>,
    pub error: Option<ErrorView>,
}

impl View for DaemonResponse {
    type V = ResponseView;

    open spec fn view(&self) -> ResponseView {
        ResponseView {
            id: self.id@,
            result: match self.result {
                Some(r) => Some(r@),
                None => None,
            },
            error: match self.error {
                Some(e) => Some(e@),
                None => None,
            },
        }
    }
}

} // verus!
