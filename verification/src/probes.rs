//! The three probes: short fixed procedures that exercise one capability
//! end to end and time each of their steps.

use vstd::prelude::*;

use crate::clock::elapsed_ms;
use crate::context::AppContext;
use crate::host::{collect_proxy_env, detect_headless, headless, proxy_env, HostFacts, HostView};
use crate::json::{
    array_of_texts, members_view, object_of, object_of_texts, push_member, text_array, text_object, texts_view, Json,
    JsonValue,
};
use crate::paths::{path_join, path_text};
use crate::text::{
    before_char, bytes_eq, chars_of, concat, concat3, decimal, decimal_text, find_char, skip_all, str_eq, strip_all,
    trim, trimmed,
};
use crate::traits::{cap_error_text, CapError, ClipboardOps};
use crate::types::{
    env_of, err_view, is_run_id, new_run_id, ok_view, push_step, result_err, result_ok, result_skip, skip_view,
    steps_view, with_steps, CommandResult, EnvSummary, EnvView, ErrorCode, ErrorInfo, ErrorView, ResultView, Status,
    StepTiming, TimingInfo, TimingView,
};
use std::time::Instant;

verus! {

/// The names of a list of timed steps, in order.
pub open spec fn step_names(steps: Seq<(Seq<char>, u64)>) -> Seq<Seq<char>> {
    Seq::new(steps.len(), |i: int| steps[i].0)
}

/// The code under which the filesystem probe reports a capability error.
pub open spec fn fs_error_code(e: CapError) -> ErrorCode {
    match e {
        CapError::PermissionDenied(_) => ErrorCode::PermissionDenied,
        CapError::Io(_) => ErrorCode::IoError,
        _ => ErrorCode::InternalError,
    }
}

/// The result of a filesystem probe that failed at a step: an error that
/// names the step and carries the steps completed before it.
pub open spec fn fs_failure_view(
    run_id: Seq<char>,
    total_ms: u64,
    steps: Seq<(Seq<char>, u64)>,
    failed_step: Seq<char>,
    e: CapError,
    env: EnvView,
) -> ResultView {
    ResultView {
        timing: TimingView { total: total_ms, steps },
        ..err_view(
            "probe"@,
            "filesystem"@,
            run_id,
            total_ms,
            fs_error_code(e),
            "filesystem probe failed at "@ + failed_step + ": "@ + cap_error_text(e),
            env,
        )
    }
}

/// Builds the result of a filesystem probe that failed at `failed_step`.
pub fn probe_fs_err(
    run_id: &str,
    total_ms: u64,
    steps: Vec<StepTiming>,
    failed_step: &str,
    err: CapError,
    env: EnvSummary,
) -> (r: CommandResult)
    ensures
        r@ == fs_failure_view(run_id@, total_ms, steps_view(steps@), failed_step@, err, env@),
{
    let code = match &err {
        CapError::PermissionDenied(_) => ErrorCode::PermissionDenied,
        CapError::Io(_) => ErrorCode::IoError,
        _ => ErrorCode::InternalError,
    };
    let mut text = concat3("filesystem probe failed at ", failed_step, ": ");
    let detail = err.message();
    text.append(detail.as_str());
    let r = result_err("probe", "filesystem", run_id, total_ms, code, text, env);
    with_steps(r, steps)
}

/// The result of a filesystem probe that passed.
pub open spec fn fs_pass_view(
    run_id: Seq<char>,
    total_ms: u64,
    steps: Seq<(Seq<char>, u64)>,
    dir: Seq<char>,
    env: EnvView,
) -> ResultView {
    ResultView {
        timing: TimingView { total: total_ms, steps },
        data: Some(JsonValue::Object(seq![("temp_dir_used"@, JsonValue::String(dir))])),
        ..ok_view("probe"@, "filesystem"@, run_id, total_ms, env)
    }
}

/// The result of a filesystem probe that read back other bytes than it
/// wrote: somebody else changed the file.
pub open spec fn fs_interference_view(run_id: Seq<char>, total_ms: u64, env: EnvView) -> ResultView {
    err_view(
        "probe"@,
        "filesystem"@,
        run_id,
        total_ms,
        ErrorCode::ExternalInterference,
        "read-back data does not match written data"@,
        env,
    )
}

/// The name of the directory that the filesystem probe makes for a run:
/// `engine_probe_` and the first eight characters of the run identifier.
pub open spec fn probe_dir(run_id: Seq<char>) -> Seq<char> {
    "engine_probe_"@ + run_id.take(8)
}

/// The name of the directory that the filesystem probe makes under the
/// temporary directory.
pub fn probe_dir_name(run_id: &str) -> (name: String)
    requires
        run_id@.len() >= 8,
    ensures
        name@ == probe_dir(run_id@),
{
    let head = run_id.substring_char(0, 8);
    assert(head@ =~= run_id@.take(8));
    concat("engine_probe_", head)
}

/// The name of the file that the filesystem probe writes into its
/// directory.
pub open spec fn probe_file() -> Seq<char> {
    "probe_test.txt"@
}

/// The name of the file that the filesystem probe writes and reads back.
pub fn probe_file_name() -> (name: &'static str)
    ensures
        name@ == probe_file(),
{
    "probe_test.txt"
}

/// The bytes that the filesystem probe writes: the UTF-8 bytes of
/// `engine filesystem probe`.
pub open spec fn probe_payload() -> Seq<u8> {
    vstd::utf8::encode_utf8("engine filesystem probe"@)
}

/// The bytes that the filesystem probe writes and expects to read back.
pub fn probe_payload_bytes() -> (bytes: &'static [u8])
    ensures
        bytes@ == probe_payload(),
{
    "engine filesystem probe".as_bytes()
}

/// How far the filesystem probe came with the backend: the step that
/// failed with its error, or the bytes that were read back.
#[derive(Clone, Debug, PartialEq, Eq)]
pub enum FsProbeRun {
    CreateFailed(CapError),
    WriteFailed(CapError),
    ReadFailed(CapError),
    Read(Vec<u8>),
}

/// The steps that were timed when the filesystem probe came as far as
/// `run` says: those completed before a failure, and all four after a read.
pub open spec fn fs_steps_fit(run: FsProbeRun, steps: Seq<(Seq<char>, u64)>) -> bool {
    step_names(steps) == match run {
        FsProbeRun::CreateFailed(_) => Seq::<Seq<char>>::empty(),
        FsProbeRun::WriteFailed(_) => seq!["create_dir"@],
        FsProbeRun::ReadFailed(_) => seq!["create_dir"@, "write_file"@],
        FsProbeRun::Read(_) => seq!["create_dir"@, "write_file"@, "read_verify"@, "cleanup"@],
    }
}

/// The result of the filesystem probe for what the backend answered.
///
/// The probe passes exactly when the bytes read back are the bytes
/// written; other bytes are external interference, which carries no steps.
/// A failed step is reported with the steps completed before it. How the
/// removal of the directory ended has no part in the result.
pub open spec fn fs_probe_view(
    run_id: Seq<char>,
    dir: Seq<char>,
    run: FsProbeRun,
    steps: Seq<(Seq<char>, u64)>,
    total_ms: u64,
    env: EnvView,
) -> ResultView {
    match run {
        FsProbeRun::CreateFailed(e) => fs_failure_view(run_id, total_ms, steps, "create_dir"@, e, env),
        FsProbeRun::WriteFailed(e) => fs_failure_view(run_id, total_ms, steps, "write_file"@, e, env),
        FsProbeRun::ReadFailed(e) => fs_failure_view(run_id, total_ms, steps, "read_file"@, e, env),
        FsProbeRun::Read(data) => if data@ == probe_payload() {
            fs_pass_view(run_id, total_ms, steps, dir, env)
        } else {
            fs_interference_view(run_id, total_ms, env)
        },
    }
}

/// Builds the result of the filesystem probe from what the backend
/// answered. `dir` is the text of the directory that the probe used.
pub fn fs_probe_result(
    run_id: &str,
    dir: &str,
    run: FsProbeRun,
    steps: Vec<StepTiming>,
    total_ms: u64,
    env: EnvSummary,
) -> (r: CommandResult)
    ensures
        r@ == fs_probe_view(run_id@, dir@, run, steps_view(steps@), total_ms, env@),
{
    match run {
        FsProbeRun::CreateFailed(e) => probe_fs_err(run_id, total_ms, steps, "create_dir", e, env),
        FsProbeRun::WriteFailed(e) => probe_fs_err(run_id, total_ms, steps, "write_file", e, env),
        FsProbeRun::ReadFailed(e) => probe_fs_err(run_id, total_ms, steps, "read_file", e, env),
        FsProbeRun::Read(data) => {
            if bytes_eq(data.as_slice(), probe_payload_bytes()) {
                let mut members: Vec<(String, Json)> = Vec::new();
                assert(members_view(members@) =~= Seq::empty());
                push_member(&mut members, "temp_dir_used", Json::String(dir.to_string()));
                let data = object_of(members);
                assert(data@->Object_0 =~= seq![("temp_dir_used"@, JsonValue::String(dir@))]);
                let mut r = result_ok("probe", "filesystem", run_id, total_ms, env);
                r.data = Some(data);
                with_steps(r, steps)
            } else {
                result_err(
                    "probe",
                    "filesystem",
                    run_id,
                    total_ms,
                    ErrorCode::ExternalInterference,
                    "read-back data does not match written data".to_string(),
                    env,
                )
            }
        },
    }
}

/// What the filesystem probe returns on a host: the result for what the
/// backend answered, under a fresh run identifier.
pub open spec fn fs_probe_returns(host: HostView, r: ResultView) -> bool {
    &&& is_run_id(r.run_id)
    &&& exists|run: FsProbeRun, steps: Seq<(Seq<char>, u64)>, total_ms: u64, dir: Seq<char>|
        fs_steps_fit(run, steps) && r == #[trigger] fs_probe_view(r.run_id, dir, run, steps, total_ms, env_of(host))
}

/// The filesystem probe: creates a directory of its own under the temporary
/// directory, writes a file into it, reads the file back and compares, and
/// removes the directory again. The directory is removed after a failed
/// write or read too; that the removal itself fails is not reported.
pub fn probe_filesystem(ctx: &AppContext) -> (r: CommandResult)
    ensures
        fs_probe_returns(ctx.host@, r@),
{
    let run_id = new_run_id();
    let start = Instant::now();
    let env = EnvSummary::of(&ctx.host);
    let mut steps: Vec<StepTiming> = Vec::new();
    assert(steps_view(steps@) =~= Seq::empty());
    assert(step_names(steps_view(steps@)) =~= Seq::<Seq<char>>::empty());

    let dir_name = probe_dir_name(run_id.as_str());
    let base = ctx.fs.temp_dir();
    let tmp_dir = path_join(base.as_path(), dir_name.as_str());
    let dir_text = path_text(tmp_dir.as_path());

    let t0 = Instant::now();
    let run = match ctx.fs.create_dir_all(tmp_dir.as_path()) {
        Err(e) => FsProbeRun::CreateFailed(e),
        Ok(_) => {
            push_step(&mut steps, "create_dir", elapsed_ms(&t0));
            assert(step_names(steps_view(steps@)) =~= seq!["create_dir"@]);
            let test_file = path_join(tmp_dir.as_path(), probe_file_name());
            let t1 = Instant::now();
            match ctx.fs.write_file(test_file.as_path(), probe_payload_bytes()) {
                Err(e) => {
                    let _ = ctx.fs.remove_dir_all(tmp_dir.as_path());
                    FsProbeRun::WriteFailed(e)
                },
                Ok(_) => {
                    let ghost timed = steps_view(steps@);
                    let ms = elapsed_ms(&t1);
                    push_step(&mut steps, "write_file", ms);
                    proof {
                        lemma_step_lists_distinct();
                        assert(step_names(timed).push("write_file"@) =~= seq!["create_dir"@, "write_file"@]);
                        lemma_time_new_step(timed, "write_file"@, ms);
                        assert(step_names(steps_view(steps@)) =~= seq!["create_dir"@, "write_file"@]);
                    }
                    let t2 = Instant::now();
                    match ctx.fs.read_file(test_file.as_path()) {
                        Err(e) => {
                            let _ = ctx.fs.remove_dir_all(tmp_dir.as_path());
                            FsProbeRun::ReadFailed(e)
                        },
                        Ok(data) => {
                            let ghost timed = steps_view(steps@);
                            let ms = elapsed_ms(&t2);
                            push_step(&mut steps, "read_verify", ms);
                            proof {
                                assert(step_names(timed).push("read_verify"@) =~= seq!["create_dir"@, "write_file"@, "read_verify"@]);
                                lemma_time_new_step(timed, "read_verify"@, ms);
                                assert(step_names(steps_view(steps@)) =~= seq!["create_dir"@, "write_file"@, "read_verify"@]);
                            }
                            let t3 = Instant::now();
                            let _ = ctx.fs.remove_dir_all(tmp_dir.as_path());
                            let ghost timed = steps_view(steps@);
                            let ms = elapsed_ms(&t3);
                            push_step(&mut steps, "cleanup", ms);
                            proof {
                                assert(step_names(timed).push("cleanup"@) =~= seq!["create_dir"@, "write_file"@, "read_verify"@, "cleanup"@]);
                                lemma_time_new_step(timed, "cleanup"@, ms);
                                assert(step_names(steps_view(steps@)) =~= seq!["create_dir"@, "write_file"@, "read_verify"@, "cleanup"@]);
                            }
                            FsProbeRun::Read(data)
                        },
                    }
                },
            }
        },
    };
    assert(fs_steps_fit(run, steps_view(steps@)));
    let total_ms = elapsed_ms(&start);
    let ghost timed = steps_view(steps@);
    let r = fs_probe_result(run_id.as_str(), dir_text.as_str(), run, steps, total_ms, env);
    assert(r@ == fs_probe_view(r@.run_id, dir_text@, run, timed, total_ms, env_of(ctx.host@)));
    r
}

/// The host name of a probe target: the target without every leading
/// `https://`, then without every leading `http://`, up to its first `/`.
pub open spec fn dns_host(url: Seq<char>) -> Seq<char> {
    before_char(strip_all(strip_all(url, "https://"@), "http://"@), '/')
}

/// The host name that the network probe resolves for a target.
pub fn dns_host_of(url: &str) -> (host: &str)
    ensures
        host@ == dns_host(url@),
{
    let chars = chars_of(url);
    let https = chars_of("https://");
    let http = chars_of("http://");
    assert(chars@.skip(0) =~= chars@);
    let a = skip_all(&chars, 0, &https);
    let b = skip_all(&chars, a, &http);
    let c = find_char(&chars, b, '/');
    let host = url.substring_char(b, c);
    assert(host@ =~= chars@.skip(b as int).take(c - b));
    host
}

/// The result of a network probe that passed: the addresses, the HTTP status,
/// the proxy variables of the host and the target.
pub open spec fn net_pass_view(
    run_id: Seq<char>,
    total_ms: u64,
    steps: Seq<(Seq<char>, u64)>,
    addrs: Seq<Seq<char>>,
    status: u16,
    url: Seq<char>,
    host: HostView,
) -> ResultView {
    ResultView {
        timing: TimingView { total: total_ms, steps },
        data: Some(
            JsonValue::Object(
                seq![
                    ("dns_addresses"@, text_array(addrs)),
                    ("http_status"@, JsonValue::Number(decimal_text(status as nat))),
                    ("proxy_env"@, text_object(proxy_env(host))),
                    ("target_url"@, JsonValue::String(url)),
                ],
            ),
        ),
        ..ok_view("probe"@, "network"@, run_id, total_ms, env_of(host))
    }
}

/// The result of a network probe that failed.
pub open spec fn net_failure_view(
    run_id: Seq<char>,
    total_ms: u64,
    steps: Seq<(Seq<char>, u64)>,
    code: ErrorCode,
    message: Seq<char>,
    env: EnvView,
) -> ResultView {
    ResultView {
        timing: TimingView { total: total_ms, steps },
        ..err_view("probe"@, "network"@, run_id, total_ms, code, message, env)
    }
}

/// The code of a failed HTTPS request: a timeout is reported as such, every
/// other failure as a network error.
pub open spec fn http_error_code(e: CapError) -> ErrorCode {
    if e is Timeout {
        ErrorCode::Timeout
    } else {
        ErrorCode::NetworkError
    }
}

/// The time that the network probe allows for its request, in
/// milliseconds.
pub const HTTP_TIMEOUT_MS: u64 = 10_000;

/// How far the network probe came with the backend: the resolution failed;
/// or it gave addresses and the request failed; or the request was answered
/// with a status code and the start of a body.
#[derive(Clone, Debug, PartialEq, Eq)]
pub enum NetProbeRun {
    DnsFailed(CapError),
    HttpFailed(Vec<String>, CapError),
    Answered(Vec<String>, u16, String),
}

/// The steps that were timed when the network probe came as far as `run`
/// says: the resolution, and the request where it was made.
pub open spec fn net_steps_fit(run: NetProbeRun, steps: Seq<(Seq<char>, u64)>) -> bool {
    step_names(steps) == match run {
        NetProbeRun::DnsFailed(_) => seq!["dns_resolve"@],
        _ => seq!["dns_resolve"@, "https_get"@],
    }
}

/// The result of the network probe of `url` for what the backend answered.
///
/// An answered request passes, with the addresses, the status code, the
/// proxy variables of the host and the target. A failed resolution is a
/// network error whatever its error was. A failed request is a timeout
/// exactly when its error is one, and a network error otherwise. Each
/// failure carries the text of its error.
pub open spec fn net_probe_view(
    run_id: Seq<char>,
    url: Seq<char>,
    run: NetProbeRun,
    steps: Seq<(Seq<char>, u64)>,
    total_ms: u64,
    host: HostView,
) -> ResultView {
    match run {
        NetProbeRun::DnsFailed(e) => net_failure_view(
            run_id,
            total_ms,
            steps,
            ErrorCode::NetworkError,
            "DNS resolution failed: "@ + cap_error_text(e),
            env_of(host),
        ),
        NetProbeRun::HttpFailed(_, e) => net_failure_view(
            run_id,
            total_ms,
            steps,
            http_error_code(e),
            "HTTPS GET failed: "@ + cap_error_text(e),
            env_of(host),
        ),
        NetProbeRun::Answered(addrs, status, _) => net_pass_view(
            run_id,
            total_ms,
            steps,
            texts_view(addrs@),
            status,
            url,
            host,
        ),
    }
}

/// Builds the result of the network probe of `url` from what the backend
/// answered.
pub fn net_probe_result(
    run_id: &str,
    url: &str,
    run: NetProbeRun,
    steps: Vec<StepTiming>,
    total_ms: u64,
    host: &HostFacts,
) -> (r: CommandResult)
    ensures
        r@ == net_probe_view(run_id@, url@, run, steps_view(steps@), total_ms, host@),
{
    let env = EnvSummary::of(host);
    match run {
        NetProbeRun::DnsFailed(e) => {
            let detail = e.message();
            let text = concat("DNS resolution failed: ", detail.as_str());
            let r = result_err("probe", "network", run_id, total_ms, ErrorCode::NetworkError, text, env);
            with_steps(r, steps)
        },
        NetProbeRun::HttpFailed(_, e) => {
            let code = match &e {
                CapError::Timeout => ErrorCode::Timeout,
                _ => ErrorCode::NetworkError,
            };
            let detail = e.message();
            let text = concat("HTTPS GET failed: ", detail.as_str());
            let r = result_err("probe", "network", run_id, total_ms, code, text, env);
            with_steps(r, steps)
        },
        NetProbeRun::Answered(addrs, status, _) => {
            let proxy_vars = collect_proxy_env(host);
            let mut members: Vec<(String, Json)> = Vec::new();
            assert(members_view(members@) =~= Seq::empty());
            push_member(&mut members, "dns_addresses", array_of_texts(&addrs));
            push_member(&mut members, "http_status", Json::Number(decimal(status as u64)));
            push_member(&mut members, "proxy_env", object_of_texts(&proxy_vars));
            push_member(&mut members, "target_url", Json::String(url.to_string()));
            let data = object_of(members);
            let ghost want = net_pass_view(
                run_id@,
                total_ms,
                steps_view(steps@),
                texts_view(addrs@),
                status,
                url@,
                host@,
            );
            assert(data@->Object_0 =~= want.data->Some_0->Object_0);
            let mut r = result_ok("probe", "network", run_id, total_ms, env);
            r.data = Some(data);
            with_steps(r, steps)
        },
    }
}

/// What the network probe returns for a target on a host: the result for
/// what the backend answered, under a fresh run identifier.
pub open spec fn net_probe_returns(host: HostView, url: Seq<char>, r: ResultView) -> bool {
    &&& is_run_id(r.run_id)
    &&& exists|run: NetProbeRun, steps: Seq<(Seq<char>, u64)>, total_ms: u64|
        net_steps_fit(run, steps) && r == #[trigger] net_probe_view(r.run_id, url, run, steps, total_ms, host)
}

/// The network probe: resolves the host name of the configured target, then
/// requests the target over HTTPS with a timeout of ten seconds. The request
/// is not made where the resolution fails.
pub fn probe_network(ctx: &AppContext) -> (r: CommandResult)
    ensures
        net_probe_returns(ctx.host@, ctx.network_probe_host@, r@),
{
    let run_id = new_run_id();
    let start = Instant::now();
    let mut steps: Vec<StepTiming> = Vec::new();
    assert(steps_view(steps@) =~= Seq::empty());
    let url = ctx.network_probe_host.as_str();
    let name = dns_host_of(url);

    let t0 = Instant::now();
    let run = match ctx.network.dns_resolve(name) {
        Err(e) => {
            push_step(&mut steps, "dns_resolve", elapsed_ms(&t0));
            assert(step_names(steps_view(steps@)) =~= seq!["dns_resolve"@]);
            NetProbeRun::DnsFailed(e)
        },
        Ok(addrs) => {
            push_step(&mut steps, "dns_resolve", elapsed_ms(&t0));
            let t1 = Instant::now();
            let answer = ctx.network.https_get(url, HTTP_TIMEOUT_MS);
            let ghost timed = steps_view(steps@);
            let ms = elapsed_ms(&t1);
            push_step(&mut steps, "https_get", ms);
            proof {
                lemma_step_lists_distinct();
                assert(step_names(timed).push("https_get"@) =~= seq!["dns_resolve"@, "https_get"@]);
                lemma_time_new_step(timed, "https_get"@, ms);
                assert(step_names(steps_view(steps@)) =~= seq!["dns_resolve"@, "https_get"@]);
            }
            match answer {
                Ok((status, snippet)) => NetProbeRun::Answered(addrs, status, snippet),
                Err(e) => NetProbeRun::HttpFailed(addrs, e),
            }
        },
    };
    assert(net_steps_fit(run, steps_view(steps@)));
    let total_ms = elapsed_ms(&start);
    let ghost timed = steps_view(steps@);
    let r = net_probe_result(run_id.as_str(), url, run, steps, total_ms, &ctx.host);
    assert(r@ == net_probe_view(r@.run_id, url@, run, timed, total_ms, ctx.host@));
    r
}

/// The code under which the clipboard probe reports a capability error.
pub open spec fn clipboard_error_code(e: CapError) -> ErrorCode {
    match e {
        CapError::Unsupported(_) => ErrorCode::Unsupported,
        CapError::DependencyMissing(_) => ErrorCode::DependencyMissing,
        CapError::PermissionDenied(_) => ErrorCode::PermissionDenied,
        _ => ErrorCode::InternalError,
    }
}

/// The status of a clipboard probe that met a capability error: a clipboard
/// that is unsupported or whose tools are missing is skipped, every other
/// failure is an error.
pub open spec fn clipboard_error_status(e: CapError) -> Status {
    match e {
        CapError::Unsupported(_) => Status::Skip,
        CapError::DependencyMissing(_) => Status::Skip,
        _ => Status::Error,
    }
}

/// The result of a clipboard probe that met a capability error at a step.
pub open spec fn clipboard_failure_view(
    run_id: Seq<char>,
    total_ms: u64,
    steps: Seq<(Seq<char>, u64)>,
    failed_step: Seq<char>,
    e: CapError,
    env: EnvView,
) -> ResultView {
    ResultView {
        run_id,
        command: "probe"@,
        target: "clipboard"@,
        status: clipboard_error_status(e),
        error: Some(
            ErrorView {
                code: clipboard_error_code(e),
                message: "clipboard probe failed at "@ + failed_step + ": "@ + cap_error_text(e),
                details: JsonValue::Null,
            },
        ),
        timing: TimingView { total: total_ms, steps },
        artifacts: Seq::empty(),
        env,
        data: None,
    }
}

/// Builds the result of a clipboard probe that met a capability error at
/// `failed_step`.
pub fn clipboard_err_result(
    run_id: &str,
    total_ms: u64,
    steps: Vec<StepTiming>,
    failed_step: &str,
    err: &CapError,
    env: EnvSummary,
) -> (r: CommandResult)
    ensures
        r@ == clipboard_failure_view(run_id@, total_ms, steps_view(steps@), failed_step@, *err, env@),
{
    let code = match err {
        CapError::Unsupported(_) => ErrorCode::Unsupported,
        CapError::DependencyMissing(_) => ErrorCode::DependencyMissing,
        CapError::PermissionDenied(_) => ErrorCode::PermissionDenied,
        _ => ErrorCode::InternalError,
    };
    let status = match code {
        ErrorCode::Unsupported => Status::Skip,
        ErrorCode::DependencyMissing => Status::Skip,
        _ => Status::Error,
    };
    let mut text = concat3("clipboard probe failed at ", failed_step, ": ");
    let detail = err.message();
    text.append(detail.as_str());
    let r = CommandResult {
        run_id: run_id.to_string(),
        command: "probe".to_string(),
        target: "clipboard".to_string(),
        status,
        error: Some(ErrorInfo { code, message: text, details: Json::Null }),
        timing_ms: TimingInfo { total: total_ms, steps },
        artifacts: Vec::new(),
        env_summary: env,
        data: None,
    };
    assert(r@.artifacts =~= Seq::empty());
    r
}

/// The result of a clipboard probe on a host without a display.
pub open spec fn clipboard_headless_view(run_id: Seq<char>, total_ms: u64, env: EnvView) -> ResultView {
    skip_view("probe"@, "clipboard"@, run_id, total_ms, "headless environment – no clipboard access"@, env)
}

/// The text that the clipboard probe writes for a run:
/// `engine_clipboard_probe_` and the first eight characters of the run
/// identifier.
pub open spec fn clipboard_marker_text(run_id: Seq<char>) -> Seq<char> {
    "engine_clipboard_probe_"@ + run_id.take(8)
}

/// The text that the clipboard probe writes and expects to read back.
pub fn clipboard_marker(run_id: &str) -> (marker: String)
    requires
        run_id@.len() >= 8,
    ensures
        marker@ == clipboard_marker_text(run_id@),
{
    let head = run_id.substring_char(0, 8);
    assert(head@ =~= run_id@.take(8));
    concat("engine_clipboard_probe_", head)
}

/// How far the clipboard probe came with the backend: the step that failed
/// with its error, or the text that was read back.
#[derive(Clone, Debug, PartialEq, Eq)]
pub enum ClipboardProbeRun {
    WriteFailed(CapError),
    ReadFailed(CapError),
    Read(String),
}

/// The steps that were timed when the clipboard probe came as far as `run`
/// says: the write, and the read where it was made.
pub open spec fn clipboard_steps_fit(run: ClipboardProbeRun, steps: Seq<(Seq<char>, u64)>) -> bool {
    step_names(steps) == match run {
        ClipboardProbeRun::WriteFailed(_) => seq!["write"@],
        _ => seq!["write"@, "read"@],
    }
}

/// The result of the clipboard probe on a host with a display, for the
/// marker that it wrote and what the backend answered.
///
/// The probe passes exactly when the text read back, without the white
/// space around it, is the marker; another text is external interference.
/// A failed step is reported with that step, as a skip where the clipboard
/// is unsupported or its tools are missing.
pub open spec fn clipboard_probe_view(
    run_id: Seq<char>,
    marker: Seq<char>,
    run: ClipboardProbeRun,
    steps: Seq<(Seq<char>, u64)>,
    total_ms: u64,
    env: EnvView,
) -> ResultView {
    match run {
        ClipboardProbeRun::WriteFailed(e) => clipboard_failure_view(run_id, total_ms, steps, "write"@, e, env),
        ClipboardProbeRun::ReadFailed(e) => clipboard_failure_view(run_id, total_ms, steps, "read"@, e, env),
        ClipboardProbeRun::Read(text) => if trimmed(text@) == marker {
            ResultView {
                timing: TimingView { total: total_ms, steps },
                ..ok_view("probe"@, "clipboard"@, run_id, total_ms, env)
            }
        } else {
            ResultView {
                timing: TimingView { total: total_ms, steps },
                ..err_view(
                    "probe"@,
                    "clipboard"@,
                    run_id,
                    total_ms,
                    ErrorCode::ExternalInterference,
                    "clipboard read-back does not match written text"@,
                    env,
                )
            }
        },
    }
}

/// Builds the result of the clipboard probe from the marker that it wrote
/// and what the backend answered.
pub fn clipboard_probe_result(
    run_id: &str,
    marker: &str,
    run: ClipboardProbeRun,
    steps: Vec<StepTiming>,
    total_ms: u64,
    env: EnvSummary,
) -> (r: CommandResult)
    ensures
        r@ == clipboard_probe_view(run_id@, marker@, run, steps_view(steps@), total_ms, env@),
{
    match run {
        ClipboardProbeRun::WriteFailed(e) => clipboard_err_result(run_id, total_ms, steps, "write", &e, env),
        ClipboardProbeRun::ReadFailed(e) => clipboard_err_result(run_id, total_ms, steps, "read", &e, env),
        ClipboardProbeRun::Read(text) => {
            if str_eq(trim(text.as_str()), marker) {
                let r = result_ok("probe", "clipboard", run_id, total_ms, env);
                with_steps(r, steps)
            } else {
                let r = result_err(
                    "probe",
                    "clipboard",
                    run_id,
                    total_ms,
                    ErrorCode::ExternalInterference,
                    "clipboard read-back does not match written text".to_string(),
                    env,
                );
                with_steps(r, steps)
            }
        },
    }
}

/// What the clipboard probe returns on a host.
///
/// On a host without a display it is skipped at once. Otherwise it returns
/// the result for the marker of its run and what the backend answered.
pub open spec fn clipboard_probe_returns(host: HostView, r: ResultView) -> bool {
    &&& is_run_id(r.run_id)
    &&& if headless(host) {
        exists|total_ms: u64| r == #[trigger] clipboard_headless_view(r.run_id, total_ms, env_of(host))
    } else {
        exists|run: ClipboardProbeRun, steps: Seq<(Seq<char>, u64)>, total_ms: u64|
            clipboard_steps_fit(run, steps) && r == #[trigger] clipboard_probe_view(
                r.run_id,
                clipboard_marker_text(r.run_id),
                run,
                steps,
                total_ms,
                env_of(host),
            )
    }
}

/// The clipboard probe: writes a marker of its own to the clipboard and
/// reads it back. On a host without a display the clipboard is not touched.
/// The read is not made where the write fails.
pub fn probe_clipboard(ctx: &AppContext) -> (r: CommandResult)
    ensures
        clipboard_probe_returns(ctx.host@, r@),
        ctx.clipboard is Headless ==> r@.status == Status::Skip && r@.error is Some && r@.error->Some_0.code
            == ErrorCode::Unsupported,
{
    let run_id = new_run_id();
    let start = Instant::now();
    let env = EnvSummary::of(&ctx.host);
    if detect_headless(&ctx.host) {
        let total_ms = elapsed_ms(&start);
        let r = result_skip(
            "probe",
            "clipboard",
            run_id.as_str(),
            total_ms,
            "headless environment – no clipboard access".to_string(),
            env,
        );
        assert(r@ == clipboard_headless_view(r@.run_id, total_ms, env_of(ctx.host@)));
        return r;
    }
    let mut steps: Vec<StepTiming> = Vec::new();
    assert(steps_view(steps@) =~= Seq::empty());
    let marker = clipboard_marker(run_id.as_str());

    let t0 = Instant::now();
    let written = ctx.clipboard.write_text(marker.as_str());
    push_step(&mut steps, "write", elapsed_ms(&t0));
    assert(step_names(steps_view(steps@)) =~= seq!["write"@]);
    let run = match written {
        Err(e) => ClipboardProbeRun::WriteFailed(e),
        Ok(_) => {
            let t1 = Instant::now();
            let read = ctx.clipboard.read_text();
            let ghost timed = steps_view(steps@);
            let ms = elapsed_ms(&t1);
            push_step(&mut steps, "read", ms);
            proof {
                lemma_step_lists_distinct();
                assert(step_names(timed).push("read"@) =~= seq!["write"@, "read"@]);
                lemma_time_new_step(timed, "read"@, ms);
                assert(step_names(steps_view(steps@)) =~= seq!["write"@, "read"@]);
            }
            match read {
                Ok(text) => ClipboardProbeRun::Read(text),
                Err(e) => ClipboardProbeRun::ReadFailed(e),
            }
        },
    };
    assert(clipboard_steps_fit(run, steps_view(steps@)));
    let total_ms = elapsed_ms(&start);
    let ghost timed = steps_view(steps@);
    let r = clipboard_probe_result(run_id.as_str(), marker.as_str(), run, steps, total_ms, env);
    assert(r@ == clipboard_probe_view(
        r@.run_id,
        clipboard_marker_text(r@.run_id),
        run,
        timed,
        total_ms,
        env_of(ctx.host@),
    ));
    r
}

/// What `run_probe` returns for a probe name on a host, with the network
/// probe aimed at `url`: the result of the probe of that name, or an
/// invalid-input error that lists the probes there are.
pub open spec fn probed(name: Seq<char>, host: HostView, url: Seq<char>, r: ResultView) -> bool {
    if name == "filesystem"@ {
        fs_probe_returns(host, r)
    } else if name == "network"@ {
        net_probe_returns(host, url, r)
    } else if name == "clipboard"@ {
        clipboard_probe_returns(host, r)
    } else {
        &&& is_run_id(r.run_id)
        &&& r == err_view(
            "probe"@,
            name,
            r.run_id,
            0,
            ErrorCode::InvalidInput,
            "unknown probe: "@ + name + " (available: filesystem, network, clipboard)"@,
            env_of(host),
        )
    }
}

/// Runs the probe of the given name and returns its full result.
pub fn run_probe(name: &str, ctx: &AppContext) -> (r: CommandResult)
    ensures
        probed(name@, ctx.host@, ctx.network_probe_host@, r@),
{
    if str_eq(name, "filesystem") {
        probe_filesystem(ctx)
    } else if str_eq(name, "network") {
        probe_network(ctx)
    } else if str_eq(name, "clipboard") {
        probe_clipboard(ctx)
    } else {
        let run_id = new_run_id();
        let env = EnvSummary::of(&ctx.host);
        let text = concat3("unknown probe: ", name, " (available: filesystem, network, clipboard)");
        result_err("probe", name, run_id.as_str(), 0, ErrorCode::InvalidInput, text, env)
    }
}

/// On a host without a display the clipboard probe is skipped as
/// unsupported, with no step taken.
pub proof fn lemma_headless_clipboard_is_skipped(host: HostView, r: ResultView)
    requires
        clipboard_probe_returns(host, r),
        headless(host),
    ensures
        r.status == Status::Skip,
        r.error is Some,
        r.error->Some_0.code == ErrorCode::Unsupported,
        r.timing.steps.len() == 0,
        r.data is None,
{
}

/// A filesystem probe that passes has taken its four steps and names the
/// directory it used.
pub proof fn lemma_fs_probe_pass(host: HostView, r: ResultView)
    requires
        fs_probe_returns(host, r),
        r.status == Status::Pass,
    ensures
        step_names(r.timing.steps) == seq!["create_dir"@, "write_file"@, "read_verify"@, "cleanup"@],
        r.error is None,
        r.data is Some,
        r.data->Some_0.text_member("temp_dir_used"@) is Some,
{
    let (run, steps, total_ms, dir) = choose|
        run: FsProbeRun,
        steps: Seq<(Seq<char>, u64)>,
        total_ms: u64,
        dir: Seq<char>,
    | fs_steps_fit(run, steps) && r == #[trigger] fs_probe_view(r.run_id, dir, run, steps, total_ms, env_of(host));
    let members = seq![("temp_dir_used"@, JsonValue::String(dir))];
    assert(members[0].0 == "temp_dir_used"@);
}

/// What the filesystem probe makes of a read: a pass exactly when the
/// bytes are those it wrote, and external interference otherwise, however
/// the removal of its directory ended.
pub proof fn lemma_fs_probe_read(
    run_id: Seq<char>,
    dir: Seq<char>,
    data: Vec<u8>,
    steps: Seq<(Seq<char>, u64)>,
    total_ms: u64,
    env: EnvView,
)
    ensures
        ({
            let r = fs_probe_view(run_id, dir, FsProbeRun::Read(data), steps, total_ms, env);
            &&& data@ == probe_payload() ==> r.status == Status::Pass && r.error is None
            &&& data@ != probe_payload() ==> r.status == Status::Error && r.data is None && r.error is Some
                && r.error->Some_0.code == ErrorCode::ExternalInterference
            &&& r.command == "probe"@ && r.target == "filesystem"@
        }),
{
}

/// What the network probe makes of a failure: a failed resolution is a
/// network error; a failed request is a timeout exactly when its error is
/// one. Neither carries a payload.
pub proof fn lemma_net_probe_failures(
    run_id: Seq<char>,
    url: Seq<char>,
    addrs: Vec<String>,
    e: CapError,
    steps: Seq<(Seq<char>, u64)>,
    total_ms: u64,
    host: HostView,
)
    ensures
        ({
            let dns = net_probe_view(run_id, url, NetProbeRun::DnsFailed(e), steps, total_ms, host);
            let http = net_probe_view(run_id, url, NetProbeRun::HttpFailed(addrs, e), steps, total_ms, host);
            &&& dns.status == Status::Error && dns.data is None
            &&& dns.error->Some_0.code == ErrorCode::NetworkError
            &&& dns.error->Some_0.message == "DNS resolution failed: "@ + cap_error_text(e)
            &&& http.status == Status::Error && http.data is None
            &&& http.error->Some_0.code == ErrorCode::Timeout <==> e is Timeout
            &&& !(e is Timeout) ==> http.error->Some_0.code == ErrorCode::NetworkError
            &&& http.error->Some_0.message == "HTTPS GET failed: "@ + cap_error_text(e)
        }),
{
}

/// What the network probe makes of an answered request: a pass without an
/// error, whatever the status code is.
pub proof fn lemma_net_probe_answered(
    run_id: Seq<char>,
    url: Seq<char>,
    addrs: Vec<String>,
    status: u16,
    snippet: String,
    steps: Seq<(Seq<char>, u64)>,
    total_ms: u64,
    host: HostView,
)
    ensures
        ({
            let r = net_probe_view(run_id, url, NetProbeRun::Answered(addrs, status, snippet), steps, total_ms, host);
            &&& r.status == Status::Pass && r.error is None
            &&& r == net_pass_view(run_id, total_ms, steps, texts_view(addrs@), status, url, host)
            &&& r.command == "probe"@ && r.target == "network"@
        }),
{
}

/// What the clipboard probe makes of a read: a pass exactly when the text
/// without the white space around it is the marker, and external
/// interference otherwise.
pub proof fn lemma_clipboard_probe_read(
    run_id: Seq<char>,
    marker: Seq<char>,
    text: String,
    steps: Seq<(Seq<char>, u64)>,
    total_ms: u64,
    env: EnvView,
)
    ensures
        ({
            let r = clipboard_probe_view(run_id, marker, ClipboardProbeRun::Read(text), steps, total_ms, env);
            &&& trimmed(text@) == marker ==> r.status == Status::Pass && r.error is None
            &&& trimmed(text@) != marker ==> r.status == Status::Error && r.error is Some
                && r.error->Some_0.code == ErrorCode::ExternalInterference
            &&& r.data is None
        }),
{
}

/// The clipboard probe passes when it reads its marker back with white
/// space after it, such as a line end.
pub proof fn lemma_marker_with_space_passes(
    run_id: Seq<char>,
    space: char,
    text: String,
    steps: Seq<(Seq<char>, u64)>,
    total_ms: u64,
    env: EnvView,
)
    requires
        is_run_id(run_id),
        crate::text::is_white_space(space),
        text@ == clipboard_marker_text(run_id) || text@ == clipboard_marker_text(run_id).push(space),
    ensures
        clipboard_probe_view(
            run_id,
            clipboard_marker_text(run_id),
            ClipboardProbeRun::Read(text),
            steps,
            total_ms,
            env,
        ).status == Status::Pass,
{
    let marker = clipboard_marker_text(run_id);
    reveal_strlit("engine_clipboard_probe_");
    let head = run_id.take(8);
    assert(marker[0] == 'e');
    assert(marker.last() == head[7]);
    assert(head[7] == run_id[7]);
    assert(crate::types::is_lower_hex(run_id[7]));
    crate::text::lemma_trimmed_keeps(marker, space);
}

/// A probe passes, is skipped or is an error; it never fails, and a pass
/// carries no error. Its result says which probe it was.
pub proof fn lemma_probe_never_fails(name: Seq<char>, host: HostView, url: Seq<char>, r: ResultView)
    requires
        probed(name, host, url, r),
    ensures
        r.status != Status::Fail,
        r.status == Status::Pass ==> r.error is None,
        r.status != Status::Pass ==> r.error is Some,
        r.command == "probe"@,
        r.target == name,
        is_run_id(r.run_id),
        r.env == env_of(host),
{
}

/// Distinct names.
pub open spec fn distinct_names(names: Seq<Seq<char>>) -> bool {
    forall|i: int, j: int| 0 <= i < j < names.len() ==> names[i] != names[j]
}

proof fn lemma_steps_with_distinct_names(steps: Seq<(Seq<char>, u64)>, names: Seq<Seq<char>>)
    requires
        step_names(steps) == names,
        distinct_names(names),
    ensures
        crate::types::distinct_steps(steps),
{
    assert forall|i: int, j: int| 0 <= i < j < steps.len() implies steps[i].0 != steps[j].0 by {
        assert(names[i] == steps[i].0);
        assert(names[j] == steps[j].0);
    }
}

proof fn lemma_time_new_step(steps: Seq<(Seq<char>, u64)>, name: Seq<char>, ms: u64)
    requires
        distinct_names(step_names(steps).push(name)),
    ensures
        step_names(crate::types::put_step(steps, name, ms)) == step_names(steps).push(name),
{
    let names = step_names(steps).push(name);
    assert forall|i: int| 0 <= i < steps.len() implies (#[trigger] steps[i]).0 != name by {
        assert(names[i] == steps[i].0);
        assert(names[steps.len() as int] == name);
    }
    assert(!crate::types::has_step(steps, name));
    crate::types::lemma_put_new_step(steps, name, ms);
    assert(step_names(steps.push((name, ms))) =~= names);
}

proof fn lemma_step_lists_distinct()
    ensures
        distinct_names(seq!["create_dir"@, "write_file"@, "read_verify"@, "cleanup"@]),
        distinct_names(seq!["create_dir"@, "write_file"@]),
        distinct_names(seq!["create_dir"@, "write_file"@, "read_verify"@]),
        distinct_names(seq!["create_dir"@]),
        distinct_names(seq!["dns_resolve"@, "https_get"@]),
        distinct_names(seq!["dns_resolve"@]),
        distinct_names(seq!["write"@, "read"@]),
        distinct_names(seq!["write"@]),
        distinct_names(Seq::<Seq<char>>::empty()),
{
    reveal_strlit("create_dir");
    reveal_strlit("write_file");
    reveal_strlit("read_verify");
    reveal_strlit("cleanup");
    reveal_strlit("dns_resolve");
    reveal_strlit("https_get");
    reveal_strlit("write");
    reveal_strlit("read");
    assert("create_dir"@[0] != "write_file"@[0]);
    assert("create_dir"@ != "write_file"@);
    assert("create_dir"@.len() == 10 && "write_file"@.len() == 10);
    assert("read_verify"@.len() == 11 && "cleanup"@.len() == 7);
    assert("dns_resolve"@.len() == 11 && "https_get"@.len() == 9);
    assert("write"@.len() == 5 && "read"@.len() == 4);
}

/// No step of a probe is timed twice: the step names of a result are
/// distinct.
pub proof fn lemma_probe_steps_distinct(name: Seq<char>, host: HostView, url: Seq<char>, r: ResultView)
    requires
        probed(name, host, url, r),
    ensures
        r.timing.distinct(),
{
    lemma_step_lists_distinct();
    let steps = r.timing.steps;
    if name == "filesystem"@ {
        let (run, s, total_ms, dir) = choose|
            run: FsProbeRun,
            s: Seq<(Seq<char>, u64)>,
            total_ms: u64,
            dir: Seq<char>,
        | fs_steps_fit(run, s) && r == #[trigger] fs_probe_view(r.run_id, dir, run, s, total_ms, env_of(host));
        if steps.len() > 0 {
            assert(steps == s);
            lemma_steps_with_distinct_names(s, step_names(s));
        }
    } else if name == "network"@ {
        let (run, s, total_ms) = choose|run: NetProbeRun, s: Seq<(Seq<char>, u64)>, total_ms: u64|
            net_steps_fit(run, s) && r == #[trigger] net_probe_view(r.run_id, url, run, s, total_ms, host);
        assert(steps == s);
        lemma_steps_with_distinct_names(s, step_names(s));
    } else if name == "clipboard"@ {
        if !headless(host) {
            let (run, s, total_ms) = choose|run: ClipboardProbeRun, s: Seq<(Seq<char>, u64)>, total_ms: u64|
                clipboard_steps_fit(run, s) && r == #[trigger] clipboard_probe_view(
                    r.run_id,
                    clipboard_marker_text(r.run_id),
                    run,
                    s,
                    total_ms,
                    env_of(host),
                );
            assert(steps == s);
            lemma_steps_with_distinct_names(s, step_names(s));
        }
    }
}

} // verus!
