use engine::cli::{
    cmd_call, cmd_emit, cmd_run_scenario, exit_code, human_env_line, human_head, scenario_exit_code, scenario_lines,
    unreadable_scenario,
};
use engine::commands::CommandRegistry;
use engine::context::AppContext;
use engine::host::HostFacts;
use engine::json::Json;
use engine::traits::{CapError, CapResult, FilesystemOps, NetworkOps};
use engine::types::{
    result_err, result_ok, result_skip, with_steps, CommandResult, DaemonResponse, EnvSummary, ErrorCode, ErrorInfo,
    ScenarioResult, Status, StepTiming, TimingInfo,
};
use std::path::{Path, PathBuf};

struct NoFiles;

impl FilesystemOps for NoFiles {
    fn read_file(&self, _path: &Path) -> CapResult<Vec<u8>> {
        Err(CapError::Io("not found".to_string()))
    }

    fn write_file(&self, _path: &Path, _data: &[u8]) -> CapResult<()> {
        Ok(())
    }

    fn remove_file(&self, _path: &Path) -> CapResult<()> {
        Ok(())
    }

    fn create_dir_all(&self, _path: &Path) -> CapResult<()> {
        Ok(())
    }

    fn remove_dir_all(&self, _path: &Path) -> CapResult<()> {
        Ok(())
    }

    fn path_exists(&self, _path: &Path) -> bool {
        false
    }

    fn temp_dir(&self) -> PathBuf {
        PathBuf::from("/tmp")
    }
}

struct NoNetwork;

impl NetworkOps for NoNetwork {
    fn dns_resolve(&self, _host: &str) -> CapResult<Vec<String>> {
        Err(CapError::Network("down".to_string()))
    }

    fn https_get(&self, _url: &str, _timeout_ms: u64) -> CapResult<(u16, String)> {
        Err(CapError::Timeout)
    }
}

fn host(env: Vec<(&str, &str)>) -> HostFacts {
    HostFacts {
        os: "linux".to_string(),
        arch: "x86_64".to_string(),
        unix: true,
        env: env.into_iter().map(|(k, v)| (k.to_string(), v.to_string())).collect(),
        os_release: None,
        product_version: None,
        kernel_release: None,
        user_id_text: None,
    }
}

fn context() -> AppContext {
    AppContext::default_headless(Box::new(NoFiles), Box::new(NoNetwork), host(vec![]))
}

fn env() -> EnvSummary {
    EnvSummary { os: "linux".into(), arch: "x86_64".into(), headless: true }
}

#[test]
fn exit_codes_follow_the_status() {
    assert_eq!(exit_code(Status::Pass), 0);
    assert_eq!(exit_code(Status::Skip), 0);
    assert_eq!(exit_code(Status::Fail), 1);
    assert_eq!(exit_code(Status::Error), 2);
}

#[test]
fn a_call_reads_its_arguments_as_json() {
    let reg = CommandRegistry::new();
    let ok = cmd_call("ping", "{}", &context(), &reg).unwrap();
    assert_eq!(ok.status, Status::Pass);
    let bad = cmd_call("ping", "{oops", &context(), &reg).unwrap_err();
    assert_eq!(bad.status, Status::Error);
    assert_eq!(bad.command, "call");
    assert_eq!(bad.target, "ping");
    assert_eq!(bad.timing_ms.total, 0);
    assert_eq!(bad.run_id.len(), 36);
    let e = bad.error.unwrap();
    assert_eq!(e.code, ErrorCode::InvalidInput);
    assert!(e.message.starts_with("invalid JSON args: "), "{}", e.message);
    let read = cmd_call("read_file", r#"{"path": "/x"}"#, &context(), &reg).unwrap();
    assert_eq!(read.error.unwrap().code, ErrorCode::IoError);
    let unknown = cmd_call("nonexistent", "{}", &context(), &reg).unwrap();
    assert_eq!(unknown.status, Status::Error);
}

#[test]
fn events_are_skipped_as_long_as_they_are_not_delivered() {
    let headless = cmd_emit("tray-click", &host(vec![]));
    assert_eq!(headless.status, Status::Skip);
    assert_eq!(headless.command, "emit");
    assert_eq!(headless.target, "tray-click");
    assert_eq!(headless.timing_ms, TimingInfo { total: 0, steps: vec![] });
    assert!(headless.data.is_none());
    assert_eq!(
        headless.error,
        Some(ErrorInfo {
            code: ErrorCode::Unsupported,
            message: "event 'tray-click' unsupported in headless environment".into(),
            details: Json::Null
        })
    );
    let desktop = cmd_emit("deep-link", &host(vec![("DISPLAY", ":0")]));
    assert_eq!(desktop.status, Status::Skip);
    assert_eq!(
        desktop.error,
        Some(ErrorInfo {
            code: ErrorCode::Unimplemented,
            message: "event 'deep-link' is not yet implemented (skeleton)".into(),
            details: Json::Null
        })
    );
    assert!(!desktop.env_summary.headless);
}

#[test]
fn a_script_is_loaded_and_run() {
    let reg = CommandRegistry::new();
    let out = cmd_run_scenario("s.yaml", "name: n\nsteps:\n  - call: ping\n", &context(), &reg).unwrap();
    assert_eq!(out.overall_status, Status::Pass);
    assert_eq!(out.name, Some("n".to_string()));
    assert_eq!(out.step_results.len(), 1);
    let refused = cmd_run_scenario("dir/s.yaml", "steps: 3\n", &context(), &reg).unwrap_err();
    assert_eq!(refused.status, Status::Error);
    assert_eq!(refused.command, "run-scenario");
    assert_eq!(refused.target, "dir/s.yaml");
    assert_eq!(refused.timing_ms.total, 0);
    let e = refused.error.unwrap();
    assert_eq!(e.code, ErrorCode::InvalidInput);
    assert_eq!(e.message, "failed to parse scenario YAML: 'steps' must be a list");
    let unreadable = unreadable_scenario("gone.yaml", "No such file or directory (os error 2)", &host(vec![]));
    assert_eq!(unreadable.status, Status::Error);
    assert_eq!(unreadable.command, "run-scenario");
    assert_eq!(unreadable.target, "gone.yaml");
    let e = unreadable.error.unwrap();
    assert_eq!(e.code, ErrorCode::IoError);
    assert_eq!(e.message, "cannot read scenario file: No such file or directory (os error 2)");
}

#[test]
fn result_builders_fill_every_field() {
    let ok = result_ok("call", "ping", "id", 12, env());
    assert_eq!(
        ok,
        CommandResult {
            run_id: "id".into(),
            command: "call".into(),
            target: "ping".into(),
            status: Status::Pass,
            error: None,
            timing_ms: TimingInfo { total: 12, steps: vec![] },
            artifacts: vec![],
            env_summary: env(),
            data: None,
        }
    );
    let err = result_err("probe", "network", "id", 3, ErrorCode::Timeout, "slow".into(), env());
    assert_eq!(err.status, Status::Error);
    assert_eq!(err.error, Some(ErrorInfo { code: ErrorCode::Timeout, message: "slow".into(), details: Json::Null }));
    assert!(err.data.is_none());
    let skip = result_skip("probe", "clipboard", "id", 0, "no display".into(), env());
    assert_eq!(skip.status, Status::Skip);
    assert_eq!(
        skip.error,
        Some(ErrorInfo { code: ErrorCode::Unsupported, message: "no display".into(), details: Json::Null })
    );
    let mut timing = TimingInfo::new(5);
    timing.record("a", 7);
    timing.record("b", 2);
    timing.record("a", 1);
    assert_eq!(
        timing,
        TimingInfo {
            total: 5,
            steps: vec![StepTiming { name: "a".into(), ms: 1 }, StepTiming { name: "b".into(), ms: 2 }]
        }
    );
    let stepped = with_steps(ok, timing.steps.clone());
    assert_eq!(stepped.timing_ms, TimingInfo { total: 12, steps: timing.steps });
}

#[test]
fn a_result_reads_well_to_a_person() {
    let r = with_steps(
        result_err("probe", "filesystem", "abc", 17, ErrorCode::IoError, "disk full".into(), env()),
        vec![StepTiming { name: "create_dir".into(), ms: 4 }, StepTiming { name: "write_file".into(), ms: 13 }],
    );
    assert_eq!(
        human_head(&r),
        vec![
            "[ERROR] probe filesystem",
            "  run_id: abc",
            "  timing: 17ms",
            "    create_dir: 4ms",
            "    write_file: 13ms",
            "  error:  IO_ERROR – disk full",
        ]
    );
    assert_eq!(human_env_line(&r), "  env: os=linux arch=x86_64 headless=true");
    let ok = result_ok("call", "ping", "id", 0, EnvSummary { os: "macos".into(), arch: "aarch64".into(), headless: false });
    assert_eq!(human_head(&ok), vec!["[PASS] call ping", "  run_id: id", "  timing: 0ms"]);
    assert_eq!(human_env_line(&ok), "  env: os=macos arch=aarch64 headless=false");
    let skip = result_skip("emit", "x", "id", 1, "why".into(), env());
    assert_eq!(human_head(&skip)[0], "[SKIP] emit x");
    assert_eq!(human_head(&skip)[3], "  error:  UNSUPPORTED – why");
}

#[test]
fn a_scenario_reads_well_to_a_person() {
    let s = ScenarioResult {
        name: None,
        overall_status: Status::Fail,
        step_results: vec![
            result_ok("call", "ping", "a", 3, env()),
            result_err("probe", "network", "b", 250, ErrorCode::Timeout, "slow".into(), env()),
        ],
    };
    assert_eq!(
        scenario_lines(&s),
        vec!["Scenario: <unnamed>", "Overall: Fail", "  Step 0: ping -> Pass (3ms)", "  Step 1: network -> Error (250ms)"]
    );
    let named = ScenarioResult { name: Some("smoke".into()), overall_status: Status::Pass, step_results: vec![] };
    assert_eq!(scenario_lines(&named), vec!["Scenario: smoke", "Overall: Pass"]);
}

fn member_names(j: &Json) -> Vec<String> {
    match j {
        Json::Object(members) => members.iter().map(|(k, _)| k.clone()).collect(),
        other => panic!("not an object: {:?}", other),
    }
}

#[test]
fn a_result_is_written_with_its_optional_members_left_out() {
    let ok = result_ok("call", "ping", "id", 12, env());
    let doc = ok.to_json();
    assert_eq!(member_names(&doc), vec!["run_id", "command", "target", "status", "timing_ms", "artifacts", "env_summary"]);
    assert_eq!(doc.get("status"), Some(&Json::String("pass".into())));
    assert_eq!(doc.get("timing_ms"), Some(&Json::Object(vec![("total".to_string(), Json::Number("12".into()))])));
    assert_eq!(doc.get("artifacts"), Some(&Json::Array(vec![])));
    assert_eq!(
        doc.get("env_summary"),
        Some(&Json::Object(vec![
            ("os".to_string(), Json::String("linux".into())),
            ("arch".to_string(), Json::String("x86_64".into())),
            ("headless".to_string(), Json::Bool(true)),
        ]))
    );

    let mut full = with_steps(
        result_err("probe", "network", "id", 9, ErrorCode::NetworkError, "down".into(), env()),
        vec![StepTiming { name: "dns_resolve".into(), ms: 9 }],
    );
    full.data = Some(Json::Bool(false));
    full.artifacts = vec!["a.txt".to_string()];
    let doc = full.to_json();
    assert_eq!(
        member_names(&doc),
        vec!["run_id", "command", "target", "status", "error", "timing_ms", "artifacts", "env_summary", "data"]
    );
    assert_eq!(doc.get("status"), Some(&Json::String("error".into())));
    assert_eq!(
        doc.get("error"),
        Some(&Json::Object(vec![
            ("code".to_string(), Json::String("NETWORK_ERROR".into())),
            ("message".to_string(), Json::String("down".into())),
        ]))
    );
    assert_eq!(
        doc.get("timing_ms"),
        Some(&Json::Object(vec![
            ("total".to_string(), Json::Number("9".into())),
            ("steps".to_string(), Json::Object(vec![("dns_resolve".to_string(), Json::Number("9".into()))])),
        ]))
    );
    assert_eq!(doc.get("artifacts"), Some(&Json::Array(vec![Json::String("a.txt".into())])));
    assert_eq!(doc.get("data"), Some(&Json::Bool(false)));
}

#[test]
fn error_details_are_written_unless_null() {
    let plain = ErrorInfo { code: ErrorCode::ExternalInterference, message: "m".into(), details: Json::Null };
    assert_eq!(member_names(&plain.to_json()), vec!["code", "message"]);
    assert_eq!(plain.to_json().get("code"), Some(&Json::String("EXTERNAL_INTERFERENCE".into())));
    let detailed = ErrorInfo { code: ErrorCode::InternalError, message: "m".into(), details: Json::Bool(true) };
    assert_eq!(member_names(&detailed.to_json()), vec!["code", "message", "details"]);
    assert_eq!(detailed.to_json().get("details"), Some(&Json::Bool(true)));
}

#[test]
fn scenario_results_and_responses_are_written() {
    let s = ScenarioResult {
        name: None,
        overall_status: Status::Fail,
        step_results: vec![result_ok("call", "ping", "a", 3, env())],
    };
    let doc = s.to_json();
    assert_eq!(member_names(&doc), vec!["name", "overall_status", "step_results"]);
    assert_eq!(doc.get("name"), Some(&Json::Null));
    assert_eq!(doc.get("overall_status"), Some(&Json::String("fail".into())));
    assert_eq!(doc.get("step_results"), Some(&Json::Array(vec![s.step_results[0].to_json()])));

    let answered = DaemonResponse { id: "1".into(), result: Some(result_ok("doctor", "env", "r", 0, env())), error: None };
    assert_eq!(member_names(&answered.to_json()), vec!["id", "result"]);
    assert_eq!(answered.to_json().get("id"), Some(&Json::String("1".into())));
    let refused = DaemonResponse {
        id: "unknown".into(),
        result: None,
        error: Some(ErrorInfo { code: ErrorCode::InvalidInput, message: "bad".into(), details: Json::Null }),
    };
    assert_eq!(member_names(&refused.to_json()), vec!["id", "error"]);
}

#[test]
fn a_step_that_is_timed_again_keeps_its_place() {
    let mut steps = vec![];
    engine::types::push_step(&mut steps, "write", 3);
    engine::types::push_step(&mut steps, "read", 4);
    engine::types::push_step(&mut steps, "write", 9);
    engine::types::push_step(&mut steps, "sync", 1);
    engine::types::push_step(&mut steps, "sync", 2);
    assert_eq!(
        steps,
        vec![
            StepTiming { name: "write".into(), ms: 9 },
            StepTiming { name: "read".into(), ms: 4 },
            StepTiming { name: "sync".into(), ms: 2 },
        ]
    );
    assert_eq!(TimingInfo::default(), TimingInfo { total: 0, steps: vec![] });
}

#[test]
fn the_exit_code_after_a_scenario_follows_its_status() {
    let reg = CommandRegistry::new();
    let passed = cmd_run_scenario("s.yaml", "steps:\n  - call: ping\n", &context(), &reg);
    assert_eq!(scenario_exit_code(&passed), 0);
    let failed = cmd_run_scenario("s.yaml", "steps:\n  - call: ping\n    expect_status: fail\n", &context(), &reg);
    assert_eq!(failed.as_ref().unwrap().overall_status, Status::Fail);
    assert_eq!(scenario_exit_code(&failed), 1);
    let errored = cmd_run_scenario("s.yaml", "steps:\n  - probe: network\n", &context(), &reg);
    assert_eq!(scenario_exit_code(&errored), 1);
    let refused = cmd_run_scenario("s.yaml", "steps: 3\n", &context(), &reg);
    assert_eq!(scenario_exit_code(&refused), 2);
    assert_eq!(scenario_exit_code(&Err(unreadable_scenario("s.yaml", "gone", &host(vec![])))), 2);
    let empty = cmd_run_scenario("s.yaml", "steps: []\n", &context(), &reg);
    assert_eq!(scenario_exit_code(&empty), 0);
}
