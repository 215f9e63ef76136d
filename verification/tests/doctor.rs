use engine::doctor::{
    display_server, gather_report, get_euid, get_uid, is_admin, kernel_version, libc_free_geteuid, libc_free_getuid,
    os_version, pretty_name_of, run_doctor, session_type,
};
use engine::host::{collect_proxy_env, current_os, detect_headless, HostFacts};
use engine::json::Json;
use engine::types::{DoctorReport, EnvSummary, Status};

fn host(os: &str, env: Vec<(&str, &str)>) -> HostFacts {
    HostFacts {
        os: os.to_string(),
        arch: "x86_64".to_string(),
        unix: true,
        env: env.into_iter().map(|(k, v)| (k.to_string(), v.to_string())).collect(),
        os_release: None,
        product_version: None,
        kernel_release: None,
        user_id_text: None,
    }
}

#[test]
fn headless_detection_follows_the_platform() {
    assert!(detect_headless(&host("linux", vec![])));
    assert!(!detect_headless(&host("linux", vec![("DISPLAY", ":0")])));
    assert!(!detect_headless(&host("linux", vec![("WAYLAND_DISPLAY", "wayland-0")])));
    assert!(detect_headless(&host("linux", vec![("SSH_TTY", "/dev/pts/0")])));
    assert!(!detect_headless(&host("macos", vec![])));
    assert!(detect_headless(&host("macos", vec![("SSH_TTY", "/dev/ttys000")])));
    assert!(!detect_headless(&host("macos", vec![("SSH_TTY", "/dev/ttys000"), ("DISPLAY", ":0")])));
    assert!(!detect_headless(&host("windows", vec![])));
    assert!(!detect_headless(&host("freebsd", vec![("SSH_TTY", "x")])));
}

#[test]
fn variables_are_found_by_name() {
    let h = host("linux", vec![("A", "1"), ("B", "2"), ("A", "3"), ("", "empty")]);
    assert_eq!(h.var("A"), Some("1"));
    assert_eq!(h.var("B"), Some("2"));
    assert_eq!(h.var(""), Some("empty"));
    assert_eq!(h.var("C"), None);
    assert_eq!(h.var("a"), None);
    assert_eq!(current_os(&h), "linux");
    assert_eq!(EnvSummary::of(&h), EnvSummary { os: "linux".into(), arch: "x86_64".into(), headless: true });
}

#[test]
fn proxy_variables_are_collected_in_order() {
    let h = host(
        "linux",
        vec![("no_proxy", "a"), ("PATH", "/bin"), ("HTTPS_PROXY", "b"), ("http_proxy", "c"), ("HTTP_PROXY", "d")],
    );
    let pairs: Vec<(String, String)> = [("HTTP_PROXY", "d"), ("http_proxy", "c"), ("HTTPS_PROXY", "b"), ("no_proxy", "a")]
        .iter()
        .map(|(k, v)| (k.to_string(), v.to_string()))
        .collect();
    assert_eq!(collect_proxy_env(&h), pairs);
    assert!(collect_proxy_env(&host("linux", vec![("PATH", "/bin")])).is_empty());
}

#[test]
fn pretty_name_is_read_from_os_release() {
    let text = "NAME=\"Debian GNU/Linux\"\nPRETTY_NAME=\"Debian GNU/Linux 12 (bookworm)\"\nID=debian\n";
    assert_eq!(pretty_name_of(text), Some("Debian GNU/Linux 12 (bookworm)".to_string()));
    assert_eq!(pretty_name_of("PRETTY_NAME=Alpine"), Some("Alpine".to_string()));
    assert_eq!(pretty_name_of("ID=x\r\nPRETTY_NAME=\"Win\"\r\nZ=1"), Some("Win".to_string()));
    assert_eq!(pretty_name_of("PRETTY_NAME=\"\"\"a\"b\"\"\n"), Some("a\"b".to_string()));
    assert_eq!(pretty_name_of("PRETTY_NAME=\"one\"\nPRETTY_NAME=\"two\"\n"), Some("one".to_string()));
    assert_eq!(pretty_name_of("PRETTY_NAME="), Some("".to_string()));
    assert_eq!(pretty_name_of("PRETTY_NAME=\"x\"\r"), Some("x\"\r".to_string()));
    assert_eq!(pretty_name_of(" PRETTY_NAME=x\nNAME=y"), None);
    assert_eq!(pretty_name_of("ID=debian\n"), None);
    assert_eq!(pretty_name_of(""), None);
    assert_eq!(pretty_name_of("\n\n"), None);
    assert_eq!(pretty_name_of("PRETTY_NAME=\"Ünï 1\"\n"), Some("Ünï 1".to_string()));
}

#[test]
fn os_version_depends_on_the_platform() {
    let mut linux = host("linux", vec![]);
    assert_eq!(os_version(&linux), "unknown");
    linux.os_release = Some("ID=x\n".into());
    assert_eq!(os_version(&linux), "unknown");
    linux.os_release = Some("PRETTY_NAME=\"Ubuntu 24.04 LTS\"\n".into());
    linux.product_version = Some("14.5".into());
    assert_eq!(os_version(&linux), "Ubuntu 24.04 LTS");
    let mut mac = host("macos", vec![]);
    assert_eq!(os_version(&mac), "unknown");
    mac.product_version = Some("14.5".into());
    mac.os_release = Some("PRETTY_NAME=nope".into());
    assert_eq!(os_version(&mac), "14.5");
    let mut other = host("windows", vec![]);
    other.os_release = Some("PRETTY_NAME=nope".into());
    other.product_version = Some("11".into());
    assert_eq!(os_version(&other), "unknown");
}

#[test]
fn kernel_and_user_come_from_the_tools() {
    let mut h = host("linux", vec![]);
    assert_eq!(kernel_version(&h), "unknown");
    assert_eq!(libc_free_getuid(&h), u32::MAX);
    assert_eq!(get_uid(&h), Some(u32::MAX));
    assert!(!is_admin(&h));
    h.kernel_release = Some("6.8.0-41-generic".into());
    h.user_id_text = Some(" 1000\n".into());
    assert_eq!(kernel_version(&h), "6.8.0-41-generic");
    assert_eq!(libc_free_getuid(&h), 1000);
    assert_eq!(libc_free_geteuid(&h), 1000);
    assert_eq!(get_uid(&h), Some(1000));
    assert_eq!(get_euid(&h), Some(1000));
    assert!(!is_admin(&h));
    h.user_id_text = Some("0".into());
    assert!(is_admin(&h));
    h.unix = false;
    assert_eq!(get_uid(&h), None);
    assert_eq!(get_euid(&h), None);
    assert!(!is_admin(&h));
    h.user_id_text = Some("root".into());
    assert_eq!(libc_free_getuid(&h), u32::MAX);
    h.user_id_text = Some("\t+501\r\n".into());
    assert_eq!(libc_free_getuid(&h), 501);
    for bad in ["", "+", "-1", "1 2", "0x10", "4294967296", "٣"] {
        h.user_id_text = Some(bad.into());
        assert_eq!(libc_free_getuid(&h), u32::MAX, "{:?}", bad);
    }
    h.user_id_text = Some("4294967295".into());
    assert_eq!(libc_free_getuid(&h), u32::MAX);
    h.user_id_text = Some("0004294967294".into());
    assert_eq!(libc_free_getuid(&h), 4294967294);
    h.user_id_text = Some("4294967296".into());
    assert_eq!(libc_free_getuid(&h), u32::MAX);
}

#[test]
fn display_server_prefers_wayland() {
    assert_eq!(
        display_server(&host("linux", vec![("DISPLAY", ":1"), ("WAYLAND_DISPLAY", "wayland-0")])),
        Some("wayland (wayland-0)".to_string())
    );
    assert_eq!(display_server(&host("linux", vec![("DISPLAY", ":1")])), Some("x11 (:1)".to_string()));
    assert_eq!(display_server(&host("macos", vec![("DISPLAY", ":1")])), Some("x11 (:1)".to_string()));
    assert_eq!(display_server(&host("macos", vec![])), Some("quartz".to_string()));
    assert_eq!(display_server(&host("linux", vec![])), None);
    assert_eq!(session_type(&host("linux", vec![("XDG_SESSION_TYPE", "tty")])), Some("tty".to_string()));
    assert_eq!(session_type(&host("linux", vec![])), None);
}

#[test]
fn the_report_gathers_every_fact() {
    let mut h = host("linux", vec![("DISPLAY", ":0"), ("XDG_SESSION_TYPE", "x11"), ("NO_PROXY", "localhost")]);
    h.os_release = Some("PRETTY_NAME=\"Fedora 40\"\n".into());
    h.kernel_release = Some("6.9".into());
    h.user_id_text = Some("0".into());
    let report = gather_report(&h);
    assert_eq!(
        report,
        DoctorReport {
            os_name: "linux".into(),
            os_version: "Fedora 40".into(),
            kernel: "6.9".into(),
            arch: "x86_64".into(),
            user_id: Some(0),
            effective_user_id: Some(0),
            is_admin: true,
            headless: false,
            session_type: Some("x11".into()),
            display_server: Some("x11 (:0)".into()),
            proxy_env: vec![("NO_PROXY".to_string(), "localhost".to_string())],
        }
    );
    let members = match report.to_json() {
        Json::Object(members) => members,
        other => panic!("not an object: {:?}", other),
    };
    let names: Vec<&str> = members.iter().map(|(k, _)| k.as_str()).collect();
    assert_eq!(
        names,
        vec![
            "arch",
            "display_server",
            "effective_user_id",
            "headless",
            "is_admin",
            "kernel",
            "os_name",
            "os_version",
            "proxy_env",
            "session_type",
            "user_id"
        ]
    );
}

#[test]
fn the_doctor_passes_with_the_report() {
    let mut h = host("linux", vec![]);
    h.unix = false;
    let r = run_doctor(&h);
    assert_eq!(r.status, Status::Pass);
    assert_eq!(r.command, "doctor");
    assert_eq!(r.target, "env");
    assert_eq!(r.run_id.len(), 36);
    assert!(r.error.is_none());
    assert!(r.env_summary.headless);
    let data = r.data.unwrap();
    assert_eq!(data, gather_report(&h).to_json());
    assert_eq!(data.get("headless"), Some(&Json::Bool(true)));
    assert_eq!(data.get("user_id"), Some(&Json::Null));
    assert_eq!(data.get("display_server"), Some(&Json::Null));
    assert_eq!(data.get("os_version"), Some(&Json::String("unknown".into())));
    assert_eq!(data.get("proxy_env"), Some(&Json::Object(vec![])));
}
