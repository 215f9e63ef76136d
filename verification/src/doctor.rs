//! The doctor: a report on the host for diagnostics.

use vstd::prelude::*;

use crate::clock::elapsed_ms;
use crate::host::{collect_proxy_env, detect_headless, env_lookup, headless, proxy_env, HostFacts, HostView};
use crate::json::{members_view, object_of, object_of_texts, push_member, text_object, text_or_null, Json, JsonValue};
use crate::text::{
    chars_of, concat3, decimal, decimal_text, find_char, index_of, lemma_index_of_bounds, parse_u32, prefix_at,
    starts_with, str_eq, trim, trim_char, trim_range, trimmed, u32_text,
};
use crate::types::{
    env_of, is_run_id, new_run_id, ok_view, result_ok, CommandResult, DoctorReport, EnvSummary, ReportView,
    ResultView,
};
use std::time::Instant;

verus! {

/// The first line of a text, without its line ending: the text up to the
/// first newline, less a carriage return that stands before that newline.
pub open spec fn first_line(s: Seq<char>) -> Seq<char> {
    let n = index_of(s, '\n');
    if 0 < n < s.len() && s[n - 1] == '\r' {
        s.take(n - 1)
    } else {
        s.take(n)
    }
}

/// The pretty name that an os-release text declares: what follows
/// `PRETTY_NAME=` on the first line that begins so, without the quotes
/// around it.
pub open spec fn pretty_name(s: Seq<char>) -> Option<Seq<char>>
    decreases s.len(),
{
    let n = index_of(s, '\n');
    let line = first_line(s);
    if starts_with(line, "PRETTY_NAME="@) {
        Some(trim_char(line.skip("PRETTY_NAME="@.len() as int), '"'))
    } else if 0 <= n < s.len() {
        pretty_name(s.skip(n + 1))
    } else {
        None
    }
}

/// The pretty name that an os-release text declares.
pub fn pretty_name_of(content: &str) -> (name: Option<String>)
    ensures
        crate::host::opt_text(name) == pretty_name(content@),
{
    let chars = chars_of(content);
    let key = chars_of("PRETTY_NAME=");
    let n = chars.len();
    let mut start: usize = 0;
    assert(chars@.skip(0) =~= chars@);
    while start <= n
        invariant
            n == chars@.len(),
            chars@ == content@,
            key@ == "PRETTY_NAME="@,
            start <= n,
            pretty_name(chars@) == pretty_name(chars@.skip(start as int)),
        decreases n - start,
    {
        let ghost rest = chars@.skip(start as int);
        let end = find_char(&chars, start, '\n');
        let mut line_end = end;
        if end < n && end > start && chars[end - 1] == '\r' {
            line_end = end - 1;
        }
        proof {
            lemma_index_of_bounds(rest, '\n');
            assert(first_line(rest) =~= chars@.subrange(start as int, line_end as int));
        }
        let ghost line = chars@.subrange(start as int, line_end as int);
        if key.len() <= line_end - start && prefix_at(&chars, start, &key) {
            assert(line.take(key@.len() as int) =~= rest.take(key@.len() as int));
            let (a, b) = trim_range(&chars, start + key.len(), line_end, '"');
            assert(line.skip(key@.len() as int) =~= chars@.subrange(start + key@.len(), line_end as int));
            let name = content.substring_char(a, b);
            return Some(name.to_string());
        }
        proof {
            if key@.len() <= line_end - start {
                assert(line.take(key@.len() as int) =~= rest.take(key@.len() as int));
            }
        }
        if end >= n {
            return None;
        }
        assert(rest.skip(end - start + 1) =~= chars@.skip(end + 1));
        start = end + 1;
    }
    None
}

/// The version of the operating system: on macOS what the system's version
/// tool printed, on Linux the pretty name that os-release declares, and
/// `unknown` where neither is to be had.
pub open spec fn os_version_of(host: HostView) -> Seq<char> {
    if host.os == "macos"@ {
        match host.product_version {
            Some(v) => v,
            None => "unknown"@,
        }
    } else if host.os == "linux"@ {
        match host.os_release {
            Some(content) => match pretty_name(content) {
                Some(name) => name,
                None => "unknown"@,
            },
            None => "unknown"@,
        }
    } else {
        "unknown"@
    }
}

/// The version of the operating system.
pub fn os_version(host: &HostFacts) -> (v: String)
    ensures
        v@ == os_version_of(host@),
{
    if str_eq(host.os.as_str(), "macos") {
        match &host.product_version {
            Some(v) => v.clone(),
            None => "unknown".to_string(),
        }
    } else if str_eq(host.os.as_str(), "linux") {
        match &host.os_release {
            Some(content) => match pretty_name_of(content.as_str()) {
                Some(name) => name,
                None => "unknown".to_string(),
            },
            None => "unknown".to_string(),
        }
    } else {
        "unknown".to_string()
    }
}

/// The kernel release, or `unknown` where the system did not tell.
pub fn kernel_version(host: &HostFacts) -> (v: String)
    ensures
        v@ == match host@.kernel_release {
            Some(k) => k,
            None => "unknown"@,
        },
{
    match &host.kernel_release {
        Some(k) => k.clone(),
        None => "unknown".to_string(),
    }
}

/// The user identifier that the system printed: the number that its text
/// holds between white space, and the largest 32-bit number where there is
/// no text or no number in it.
pub open spec fn uid_of(host: HostView) -> u32 {
    match host.user_id_text {
        Some(t) => match u32_text(trimmed(t)) {
            Some(n) => n,
            None => u32::MAX,
        },
        None => u32::MAX,
    }
}

/// The user identifier, read from what `id -u` printed.
pub fn libc_free_getuid(host: &HostFacts) -> (uid: u32)
    ensures
        uid == uid_of(host@),
{
    match &host.user_id_text {
        Some(t) => match parse_u32(trim(t.as_str())) {
            Some(n) => n,
            None => u32::MAX,
        },
        None => u32::MAX,
    }
}

/// The effective user identifier; `id -u` prints the effective one.
pub fn libc_free_geteuid(host: &HostFacts) -> (uid: u32)
    ensures
        uid == uid_of(host@),
{
    libc_free_getuid(host)
}

/// The user identifier on a Unix host; none elsewhere.
pub fn get_uid(host: &HostFacts) -> (uid: Option<u32>)
    ensures
        uid == if host@.unix {
            Some(uid_of(host@))
        } else {
            None
        },
{
    if host.unix {
        Some(libc_free_getuid(host))
    } else {
        None
    }
}

/// The effective user identifier on a Unix host; none elsewhere.
pub fn get_euid(host: &HostFacts) -> (uid: Option<u32>)
    ensures
        uid == if host@.unix {
            Some(uid_of(host@))
        } else {
            None
        },
{
    if host.unix {
        Some(libc_free_geteuid(host))
    } else {
        None
    }
}

/// Whether the process runs as the superuser of a Unix host.
pub fn is_admin(host: &HostFacts) -> (admin: bool)
    ensures
        admin == (host@.unix && uid_of(host@) == 0),
{
    match get_euid(host) {
        Some(uid) => uid == 0,
        None => false,
    }
}

/// The session type that the desktop declares in `XDG_SESSION_TYPE`.
pub fn session_type(host: &HostFacts) -> (t: Option<String>)
    ensures
        crate::host::opt_text(t) == env_lookup(host@.env, "XDG_SESSION_TYPE"@),
{
    match host.var("XDG_SESSION_TYPE") {
        Some(v) => Some(v.to_string()),
        None => None,
    }
}

/// The display server: Wayland where `WAYLAND_DISPLAY` is set, else X11
/// where `DISPLAY` is set, each with the display in brackets; else Quartz on
/// macOS; else none.
pub open spec fn display_server_of(host: HostView) -> Option<Seq<char>> {
    match env_lookup(host.env, "WAYLAND_DISPLAY"@) {
        Some(d) => Some("wayland ("@ + d + ")"@),
        None => match env_lookup(host.env, "DISPLAY"@) {
            Some(d) => Some("x11 ("@ + d + ")"@),
            None => if host.os == "macos"@ {
                Some("quartz"@)
            } else {
                None
            },
        },
    }
}

/// The display server of the host.
pub fn display_server(host: &HostFacts) -> (d: Option<String>)
    ensures
        crate::host::opt_text(d) == display_server_of(host@),
{
    match host.var("WAYLAND_DISPLAY") {
        Some(d) => Some(concat3("wayland (", d, ")")),
        None => match host.var("DISPLAY") {
            Some(d) => Some(concat3("x11 (", d, ")")),
            None => if str_eq(host.os.as_str(), "macos") {
                Some("quartz".to_string())
            } else {
                None
            },
        },
    }
}

/// The report on a host.
pub open spec fn report_of(host: HostView) -> ReportView {
    ReportView {
        os_name: host.os,
        os_version: os_version_of(host),
        kernel: match host.kernel_release {
            Some(k) => k,
            None => "unknown"@,
        },
        arch: host.arch,
        user_id: if host.unix {
            Some(uid_of(host))
        } else {
            None
        },
        effective_user_id: if host.unix {
            Some(uid_of(host))
        } else {
            None
        },
        is_admin: host.unix && uid_of(host) == 0,
        headless: headless(host),
        session_type: env_lookup(host.env, "XDG_SESSION_TYPE"@),
        display_server: display_server_of(host),
        proxy_env: proxy_env(host),
    }
}

/// Gathers the report on the host.
pub fn gather_report(host: &HostFacts) -> (report: DoctorReport)
    ensures
        report@ == report_of(host@),
{
    DoctorReport {
        os_name: host.os.clone(),
        os_version: os_version(host),
        kernel: kernel_version(host),
        arch: host.arch.clone(),
        user_id: get_uid(host),
        effective_user_id: get_euid(host),
        is_admin: is_admin(host),
        headless: detect_headless(host),
        session_type: session_type(host),
        display_server: display_server(host),
        proxy_env: collect_proxy_env(host),
    }
}

/// An optional number: the number, or `null`.
pub open spec fn number_or_null(n: Option<u32>) -> JsonValue {
    match n {
        Some(v) => JsonValue::Number(decimal_text(v as nat)),
        None => JsonValue::Null,
    }
}

/// The document of a report: an object with one member for each field.
pub open spec fn report_json(r: ReportView) -> JsonValue {
    JsonValue::Object(
        seq![
            ("arch"@, JsonValue::String(r.arch)),
            ("display_server"@, text_or_null(r.display_server)),
            ("effective_user_id"@, number_or_null(r.effective_user_id)),
            ("headless"@, JsonValue::Bool(r.headless)),
            ("is_admin"@, JsonValue::Bool(r.is_admin)),
            ("kernel"@, JsonValue::String(r.kernel)),
            ("os_name"@, JsonValue::String(r.os_name)),
            ("os_version"@, JsonValue::String(r.os_version)),
            ("proxy_env"@, text_object(r.proxy_env)),
            ("session_type"@, text_or_null(r.session_type)),
            ("user_id"@, number_or_null(r.user_id)),
        ],
    )
}

fn json_text_or_null(text: &Option<String>) -> (j: Json)
    ensures
        j@ == text_or_null(crate::host::opt_text(*text)),
{
    match text {
        Some(t) => Json::String(t.clone()),
        None => Json::Null,
    }
}

fn json_number_or_null(n: Option<u32>) -> (j: Json)
    ensures
        j@ == number_or_null(n),
{
    match n {
        Some(v) => Json::Number(decimal(v as u64)),
        None => Json::Null,
    }
}

impl DoctorReport {
    /// The document of the report.
    pub fn to_json(&self) -> (j: Json)
        ensures
            j@ == report_json(self@),
    {
        let mut members: Vec<(String, Json)> = Vec::new();
        assert(members_view(members@) =~= Seq::empty());
        push_member(&mut members, "arch", Json::String(self.arch.clone()));
        push_member(&mut members, "display_server", json_text_or_null(&self.display_server));
        push_member(&mut members, "effective_user_id", json_number_or_null(self.effective_user_id));
        push_member(&mut members, "headless", Json::Bool(self.headless));
        push_member(&mut members, "is_admin", Json::Bool(self.is_admin));
        push_member(&mut members, "kernel", Json::String(self.kernel.clone()));
        push_member(&mut members, "os_name", Json::String(self.os_name.clone()));
        push_member(&mut members, "os_version", Json::String(self.os_version.clone()));
        push_member(&mut members, "proxy_env", object_of_texts(&self.proxy_env));
        push_member(&mut members, "session_type", json_text_or_null(&self.session_type));
        push_member(&mut members, "user_id", json_number_or_null(self.user_id));
        let j = object_of(members);
        assert(j@->Object_0 =~= report_json(self@)->Object_0);
        j
    }
}

/// What the doctor returns on a host: a pass of the command `doctor` on the
/// target `env`, whose payload is the report on the host.
pub open spec fn doctored(host: HostView, r: ResultView) -> bool {
    &&& is_run_id(r.run_id)
    &&& exists|total_ms: u64|
        r == (ResultView {
            data: Some(report_json(report_of(host))),
            ..#[trigger] ok_view("doctor"@, "env"@, r.run_id, total_ms, env_of(host))
        })
}

/// Runs the doctor and returns the report on the host as a full result.
pub fn run_doctor(host: &HostFacts) -> (r: CommandResult)
    ensures
        doctored(host@, r@),
{
    let run_id = new_run_id();
    let start = Instant::now();
    let report = gather_report(host);
    let data = report.to_json();
    let total_ms = elapsed_ms(&start);
    let mut r = result_ok("doctor", "env", run_id.as_str(), total_ms, EnvSummary::of(host));
    r.data = Some(data);
    assert(r@ == (ResultView {
        data: Some(report_json(report_of(host@))),
        ..ok_view("doctor"@, "env"@, r@.run_id, total_ms, env_of(host@))
    }));
    r
}

/// The report always tells whether the host is headless, and tells what the
/// results of the host tell.
pub proof fn lemma_report_tells_headless(host: HostView, r: ResultView)
    requires
        doctored(host, r),
    ensures
        r.status == crate::types::Status::Pass,
        r.data is Some,
        r.data->Some_0.member("headless"@) == Some(JsonValue::Bool(headless(host))),
        r.env.headless == headless(host),
{
    let members = report_json(report_of(host))->Object_0;
    reveal_strlit("arch");
    reveal_strlit("display_server");
    reveal_strlit("effective_user_id");
    reveal_strlit("headless");
    assert("arch"@.len() != "headless"@.len());
    assert("display_server"@.len() != "headless"@.len());
    assert("effective_user_id"@.len() != "headless"@.len());
    assert(members[0].0 != "headless"@);
    assert(members[1].0 != "headless"@);
    assert(members[2].0 != "headless"@);
    assert(members[3].0 == "headless"@);
    reveal_with_fuel(crate::json::lookup, 5);
    assert(members.drop_first()[0] == members[1]);
    assert(members.drop_first().drop_first()[0] == members[2]);
    assert(members.drop_first().drop_first().drop_first()[0] == members[3]);
}

} // verus!
