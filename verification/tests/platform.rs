use engine::platform::{
    body_snippet, char_utf8_len, clipboard_read_step, clipboard_read_tools, clipboard_write_step, clipboard_write_tools, dns_failure,
    dns_outcome, http_failure, next_step, read_failure, tool_read_outcome, tool_write_outcome, write_failure,
    ClipboardStep, ClipboardTool, IoFailureKind, ToolRun, BODY_SNIPPET_BYTES,
};
use engine::platform::{ClipboardBackend, HeadlessClipboard};
use engine::traits::{CapError, CapResult, ClipboardOps};

fn tool(program: &str, args: &[&str]) -> ClipboardTool {
    ClipboardTool { program: program.to_string(), args: args.iter().map(|a| a.to_string()).collect() }
}

#[test]
fn read_failures_tell_permission_from_the_rest() {
    assert_eq!(
        read_failure(IoFailureKind::PermissionDenied, "/etc/shadow", "Permission denied (os error 13)"),
        CapError::PermissionDenied("cannot read /etc/shadow: Permission denied (os error 13)".into())
    );
    assert_eq!(read_failure(IoFailureKind::NotFound, "/x", "No such file"), CapError::Io("No such file".into()));
    assert_eq!(read_failure(IoFailureKind::Other, "/x", "broken"), CapError::Io("broken".into()));
}

#[test]
fn write_failures_tell_permission_from_the_rest() {
    assert_eq!(
        write_failure(IoFailureKind::PermissionDenied, "/etc/x", "denied"),
        CapError::PermissionDenied("cannot write /etc/x: denied".into())
    );
    assert_eq!(write_failure(IoFailureKind::NotFound, "/x", "gone"), CapError::Io("gone".into()));
    assert_eq!(write_failure(IoFailureKind::Other, "/x", "full"), CapError::Io("full".into()));
}

#[test]
fn a_resolution_without_addresses_is_a_failure() {
    assert_eq!(
        dns_outcome("example.com", vec![]),
        Err(CapError::Network("DNS resolution returned no addresses for example.com".into()))
    );
    assert_eq!(dns_outcome("example.com", vec!["1.2.3.4".into()]), Ok(vec!["1.2.3.4".to_string()]));
    assert_eq!(
        dns_failure("example.com", "lookup failed"),
        CapError::Network("DNS resolution failed for example.com: lookup failed".into())
    );
}

#[test]
fn a_timeout_is_an_error_kind_of_its_own() {
    assert_eq!(http_failure("https://a/b", true, "deadline"), CapError::Timeout);
    assert_eq!(
        http_failure("https://a/b", false, "connection refused"),
        CapError::Network("HTTPS GET https://a/b: connection refused".into())
    );
}

#[test]
fn a_body_is_cut_to_four_kibibytes() {
    assert_eq!(BODY_SNIPPET_BYTES, 4096);
    assert_eq!(body_snippet(""), "");
    assert_eq!(body_snippet("short"), "short");
    let exact = "a".repeat(4096);
    assert_eq!(body_snippet(&exact), exact);
    let long = format!("{}{}", "b".repeat(4096), "tail");
    assert_eq!(body_snippet(&long), "b".repeat(4096));
    let wide = "é".repeat(5000);
    let cut = body_snippet(&wide);
    assert_eq!(cut.len(), 4096);
    assert_eq!(cut.chars().count(), 2048);
    let huge = "x".repeat(1 << 20);
    assert_eq!(body_snippet(&huge).len(), 4096);
}

#[test]
fn a_body_is_cut_between_two_characters() {
    let body = format!("{}€uro", "a".repeat(4095));
    assert_eq!(body_snippet(&body), "a".repeat(4095));
    let body = format!("{}€uro", "a".repeat(4093));
    assert_eq!(body_snippet(&body), format!("{}€", "a".repeat(4093)));
    let body = format!("{}🔒", "a".repeat(4093));
    assert_eq!(body_snippet(&body), "a".repeat(4093));
    let body = format!("{}🔒", "a".repeat(4092));
    assert_eq!(body_snippet(&body), body);
    for body in ["", "é", &"日本語".repeat(2000), &"a🔒".repeat(3000)] {
        let cut = body_snippet(body);
        assert!(cut.len() <= 4096);
        assert!(body.starts_with(&cut));
        let next = body[cut.len()..].chars().next();
        assert!(next.map_or(true, |c| cut.len() + c.len_utf8() > 4096));
    }
}

#[test]
fn clipboard_tools_come_in_a_fixed_order() {
    assert_eq!(clipboard_read_tools("macos"), vec![tool("pbpaste", &[])]);
    assert_eq!(
        clipboard_read_tools("linux"),
        vec![
            tool("xclip", &["-selection", "clipboard", "-o"]),
            tool("xsel", &["--clipboard", "--output"]),
            tool("wl-paste", &[]),
        ]
    );
    assert!(clipboard_read_tools("windows").is_empty());
    assert_eq!(clipboard_write_tools("macos"), vec![tool("pbcopy", &[])]);
    assert_eq!(
        clipboard_write_tools("linux"),
        vec![
            tool("xclip", &["-selection", "clipboard"]),
            tool("xsel", &["--clipboard", "--input"]),
            tool("wl-copy", &[]),
        ]
    );
    assert!(clipboard_write_tools("plan9").is_empty());
}

#[test]
fn a_run_becomes_a_result() {
    let printed = ToolRun::Exited { success: true, status: "exit status: 0".into(), stdout: b"copied\n".to_vec() };
    assert_eq!(tool_read_outcome("xclip", printed.clone()), Ok("copied\n".to_string()));
    assert_eq!(tool_write_outcome("xclip", printed), Ok(()));
    let bad = ToolRun::Exited { success: true, status: "0".into(), stdout: vec![b'a', 0xff] };
    assert_eq!(tool_read_outcome("xclip", bad), Ok("a\u{fffd}".to_string()));
    let failed = ToolRun::Exited { success: false, status: "exit status: 1".into(), stdout: b"x".to_vec() };
    assert_eq!(
        tool_read_outcome("xsel", failed.clone()),
        Err(CapError::Other("xsel exited with exit status: 1".into()))
    );
    assert_eq!(tool_write_outcome("xsel", failed), Err(CapError::Other("xsel exited with exit status: 1".into())));
    assert_eq!(
        tool_read_outcome("wl-paste", ToolRun::NotFound),
        Err(CapError::DependencyMissing("wl-paste not found".into()))
    );
    assert_eq!(
        tool_write_outcome("pbcopy", ToolRun::NotFound),
        Err(CapError::DependencyMissing("pbcopy not found".into()))
    );
    assert_eq!(tool_read_outcome("xclip", ToolRun::Failed("EAGAIN".into())), Err(CapError::Io("EAGAIN".into())));
    assert_eq!(tool_write_outcome("xclip", ToolRun::Failed("EPIPE".into())), Err(CapError::Io("EPIPE".into())));
}

fn run_reads(os: &str, outcomes: Vec<CapResult<String>>) -> (CapResult<String>, usize) {
    let mut tried = 0;
    let mut previous = None;
    let mut outcomes = outcomes.into_iter();
    loop {
        match clipboard_read_step(os, tried, previous) {
            ClipboardStep::Done(r) => return (r, tried),
            ClipboardStep::Try(i) => {
                assert_eq!(i, tried);
                previous = Some(outcomes.next().unwrap());
                tried += 1;
            }
        }
    }
}

#[test]
fn linux_takes_the_first_utility_that_works() {
    let missing = || Err(CapError::DependencyMissing("x not found".into()));
    assert_eq!(run_reads("linux", vec![Ok("a".into())]), (Ok("a".to_string()), 1));
    assert_eq!(run_reads("linux", vec![missing(), Ok("b".into())]), (Ok("b".to_string()), 2));
    assert_eq!(
        run_reads("linux", vec![missing(), Err(CapError::Other("xsel exited with 1".into())), Ok("c".into())]),
        (Ok("c".to_string()), 3)
    );
    assert_eq!(
        run_reads("linux", vec![missing(), missing(), Err(CapError::Io("x".into()))]),
        (Err(CapError::DependencyMissing("none of xclip, xsel, or wl-paste found".into())), 3)
    );
}

#[test]
fn macos_has_one_utility_and_reports_its_failure() {
    assert_eq!(run_reads("macos", vec![Ok("a".into())]), (Ok("a".to_string()), 1));
    assert_eq!(
        run_reads("macos", vec![Err(CapError::Other("pbpaste exited with 1".into()))]),
        (Err(CapError::Other("pbpaste exited with 1".into())), 1)
    );
}

#[test]
fn other_platforms_have_no_clipboard() {
    let unsupported = CapError::Unsupported("clipboard not implemented for this OS".into());
    assert_eq!(run_reads("windows", vec![]), (Err(unsupported.clone()), 0));
    assert_eq!(clipboard_write_step("windows", 0, None), ClipboardStep::Done(Err(unsupported)));
}

#[test]
fn writes_follow_the_same_order() {
    assert_eq!(clipboard_write_step("linux", 0, None), ClipboardStep::Try(0));
    assert_eq!(clipboard_write_step("linux", 1, Some(Err(CapError::Timeout))), ClipboardStep::Try(1));
    assert_eq!(clipboard_write_step("linux", 2, Some(Ok(()))), ClipboardStep::Done(Ok(())));
    assert_eq!(
        clipboard_write_step("linux", 3, Some(Err(CapError::Timeout))),
        ClipboardStep::Done(Err(CapError::DependencyMissing("none of xclip, xsel, or wl-copy found".into())))
    );
    assert_eq!(clipboard_write_step("macos", 0, None), ClipboardStep::Try(0));
    assert_eq!(
        clipboard_write_step("macos", 1, Some(Err(CapError::Timeout))),
        ClipboardStep::Done(Err(CapError::Timeout))
    );
    assert_eq!(next_step::<u8>(2, 2, None, "none"), ClipboardStep::Done(Err(CapError::DependencyMissing("none".into()))));
    assert_eq!(next_step(2, 0, Some(Ok(5u8)), "none"), ClipboardStep::Done(Ok(5)));
}

#[test]
fn characters_take_one_to_four_bytes() {
    for c in ['\0', 'a', '\u{7f}', '\u{80}', 'é', '\u{7ff}', '\u{800}', '€', '\u{ffff}', '\u{10000}', '🔒', '\u{10ffff}'] {
        assert_eq!(char_utf8_len(c), c.len_utf8());
    }
}

#[test]
fn the_context_clipboard_refuses_or_hands_on() {
    let headless = ClipboardBackend::Headless(HeadlessClipboard);
    let refusal = CapError::Unsupported("clipboard unavailable in headless environment".to_string());
    assert_eq!(headless.read_text(), Err(refusal.clone()));
    assert_eq!(headless.write_text("x"), Err(refusal));
    let system = ClipboardBackend::System(Box::new(Fixed));
    assert_eq!(system.read_text(), Ok("fixed".to_string()));
    assert_eq!(system.write_text("x"), Ok(()));
}

struct Fixed;

impl ClipboardOps for Fixed {
    fn read_text(&self) -> CapResult<String> {
        Ok("fixed".to_string())
    }

    fn write_text(&self, _text: &str) -> CapResult<()> {
        Ok(())
    }
}
