//! Backends that need nothing from the host, and the rules by which the
//! host-facing backends turn what the system reports into capability results.

use vstd::prelude::*;

use crate::json::texts_view;
use crate::text::{concat, concat3, lossy_text, str_eq, utf8_lossy};
use crate::traits::{CapError, CapResult, ClipboardOps};

verus! {

/// The clipboard of a host without one: every operation is refused as
/// unsupported, and the host is never touched.
pub struct HeadlessClipboard;

/// The error with which the headless clipboard refuses an operation.
pub open spec fn headless_refusal(e: CapError) -> bool {
    e matches CapError::Unsupported(m) && m@ == "clipboard unavailable in headless environment"@
}

impl ClipboardOps for HeadlessClipboard {
    fn read_text(&self) -> (r: CapResult<String>)
        ensures
            r is Err && headless_refusal(r->Err_0),
    {
        Err(CapError::Unsupported("clipboard unavailable in headless environment".to_string()))
    }

    fn write_text(&self, text: &str) -> (r: CapResult<()>)
        ensures
            r is Err && headless_refusal(r->Err_0),
    {
        Err(CapError::Unsupported("clipboard unavailable in headless environment".to_string()))
    }
}

/// The clipboard of a context: the headless clipboard, or a clipboard of the
/// host that the caller supplies.
pub enum ClipboardBackend {
    Headless(HeadlessClipboard),
    System(Box<dyn ClipboardOps>),
}

impl ClipboardOps for ClipboardBackend {
    fn read_text(&self) -> (r: CapResult<String>)
        ensures
            self is Headless ==> r is Err && headless_refusal(r->Err_0),
    {
        match self {
            ClipboardBackend::Headless(clipboard) => clipboard.read_text(),
            ClipboardBackend::System(clipboard) => clipboard.read_text(),
        }
    }

    fn write_text(&self, text: &str) -> (r: CapResult<()>)
        ensures
            self is Headless ==> r is Err && headless_refusal(r->Err_0),
    {
        match self {
            ClipboardBackend::Headless(clipboard) => clipboard.write_text(text),
            ClipboardBackend::System(clipboard) => clipboard.write_text(text),
        }
    }
}

/// The kinds of I/O failure that a backend tells apart.
#[derive(Clone, Copy, Debug, PartialEq, Eq)]
pub enum IoFailureKind {
    NotFound,
    PermissionDenied,
    Other,
}

/// How a failed read is reported: a refusal of permission names the file,
/// every other failure is an I/O error with the system's own text.
pub open spec fn read_failure_of(kind: IoFailureKind, path: Seq<char>, detail: Seq<char>, e: CapError) -> bool {
    match kind {
        IoFailureKind::PermissionDenied => e matches CapError::PermissionDenied(m) && m@ == "cannot read "@ + path
            + ": "@ + detail,
        _ => e matches CapError::Io(m) && m@ == detail,
    }
}

/// Reports a failed read of the file at `path`.
pub fn read_failure(kind: IoFailureKind, path: &str, detail: &str) -> (e: CapError)
    ensures
        read_failure_of(kind, path@, detail@, e),
{
    match kind {
        IoFailureKind::PermissionDenied => {
            let mut m = concat3("cannot read ", path, ": ");
            m.append(detail);
            CapError::PermissionDenied(m)
        },
        _ => CapError::Io(detail.to_string()),
    }
}

/// How a failed write is reported: a refusal of permission names the file,
/// every other failure is an I/O error with the system's own text.
pub open spec fn write_failure_of(kind: IoFailureKind, path: Seq<char>, detail: Seq<char>, e: CapError) -> bool {
    match kind {
        IoFailureKind::PermissionDenied => e matches CapError::PermissionDenied(m) && m@ == "cannot write "@ + path
            + ": "@ + detail,
        _ => e matches CapError::Io(m) && m@ == detail,
    }
}

/// Reports a failed write of the file at `path`.
pub fn write_failure(kind: IoFailureKind, path: &str, detail: &str) -> (e: CapError)
    ensures
        write_failure_of(kind, path@, detail@, e),
{
    match kind {
        IoFailureKind::PermissionDenied => {
            let mut m = concat3("cannot write ", path, ": ");
            m.append(detail);
            CapError::PermissionDenied(m)
        },
        _ => CapError::Io(detail.to_string()),
    }
}

/// What a resolution that found the given addresses amounts to: no address
/// is a failure, not an empty success.
pub open spec fn dns_outcome_of(host: Seq<char>, addrs: Seq<Seq<char>>, r: CapResult<Vec<String>>) -> bool {
    if addrs.len() == 0 {
        r is Err && (r->Err_0 matches CapError::Network(m) && m@ == "DNS resolution returned no addresses for "@
            + host)
    } else {
        r is Ok && texts_view(r->Ok_0@) == addrs
    }
}

/// Turns the addresses that a resolution of `host` found into its result.
pub fn dns_outcome(host: &str, addrs: Vec<String>) -> (r: CapResult<Vec<String>>)
    ensures
        dns_outcome_of(host@, texts_view(addrs@), r),
{
    if addrs.len() == 0 {
        Err(CapError::Network(concat("DNS resolution returned no addresses for ", host)))
    } else {
        Ok(addrs)
    }
}

/// Reports a resolution of `host` that failed.
pub fn dns_failure(host: &str, detail: &str) -> (e: CapError)
    ensures
        e matches CapError::Network(m) && m@ == "DNS resolution failed for "@ + host@ + ": "@ + detail@,
{
    let mut m = concat3("DNS resolution failed for ", host, ": ");
    m.append(detail);
    CapError::Network(m)
}

/// Reports a request for `url` that failed: a timeout is an error kind of
/// its own, every other failure names the address.
pub fn http_failure(url: &str, timed_out: bool, detail: &str) -> (e: CapError)
    ensures
        timed_out ==> e is Timeout,
        !timed_out ==> (e matches CapError::Network(m) && m@ == "HTTPS GET "@ + url@ + ": "@ + detail@),
{
    if timed_out {
        CapError::Timeout
    } else {
        let mut m = concat3("HTTPS GET ", url, ": ");
        m.append(detail);
        CapError::Network(m)
    }
}

/// The number of bytes of a response body that are kept at most: 4 KiB.
pub const BODY_SNIPPET_BYTES: usize = 4096;

/// The number of bytes that a text takes in UTF-8.
pub open spec fn utf8_len(text: Seq<char>) -> nat {
    vstd::utf8::encode_utf8(text).len()
}

/// Whether `snippet` is the start of `body` that is kept: the longest
/// beginning of the body's characters that takes no more than 4096 bytes in
/// UTF-8.
pub open spec fn is_snippet_of(snippet: Seq<char>, body: Seq<char>) -> bool {
    &&& snippet.len() <= body.len()
    &&& snippet == body.take(snippet.len() as int)
    &&& utf8_len(snippet) <= 4096
    &&& (snippet.len() == body.len() || utf8_len(body.take(snippet.len() as int + 1)) > 4096)
}

/// A text with one more character takes the bytes of the text and those of
/// the character, of which there are one to four.
pub proof fn lemma_utf8_len_push(text: Seq<char>, c: char)
    ensures
        utf8_len(text.push(c)) == utf8_len(text) + vstd::utf8::encode_scalar(c as u32).len(),
        1 <= vstd::utf8::encode_scalar(c as u32).len() <= 4,
    decreases text.len(),
{
    if text.len() == 0 {
        assert(text.push(c).drop_first() =~= Seq::<char>::empty());
        assert(vstd::utf8::encode_utf8(text.push(c).drop_first()) =~= Seq::<u8>::empty());
    } else {
        lemma_utf8_len_push(text.drop_first(), c);
        assert(text.push(c).drop_first() =~= text.drop_first().push(c));
    }
}

/// The number of bytes that a character takes in UTF-8.
pub fn char_utf8_len(c: char) -> (n: usize)
    ensures
        n == vstd::utf8::encode_scalar(c as u32).len(),
        1 <= n <= 4,
{
    proof {
        vstd::utf8::char_is_scalar(c);
    }
    let u = c as u32;
    if u < 0x80 {
        1
    } else if u < 0x800 {
        2
    } else if u < 0x10000 {
        3
    } else {
        4
    }
}

/// The start of a response body that is kept, so that a result stays small
/// whatever the server sent: at most 4 KiB, cut between two characters.
pub fn body_snippet(body: &str) -> (snippet: String)
    ensures
        is_snippet_of(snippet@, body@),
{
    let chars = crate::text::chars_of(body);
    let mut n: usize = 0;
    let mut bytes: usize = 0;
    assert(chars@.take(0) =~= Seq::<char>::empty());
    while n < chars.len() && bytes + char_utf8_len(chars[n]) <= BODY_SNIPPET_BYTES
        invariant
            n <= chars.len(),
            chars@ == body@,
            bytes == utf8_len(chars@.take(n as int)),
            bytes <= 4096,
        decreases chars.len() - n,
    {
        proof {
            lemma_utf8_len_push(chars@.take(n as int), chars@[n as int]);
            assert(chars@.take(n + 1) =~= chars@.take(n as int).push(chars@[n as int]));
        }
        bytes += char_utf8_len(chars[n]);
        n += 1;
    }
    proof {
        if n < chars.len() {
            lemma_utf8_len_push(chars@.take(n as int), chars@[n as int]);
            assert(chars@.take(n + 1) =~= chars@.take(n as int).push(chars@[n as int]));
        }
    }
    let head = body.substring_char(0, n);
    assert(head@ =~= body@.take(n as int));
    head.to_string()
}

/// An external utility with its arguments.
#[derive(Clone, Debug, PartialEq, Eq)]
pub struct ClipboardTool {
    pub program: String,
    pub args: Vec<String>,
}

/// The mathematical value of a [`ClipboardTool`].
pub struct ToolView {
    pub program: Seq<char>,
    pub args: Seq<Seq<char>>,
}

impl View for ClipboardTool {
    type V = ToolView;

    open spec fn view(&self) -> ToolView {
        ToolView { program: self.program@, args: texts_view(self.args@) }
    }
}

fn tool(program: &str, args: Vec<String>) -> (t: ClipboardTool)
    ensures
        t@ == (ToolView { program: program@, args: texts_view(args@) }),
{
    ClipboardTool { program: program.to_string(), args }
}

fn args0() -> (args: Vec<String>)
    ensures
        texts_view(args@) == Seq::<Seq<char>>::empty(),
{
    let args: Vec<String> = Vec::new();
    assert(texts_view(args@) =~= Seq::<Seq<char>>::empty());
    args
}

fn args2(a: &str, b: &str) -> (args: Vec<String>)
    ensures
        texts_view(args@) == seq![a@, b@],
{
    let mut args: Vec<String> = Vec::new();
    args.push(a.to_string());
    args.push(b.to_string());
    assert(texts_view(args@) =~= seq![a@, b@]);
    args
}

fn args3(a: &str, b: &str, c: &str) -> (args: Vec<String>)
    ensures
        texts_view(args@) == seq![a@, b@, c@],
{
    let mut args: Vec<String> = Vec::new();
    args.push(a.to_string());
    args.push(b.to_string());
    args.push(c.to_string());
    assert(texts_view(args@) =~= seq![a@, b@, c@]);
    args
}

/// The utilities that read the clipboard on an operating system, in the
/// order in which they are tried.
pub open spec fn read_tools_of(os: Seq<char>) -> Seq<ToolView> {
    if os == "macos"@ {
        seq![ToolView { program: "pbpaste"@, args: Seq::empty() }]
    } else if os == "linux"@ {
        seq![
            ToolView { program: "xclip"@, args: seq!["-selection"@, "clipboard"@, "-o"@] },
            ToolView { program: "xsel"@, args: seq!["--clipboard"@, "--output"@] },
            ToolView { program: "wl-paste"@, args: Seq::empty() },
        ]
    } else {
        Seq::empty()
    }
}

/// The utilities that write the clipboard on an operating system, in the
/// order in which they are tried.
pub open spec fn write_tools_of(os: Seq<char>) -> Seq<ToolView> {
    if os == "macos"@ {
        seq![ToolView { program: "pbcopy"@, args: Seq::empty() }]
    } else if os == "linux"@ {
        seq![
            ToolView { program: "xclip"@, args: seq!["-selection"@, "clipboard"@] },
            ToolView { program: "xsel"@, args: seq!["--clipboard"@, "--input"@] },
            ToolView { program: "wl-copy"@, args: Seq::empty() },
        ]
    } else {
        Seq::empty()
    }
}

/// The views of a list of utilities.
pub open spec fn tools_view(tools: Seq<ClipboardTool>) -> Seq<ToolView> {
    Seq::new(tools.len(), |i: int| tools[i]@)
}

/// The utilities that read the clipboard on the operating system `os`.
pub fn clipboard_read_tools(os: &str) -> (tools: Vec<ClipboardTool>)
    ensures
        tools_view(tools@) == read_tools_of(os@),
{
    let mut tools: Vec<ClipboardTool> = Vec::new();
    if str_eq(os, "macos") {
        tools.push(tool("pbpaste", args0()));
    } else if str_eq(os, "linux") {
        tools.push(tool("xclip", args3("-selection", "clipboard", "-o")));
        tools.push(tool("xsel", args2("--clipboard", "--output")));
        tools.push(tool("wl-paste", args0()));
    }
    tools
}

/// The utilities that write the clipboard on the operating system `os`.
pub fn clipboard_write_tools(os: &str) -> (tools: Vec<ClipboardTool>)
    ensures
        tools_view(tools@) == write_tools_of(os@),
{
    let mut tools: Vec<ClipboardTool> = Vec::new();
    if str_eq(os, "macos") {
        tools.push(tool("pbcopy", args0()));
    } else if str_eq(os, "linux") {
        tools.push(tool("xclip", args2("-selection", "clipboard")));
        tools.push(tool("xsel", args2("--clipboard", "--input")));
        tools.push(tool("wl-copy", args0()));
    }
    tools
}

/// How the run of an external utility ended.
#[derive(Clone, Debug, PartialEq, Eq)]
pub enum ToolRun {
    /// The utility is not installed.
    NotFound,
    /// The utility could not be started, or talking to it failed; with the
    /// system's own text.
    Failed(String),
    /// The utility ran and exited: whether it succeeded, how its exit status
    /// reads, and what it printed.
    Exited { success: bool, status: String, stdout: Vec<u8> },
}

/// The error of a run that did not succeed: a utility that is not installed
/// is a missing dependency, a failure of the system is an I/O error, and a
/// utility that exited unsuccessfully is reported with its exit status.
pub open spec fn tool_error_of(program: Seq<char>, run: ToolRun, e: CapError) -> bool {
    match run {
        ToolRun::NotFound => e matches CapError::DependencyMissing(m) && m@ == program + " not found"@,
        ToolRun::Failed(detail) => e matches CapError::Io(m) && m@ == detail@,
        ToolRun::Exited { status, .. } => e matches CapError::Other(m) && m@ == program + " exited with "@
            + status@,
    }
}

fn tool_error(program: &str, run: &ToolRun) -> (e: CapError)
    ensures
        tool_error_of(program@, *run, e),
{
    match run {
        ToolRun::NotFound => CapError::DependencyMissing(concat(program, " not found")),
        ToolRun::Failed(detail) => CapError::Io(detail.clone()),
        ToolRun::Exited { status, .. } => CapError::Other(concat3(program, " exited with ", status.as_str())),
    }
}

/// What the run of a utility that reads the clipboard amounts to: the text
/// that it printed where it succeeded, and its error otherwise.
pub open spec fn tool_read_of(program: Seq<char>, run: ToolRun, r: CapResult<String>) -> bool {
    match run {
        ToolRun::Exited { success: true, stdout, .. } => r is Ok && r->Ok_0@ == utf8_lossy(stdout@),
        _ => r is Err && tool_error_of(program, run, r->Err_0),
    }
}

/// Turns the run of a utility that reads the clipboard into its result.
pub fn tool_read_outcome(program: &str, run: ToolRun) -> (r: CapResult<String>)
    ensures
        tool_read_of(program@, run, r),
{
    match &run {
        ToolRun::Exited { success, stdout, .. } => {
            if *success {
                return Ok(lossy_text(stdout.as_slice()));
            }
        },
        _ => {},
    }
    Err(tool_error(program, &run))
}

/// What the run of a utility that writes the clipboard amounts to.
pub open spec fn tool_write_of(program: Seq<char>, run: ToolRun, r: CapResult<()>) -> bool {
    match run {
        ToolRun::Exited { success: true, .. } => r is Ok,
        _ => r is Err && tool_error_of(program, run, r->Err_0),
    }
}

/// Turns the run of a utility that writes the clipboard into its result.
pub fn tool_write_outcome(program: &str, run: ToolRun) -> (r: CapResult<()>)
    ensures
        tool_write_of(program@, run, r),
{
    match &run {
        ToolRun::Exited { success, .. } => {
            if *success {
                return Ok(());
            }
        },
        _ => {},
    }
    Err(tool_error(program, &run))
}

/// What the system clipboard does next.
#[derive(Debug, PartialEq, Eq)]
pub enum ClipboardStep<T> {
    /// Run the utility at this position of the list for the platform.
    Try(usize),
    /// Finish with this result.
    Done(CapResult<T>),
}

/// The next move of the system clipboard on a platform that has `tools`
/// utilities, `tried` of which have run, the last with the result
/// `previous`.
///
/// A platform without utilities is unsupported. A success ends the
/// operation. On a platform with one utility its failure ends the operation
/// too. On a platform with several, the next one is tried, and when all
/// have failed the operation ends with a missing dependency that names
/// `missing`.
pub open spec fn next_step_of<T>(
    tools: nat,
    tried: nat,
    previous: Option<CapResult<T>>,
    missing: Seq<char>,
    step: ClipboardStep<T>,
) -> bool {
    if tools == 0 {
        step matches ClipboardStep::Done(Err(CapError::Unsupported(m))) && m@
            == "clipboard not implemented for this OS"@
    } else {
        match previous {
            Some(Ok(v)) => step == ClipboardStep::Done(Ok::<T, CapError>(v)),
            Some(Err(e)) => if tools == 1 {
                step == ClipboardStep::Done(Err::<T, CapError>(e))
            } else if tried < tools {
                step == ClipboardStep::<T>::Try(tried as usize)
            } else {
                step matches ClipboardStep::Done(Err(CapError::DependencyMissing(m))) && m@ == missing
            },
            None => if tried < tools {
                step == ClipboardStep::<T>::Try(tried as usize)
            } else {
                step matches ClipboardStep::Done(Err(CapError::DependencyMissing(m))) && m@ == missing
            },
        }
    }
}

/// Decides the next move of the system clipboard.
pub fn next_step<T>(tools: usize, tried: usize, previous: Option<CapResult<T>>, missing: &str) -> (step:
    ClipboardStep<T>)
    ensures
        next_step_of(tools as nat, tried as nat, previous, missing@, step),
{
    if tools == 0 {
        return ClipboardStep::Done(Err(CapError::Unsupported("clipboard not implemented for this OS".to_string())));
    }
    match previous {
        Some(Ok(v)) => ClipboardStep::Done(Ok(v)),
        Some(Err(e)) => {
            if tools == 1 {
                ClipboardStep::Done(Err(e))
            } else if tried < tools {
                ClipboardStep::Try(tried)
            } else {
                ClipboardStep::Done(Err(CapError::DependencyMissing(missing.to_string())))
            }
        },
        None => {
            if tried < tools {
                ClipboardStep::Try(tried)
            } else {
                ClipboardStep::Done(Err(CapError::DependencyMissing(missing.to_string())))
            }
        },
    }
}

/// The next move of a read of the system clipboard on the operating system
/// `os`, after `tried` utilities have run, the last with the result
/// `previous`.
pub fn clipboard_read_step(os: &str, tried: usize, previous: Option<CapResult<String>>) -> (step: ClipboardStep<
    String,
>)
    ensures
        next_step_of(
            read_tools_of(os@).len(),
            tried as nat,
            previous,
            "none of xclip, xsel, or wl-paste found"@,
            step,
        ),
{
    let tools = clipboard_read_tools(os);
    assert(tools_view(tools@).len() == tools@.len());
    next_step(tools.len(), tried, previous, "none of xclip, xsel, or wl-paste found")
}

/// The next move of a write to the system clipboard on the operating system
/// `os`, after `tried` utilities have run, the last with the result
/// `previous`.
pub fn clipboard_write_step(os: &str, tried: usize, previous: Option<CapResult<()>>) -> (step: ClipboardStep<()>)
    ensures
        next_step_of(
            write_tools_of(os@).len(),
            tried as nat,
            previous,
            "none of xclip, xsel, or wl-copy found"@,
            step,
        ),
{
    let tools = clipboard_write_tools(os);
    assert(tools_view(tools@).len() == tools@.len());
    next_step(tools.len(), tried, previous, "none of xclip, xsel, or wl-copy found")
}

} // verus!
