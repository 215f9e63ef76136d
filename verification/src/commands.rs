//! The command registry: commands by name, and the contract under which any
//! of them is executed.

use vstd::prelude::*;

use crate::clock::elapsed_ms;
use crate::context::AppContext;
use crate::json::{members_view, object_of, push_member, Json, JsonValue};
use crate::paths::path_of;
use crate::text::{
    concat, decimal, decimal_text, lemma_text_lt_total, lemma_text_lt_transitive, lossy_text, str_eq, str_lt, text_lt,
    utf8_lossy,
};
use crate::traits::{cap_error_text, CapError, CapResult};
use crate::types::{
    env_of, err_view, is_run_id, new_run_id, ok_view, result_err, result_ok, CommandResult, EnvSummary, EnvView,
    ErrorCode, ResultView,
};
use std::time::Instant;

verus! {

/// Why a command failed.
#[derive(Clone, Debug, PartialEq, Eq)]
pub enum CommandError {
    InvalidInput(String),
    /// An I/O failure, with the text of the underlying error.
    Io(String),
    PermissionDenied(String),
    Other(String),
}

/// The code under which a command error is reported.
pub open spec fn command_error_code(e: CommandError) -> ErrorCode {
    match e {
        CommandError::InvalidInput(_) => ErrorCode::InvalidInput,
        CommandError::Io(_) => ErrorCode::IoError,
        CommandError::PermissionDenied(_) => ErrorCode::PermissionDenied,
        CommandError::Other(_) => ErrorCode::InternalError,
    }
}

/// The text that describes a command error.
pub open spec fn command_error_text(e: CommandError) -> Seq<char> {
    match e {
        CommandError::InvalidInput(m) => "invalid input: "@ + m@,
        CommandError::Io(m) => "io: "@ + m@,
        CommandError::PermissionDenied(m) => "permission denied: "@ + m@,
        CommandError::Other(m) => m@,
    }
}

impl CommandError {
    /// The code under which the error is reported.
    pub fn error_code(&self) -> (code: ErrorCode)
        ensures
            code == command_error_code(*self),
    {
        match self {
            CommandError::InvalidInput(_) => ErrorCode::InvalidInput,
            CommandError::Io(_) => ErrorCode::IoError,
            CommandError::PermissionDenied(_) => ErrorCode::PermissionDenied,
            CommandError::Other(_) => ErrorCode::InternalError,
        }
    }

    /// The text that describes the error.
    pub fn message(&self) -> (text: String)
        ensures
            text@ == command_error_text(*self),
    {
        match self {
            CommandError::InvalidInput(m) => concat("invalid input: ", m.as_str()),
            CommandError::Io(m) => concat("io: ", m.as_str()),
            CommandError::PermissionDenied(m) => concat("permission denied: ", m.as_str()),
            CommandError::Other(m) => m.clone(),
        }
    }
}

/// How a capability error is reported by a file command: permission and I/O
/// failures keep their kind, every other failure is internal and carries the
/// capability error's own text.
pub open spec fn file_error(e: CapError) -> (ErrorCode, Seq<char>) {
    match e {
        CapError::PermissionDenied(m) => (ErrorCode::PermissionDenied, "permission denied: "@ + m@),
        CapError::Io(m) => (ErrorCode::IoError, "io: "@ + m@),
        other => (ErrorCode::InternalError, cap_error_text(other)),
    }
}

/// Turns a capability error into the error of a file command.
pub fn file_command_error(e: CapError) -> (c: CommandError)
    ensures
        (command_error_code(c), command_error_text(c)) == file_error(e),
{
    match e {
        CapError::PermissionDenied(m) => CommandError::PermissionDenied(m),
        CapError::Io(m) => CommandError::Io(m),
        other => {
            let text = other.message();
            CommandError::Other(text)
        },
    }
}

/// The acknowledgement that `ping` returns.
pub open spec fn pong_payload() -> JsonValue {
    JsonValue::Object(seq![("pong"@, JsonValue::Bool(true))])
}

/// What `read_file` returns for a file of the given bytes: the text that the
/// bytes decode to, invalid sequences replaced, and the number of bytes.
pub open spec fn read_payload(bytes: Seq<u8>) -> JsonValue {
    JsonValue::Object(
        seq![
            ("content"@, JsonValue::String(utf8_lossy(bytes))),
            ("size_bytes"@, JsonValue::Number(decimal_text(bytes.len()))),
        ],
    )
}

/// What `write_file` returns after writing `n` bytes.
pub open spec fn write_payload(n: nat) -> JsonValue {
    JsonValue::Object(seq![("bytes_written"@, JsonValue::Number(decimal_text(n)))])
}

/// The error of a command that lacks a text argument.
pub open spec fn missing_field(e: CommandError, field: Seq<char>) -> bool {
    e matches CommandError::InvalidInput(m) && m@ == "missing '"@ + field + "' string field"@
}

fn missing(field: &str) -> (e: CommandError)
    ensures
        missing_field(e, field@),
{
    let mut m = String::from_str("missing '");
    m.append(field);
    m.append("' string field");
    CommandError::InvalidInput(m)
}

/// `ping`: returns `{"pong": true}` whatever it is given.
pub fn cmd_ping(args: Json, ctx: &AppContext) -> (r: Result<Json, CommandError>)
    ensures
        r is Ok,
        r->Ok_0@ == pong_payload(),
{
    let mut members: Vec<(String, Json)> = Vec::new();
    assert(members_view(members@) =~= Seq::empty());
    push_member(&mut members, "pong", Json::Bool(true));
    let j = object_of(members);
    assert(j@->Object_0 =~= seq![("pong"@, JsonValue::Bool(true))]);
    Ok(j)
}

/// What `read_file` makes of the outcome of the read.
pub open spec fn read_outcome(read: CapResult<Vec<u8>>, r: Result<Json, CommandError>) -> bool {
    match read {
        Ok(data) => r is Ok && r->Ok_0@ == read_payload(data@),
        Err(e) => r is Err && (command_error_code(r->Err_0), command_error_text(r->Err_0)) == file_error(e),
    }
}

/// Turns the outcome of reading a file into the result of `read_file`.
///
/// A file that holds valid UTF-8 is returned as the text it encodes.
pub fn read_file_outcome(read: CapResult<Vec<u8>>) -> (r: Result<Json, CommandError>)
    ensures
        read_outcome(read, r),
        read is Ok && vstd::utf8::valid_utf8(read->Ok_0@) ==> r->Ok_0@.text_member("content"@) == Some(
            vstd::utf8::decode_utf8(read->Ok_0@),
        ),
{
    match read {
        Ok(data) => {
            let content = lossy_text(data.as_slice());
            let size = decimal(data.len() as u64);
            let mut members: Vec<(String, Json)> = Vec::new();
            assert(members_view(members@) =~= Seq::empty());
            push_member(&mut members, "content", Json::String(content));
            push_member(&mut members, "size_bytes", Json::Number(size));
            let j = object_of(members);
            assert(j@->Object_0 =~= read_payload(data@)->Object_0);
            proof {
                let m = j@->Object_0;
                assert(m[0].0 == "content"@);
                reveal_with_fuel(crate::json::lookup, 2);
            }
            Ok(j)
        },
        Err(e) => Err(file_command_error(e)),
    }
}

/// What `read_file` may return for the given arguments: a refusal where the
/// arguments name no path, and otherwise what the read gave.
pub open spec fn read_file_returns(args: JsonValue, r: Result<Json, CommandError>) -> bool {
    match args.text_member("path"@) {
        None => r is Err && missing_field(r->Err_0, "path"@),
        Some(_) => exists|read: CapResult<Vec<u8>>| read_outcome(read, r),
    }
}

/// `read_file`: reads the file named by the text argument `path` and returns
/// its content as text with its size in bytes.
pub fn cmd_read_file(args: Json, ctx: &AppContext) -> (r: Result<Json, CommandError>)
    ensures
        read_file_returns(args@, r),
{
    let path_str = match args.str_member("path") {
        Some(p) => p,
        None => {
            return Err(missing("path"));
        },
    };
    let read = ctx.fs.read_file(path_of(path_str));
    let ghost seen = read;
    let r = read_file_outcome(read);
    assert(read_outcome(seen, r));
    r
}

/// What `write_file` makes of the outcome of writing `n` bytes.
pub open spec fn write_outcome(n: nat, written: CapResult<()>, r: Result<Json, CommandError>) -> bool {
    match written {
        Ok(_) => r is Ok && r->Ok_0@ == write_payload(n),
        Err(e) => r is Err && (command_error_code(r->Err_0), command_error_text(r->Err_0)) == file_error(e),
    }
}

/// Turns the outcome of writing `n` bytes into the result of `write_file`.
pub fn write_file_outcome(n: usize, written: CapResult<()>) -> (r: Result<Json, CommandError>)
    ensures
        write_outcome(n as nat, written, r),
{
    match written {
        Ok(_) => {
            let size = decimal(n as u64);
            let mut members: Vec<(String, Json)> = Vec::new();
            assert(members_view(members@) =~= Seq::empty());
            push_member(&mut members, "bytes_written", Json::Number(size));
            let j = object_of(members);
            assert(j@->Object_0 =~= write_payload(n as nat)->Object_0);
            Ok(j)
        },
        Err(e) => Err(file_command_error(e)),
    }
}

/// What `write_file` may return for the given arguments: a refusal that
/// names the first missing text argument, `path` before `content`, and
/// otherwise what writing the content's UTF-8 bytes gave.
pub open spec fn write_file_returns(args: JsonValue, r: Result<Json, CommandError>) -> bool {
    match args.text_member("path"@) {
        None => r is Err && missing_field(r->Err_0, "path"@),
        Some(_) => match args.text_member("content"@) {
            None => r is Err && missing_field(r->Err_0, "content"@),
            Some(content) => exists|written: CapResult<()>|
                write_outcome(vstd::utf8::encode_utf8(content).len(), written, r),
        },
    }
}

/// `write_file`: writes the text argument `content` to the file named by the
/// text argument `path` and returns the number of bytes written.
pub fn cmd_write_file(args: Json, ctx: &AppContext) -> (r: Result<Json, CommandError>)
    ensures
        write_file_returns(args@, r),
{
    let path_str = match args.str_member("path") {
        Some(p) => p,
        None => {
            return Err(missing("path"));
        },
    };
    let content = match args.str_member("content") {
        Some(c) => c,
        None => {
            return Err(missing("content"));
        },
    };
    let data = content.as_bytes();
    assert(data@ == vstd::utf8::encode_utf8(content@));
    assert(args@.text_member("content"@) == Some(content@));
    let written = ctx.fs.write_file(path_of(path_str), data);
    let ghost seen = written;
    let r = write_file_outcome(data.len(), written);
    assert(data.len() as nat == vstd::utf8::encode_utf8(content@).len());
    assert(write_outcome(vstd::utf8::encode_utf8(content@).len(), seen, r));
    assert(args@.text_member("path"@) is Some);
    assert(args@.text_member("content"@)->Some_0 == content@);
    assert(write_file_returns(args@, r));
    r
}

/// A command that a caller adds to the registry.
pub trait Command: Send + Sync {
    /// Runs the command on its arguments.
    fn run(&self, args: Json, ctx: &AppContext) -> Result<Json, CommandError>;
}

/// What the registry can run under a name: one of the built-in commands, or
/// a command of the caller's.
pub enum CommandHandler {
    Ping,
    ReadFile,
    WriteFile,
    Custom(Box<dyn Command>),
}

/// Which command a handler is.
#[derive(Clone, Copy, Debug, PartialEq, Eq)]
pub enum HandlerKind {
    Ping,
    ReadFile,
    WriteFile,
    Custom,
}

/// What a command of the given kind may return for the given arguments.
/// Nothing is known of what a caller's own command returns.
pub open spec fn may_return(kind: HandlerKind, args: JsonValue, r: Result<Json, CommandError>) -> bool {
    match kind {
        HandlerKind::Ping => r is Ok && r->Ok_0@ == pong_payload(),
        HandlerKind::ReadFile => read_file_returns(args, r),
        HandlerKind::WriteFile => write_file_returns(args, r),
        HandlerKind::Custom => true,
    }
}

impl CommandHandler {
    /// Which command this handler is.
    pub open spec fn kind(self) -> HandlerKind {
        match self {
            CommandHandler::Ping => HandlerKind::Ping,
            CommandHandler::ReadFile => HandlerKind::ReadFile,
            CommandHandler::WriteFile => HandlerKind::WriteFile,
            CommandHandler::Custom(_) => HandlerKind::Custom,
        }
    }

    /// Runs the command on its arguments.
    pub fn call(&self, args: Json, ctx: &AppContext) -> (r: Result<Json, CommandError>)
        ensures
            may_return(self.kind(), args@, r),
    {
        match self {
            CommandHandler::Ping => cmd_ping(args, ctx),
            CommandHandler::ReadFile => cmd_read_file(args, ctx),
            CommandHandler::WriteFile => cmd_write_file(args, ctx),
            CommandHandler::Custom(command) => command.run(args, ctx),
        }
    }
}

/// The result of a call: a pass that carries the payload, or an error with
/// the code and text of the command's error.
pub open spec fn call_view(
    name: Seq<char>,
    run_id: Seq<char>,
    total_ms: u64,
    env: EnvView,
    outcome: Result<Json, CommandError>,
) -> ResultView {
    match outcome {
        Ok(data) => ResultView { data: Some(data@), ..ok_view("call"@, name, run_id, total_ms, env) },
        Err(e) => err_view("call"@, name, run_id, total_ms, command_error_code(e), command_error_text(e), env),
    }
}

/// Turns what a command returned into the result of the call.
pub fn call_result(name: &str, run_id: &str, total_ms: u64, env: EnvSummary, outcome: Result<Json, CommandError>) -> (r:
    CommandResult)
    ensures
        r@ == call_view(name@, run_id@, total_ms, env@, outcome),
{
    match outcome {
        Ok(data) => {
            let mut r = result_ok("call", name, run_id, total_ms, env);
            r.data = Some(data);
            r
        },
        Err(e) => {
            let code = e.error_code();
            let text = e.message();
            result_err("call", name, run_id, total_ms, code, text, env)
        },
    }
}

/// The names that a list of registrations maps, each to its latest handler.
pub open spec fn registered(entries: Seq<(Seq<char>, CommandHandler)>) -> Map<Seq<char>, CommandHandler>
    decreases entries.len(),
{
    if entries.len() == 0 {
        Map::empty()
    } else {
        registered(entries.drop_last()).insert(entries.last().0, entries.last().1)
    }
}

/// The registry as it is on creation: the three built-in commands.
pub open spec fn builtin_commands() -> Map<Seq<char>, CommandHandler> {
    Map::empty().insert("ping"@, CommandHandler::Ping).insert("read_file"@, CommandHandler::ReadFile).insert(
        "write_file"@,
        CommandHandler::WriteFile,
    )
}

/// What `execute` returns for a command name, its arguments and the host of
/// the context, over a registry that maps `commands`.
///
/// The run identifier is fresh and has the shape of a version 4 UUID. An
/// unknown name is an invalid-input error with zero elapsed time. A known
/// name gives the result of the call, for what its handler returned and the
/// time that it took.
pub open spec fn executed(
    commands: Map<Seq<char>, CommandHandler>,
    name: Seq<char>,
    args: JsonValue,
    host: crate::host::HostView,
    r: ResultView,
) -> bool {
    &&& is_run_id(r.run_id)
    &&& if commands.contains_key(name) {
        exists|total_ms: u64, outcome: Result<Json, CommandError>|
            may_return(commands[name].kind(), args, outcome) && r == #[trigger] call_view(
                name,
                r.run_id,
                total_ms,
                env_of(host),
                outcome,
            )
    } else {
        r == err_view(
            "call"@,
            name,
            r.run_id,
            0,
            ErrorCode::InvalidInput,
            "unknown command: "@ + name,
            env_of(host),
        )
    }
}

/// Commands by name.
pub struct CommandRegistry {
    handlers: Vec<(String, CommandHandler)>,
}

impl CommandRegistry {
    /// The registrations in the order in which they were made.
    pub closed spec fn entries(&self) -> Seq<(Seq<char>, CommandHandler)> {
        Seq::new(self.handlers@.len(), |i: int| (self.handlers@[i].0@, self.handlers@[i].1))
    }
}

impl View for CommandRegistry {
    type V = Map<Seq<char>, CommandHandler>;

    /// The mapping from command name to its handler.
    closed spec fn view(&self) -> Map<Seq<char>, CommandHandler> {
        registered(self.entries())
    }
}

impl CommandRegistry {
    /// A registry that holds the built-in commands `ping`, `read_file` and
    /// `write_file`.
    pub fn new() -> (reg: Self)
        ensures
            reg@ == builtin_commands(),
    {
        let mut reg = CommandRegistry { handlers: Vec::new() };
        assert(reg.entries() =~= Seq::empty());
        reg.register("ping", CommandHandler::Ping);
        reg.register("read_file", CommandHandler::ReadFile);
        reg.register("write_file", CommandHandler::WriteFile);
        reg
    }

    /// Registers `handler` under `name`, in place of any handler that the
    /// name had. The registry then holds the very handler that it was
    /// given.
    pub fn register(&mut self, name: &str, handler: CommandHandler)
        ensures
            final(self)@ == old(self)@.insert(name@, handler),
    {
        let ghost before = self.entries();
        self.handlers.push((name.to_string(), handler));
        proof {
            let after = self.entries();
            assert(after.drop_last() =~= before);
            assert(after.last() == (name@, handler));
        }
    }

    /// The handler registered under `name`.
    fn find(&self, name: &str) -> (found: Option<&CommandHandler>)
        ensures
            match found {
                Some(h) => self@.contains_key(name@) && self@[name@] == *h,
                None => !self@.contains_key(name@),
            },
    {
        let ghost all = self.entries();
        let mut i: usize = self.handlers.len();
        proof {
            assert(all.take(i as int) =~= all);
        }
        while i > 0
            invariant
                i <= self.handlers.len(),
                all == self.entries(),
                all.len() == self.handlers@.len(),
                registered(all).contains_key(name@) == registered(all.take(i as int)).contains_key(name@),
                registered(all).contains_key(name@) ==> registered(all)[name@] == registered(all.take(i as int))[name@],
            decreases i,
        {
            let ghost head = all.take(i as int);
            assert(head.last() == all[i - 1]);
            assert(head.drop_last() =~= all.take(i - 1));
            if str_eq(self.handlers[i - 1].0.as_str(), name) {
                return Some(&self.handlers[i - 1].1);
            }
            i -= 1;
        }
        assert(all.take(0).len() == 0);
        None
    }

    /// Executes the command registered under `name` and returns its full
    /// result.
    pub fn execute(&self, name: &str, args: Json, ctx: &AppContext) -> (r: CommandResult)
        ensures
            executed(self@, name@, args@, ctx.host@, r@),
    {
        let run_id = new_run_id();
        let start = Instant::now();
        let env = EnvSummary::of(&ctx.host);
        match self.find(name) {
            None => {
                let text = concat("unknown command: ", name);
                result_err("call", name, run_id.as_str(), 0, ErrorCode::InvalidInput, text, env)
            },
            Some(handler) => {
                let outcome = handler.call(args, ctx);
                let total_ms = elapsed_ms(&start);
                let ghost seen = outcome;
                let r = call_result(name, run_id.as_str(), total_ms, env, outcome);
                assert(r@ == call_view(name@, r@.run_id, total_ms, env_of(ctx.host@), seen));
                r
            },
        }
    }
}

/// A command that its registry does not know fails as invalid input.
pub proof fn lemma_unknown_command_is_error(
    commands: Map<Seq<char>, CommandHandler>,
    name: Seq<char>,
    args: JsonValue,
    host: crate::host::HostView,
    r: ResultView,
)
    requires
        executed(commands, name, args, host, r),
        !commands.contains_key(name),
    ensures
        r.status == crate::types::Status::Error,
        r.error is Some,
        r.error->Some_0.code == ErrorCode::InvalidInput,
        r.data is None,
        r.timing.total == 0,
{
}

/// `ping` passes with its acknowledgement, whatever its arguments.
pub proof fn lemma_ping_passes(
    commands: Map<Seq<char>, CommandHandler>,
    name: Seq<char>,
    args: JsonValue,
    host: crate::host::HostView,
    r: ResultView,
)
    requires
        executed(commands, name, args, host, r),
        commands.contains_key(name),
        commands[name] is Ping,
    ensures
        r.status == crate::types::Status::Pass,
        r.error is None,
        r.data == Some(pong_payload()),
{
}

/// A call passes or is an error, never anything else; it passes exactly when
/// it carries no error, and then it carries a payload.
pub proof fn lemma_call_passes_or_errs(
    commands: Map<Seq<char>, CommandHandler>,
    name: Seq<char>,
    args: JsonValue,
    host: crate::host::HostView,
    r: ResultView,
)
    requires
        executed(commands, name, args, host, r),
    ensures
        r.status == crate::types::Status::Pass || r.status == crate::types::Status::Error,
        r.status == crate::types::Status::Pass <==> r.error is None,
        r.status == crate::types::Status::Pass <==> r.data is Some,
        r.command == "call"@,
        r.target == name,
        is_run_id(r.run_id),
        r.env == env_of(host),
{
}

/// Whether a list of names holds the name `n`.
pub open spec fn holds_name(names: Seq<String>, n: Seq<char>) -> bool {
    exists|i: int| 0 <= i < names.len() && (#[trigger] names[i])@ == n
}

/// Whether one of the first `k` registrations is for the name `n`.
pub open spec fn names_entry(entries: Seq<(Seq<char>, CommandHandler)>, k: int, n: Seq<char>) -> bool {
    exists|j: int| 0 <= j < k && (#[trigger] entries[j]).0 == n
}

/// A list of names in ascending order, no name twice.
pub open spec fn ascending(names: Seq<String>) -> bool {
    forall|i: int, j: int| 0 <= i < j < names.len() ==> text_lt(#[trigger] names[i]@, #[trigger] names[j]@)
}

/// A name is mapped exactly when a registration is for it.
pub proof fn lemma_registered_names(entries: Seq<(Seq<char>, CommandHandler)>, n: Seq<char>)
    ensures
        registered(entries).contains_key(n) <==> names_entry(entries, entries.len() as int, n),
    decreases entries.len(),
{
    if entries.len() > 0 {
        let front = entries.drop_last();
        lemma_registered_names(front, n);
        if names_entry(front, front.len() as int, n) {
            let j = choose|j: int| 0 <= j < front.len() && (#[trigger] front[j]).0 == n;
            assert(entries[j].0 == n);
        }
        if names_entry(entries, entries.len() as int, n) {
            let j = choose|j: int| 0 <= j < entries.len() && (#[trigger] entries[j]).0 == n;
            if j < front.len() {
                assert(front[j].0 == n);
            }
        }
        if entries.last().0 == n {
            assert(entries[entries.len() - 1].0 == n);
        }
    }
}

impl CommandRegistry {
    /// The names of the commands, in ascending order: each name that is
    /// registered, once.
    pub fn list(&self) -> (names: Vec<String>)
        ensures
            ascending(names@),
            forall|n: Seq<char>| self@.contains_key(n) <==> holds_name(names@, n),
    {
        let ghost entries = self.entries();
        let mut out: Vec<String> = Vec::new();
        let mut k: usize = 0;
        while k < self.handlers.len()
            invariant
                k <= self.handlers.len(),
                entries == self.entries(),
                entries.len() == self.handlers@.len(),
                ascending(out@),
                forall|n: Seq<char>| names_entry(entries, k as int, n) <==> holds_name(out@, n),
            decreases self.handlers.len() - k,
        {
            let name = self.handlers[k].0.as_str();
            assert(entries[k as int].0 == name@);
            let mut p: usize = 0;
            while p < out.len() && str_lt(out[p].as_str(), name)
                invariant
                    p <= out.len(),
                    forall|i: int| 0 <= i < p ==> text_lt(#[trigger] out@[i]@, name@),
                decreases out.len() - p,
            {
                p += 1;
            }
            let ghost before = out@;
            if p < out.len() && str_eq(out[p].as_str(), name) {
                assert(holds_name(out@, name@));
                assert forall|n: Seq<char>| names_entry(entries, k + 1, n) <==> holds_name(out@, n) by {
                    if names_entry(entries, k + 1, n) {
                        let j = choose|j: int| 0 <= j < k + 1 && (#[trigger] entries[j]).0 == n;
                        if j < k {
                            assert(names_entry(entries, k as int, n));
                        }
                    }
                    if holds_name(out@, n) {
                        assert(names_entry(entries, k as int, n));
                        let j = choose|j: int| 0 <= j < k && (#[trigger] entries[j]).0 == n;
                        assert(0 <= j < k + 1 && entries[j].0 == n);
                    }
                }
            } else {
                let fresh = name.to_string();
                out.insert(p, fresh);
                proof {
                    assert forall|j: int| p <= j < before.len() implies text_lt(name@, #[trigger] before[j]@) by {
                        lemma_text_lt_total(before[p as int]@, name@);
                        if j > p {
                            lemma_text_lt_transitive(name@, before[p as int]@, before[j]@);
                        }
                    }
                    assert forall|i: int, j: int| 0 <= i < j < out@.len() implies text_lt(
                        #[trigger] out@[i]@,
                        #[trigger] out@[j]@,
                    ) by {
                        if j < p {
                            assert(out@[i] == before[i] && out@[j] == before[j]);
                        } else if j == p {
                            assert(out@[i] == before[i]);
                        } else if i < p {
                            assert(out@[i] == before[i] && out@[j] == before[j - 1]);
                        } else if i == p {
                            assert(out@[j] == before[j - 1]);
                        } else {
                            assert(out@[i] == before[i - 1] && out@[j] == before[j - 1]);
                        }
                    }
                    assert forall|n: Seq<char>| names_entry(entries, k + 1, n) <==> holds_name(out@, n) by {
                        if names_entry(entries, k + 1, n) {
                            let j = choose|j: int| 0 <= j < k + 1 && (#[trigger] entries[j]).0 == n;
                            if j < k {
                                assert(names_entry(entries, k as int, n));
                                assert(holds_name(before, n));
                                let i = choose|i: int| 0 <= i < before.len() && (#[trigger] before[i])@ == n;
                                if i < p {
                                    assert(out@[i]@ == n);
                                } else {
                                    assert(out@[i + 1]@ == n);
                                }
                            } else {
                                assert(out@[p as int]@ == n);
                            }
                        }
                        if holds_name(out@, n) {
                            let i = choose|i: int| 0 <= i < out@.len() && (#[trigger] out@[i])@ == n;
                            if i < p {
                                assert(before[i]@ == n);
                                assert(holds_name(before, n));
                            } else if i == p {
                                assert(entries[k as int].0 == n);
                            } else {
                                assert(before[i - 1]@ == n);
                                assert(holds_name(before, n));
                            }
                            if holds_name(before, n) {
                                assert(names_entry(entries, k as int, n));
                                let j = choose|j: int| 0 <= j < k && (#[trigger] entries[j]).0 == n;
                                assert(0 <= j < k + 1 && entries[j].0 == n);
                            }
                        }
                    }
                }
            }
            k += 1;
        }
        proof {
            assert forall|n: Seq<char>| self@.contains_key(n) <==> holds_name(out@, n) by {
                lemma_registered_names(entries, n);
            }
        }
        out
    }
}

impl Default for CommandRegistry {
    /// The registry of the built-in commands.
    fn default() -> (reg: Self)
        ensures
            reg@ == builtin_commands(),
    {
        CommandRegistry::new()
    }
}

} // verus!
