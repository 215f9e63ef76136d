//! The request protocol of the daemon: one request document per line in,
//! one response out.

use vstd::prelude::*;

use crate::commands::{executed, CommandHandler, CommandRegistry};
use crate::context::AppContext;
use crate::doctor::{doctored, run_doctor};
use crate::host::HostView;
use crate::json::{json_document, parse_json, Json, JsonValue};
use crate::probes::{probed, run_probe};
use crate::text::{concat, starts_with, str_eq};
use crate::types::{DaemonRequest, DaemonResponse, ErrorCode, ErrorInfo, ErrorView, RequestView, ResponseView};

verus! {

/// The identifier of a response to a line from which no request, and so no
/// identifier, could be read.
pub open spec fn placeholder_id() -> Seq<char> {
    "unknown"@
}

/// The request that a document describes: an object with the texts `id` and
/// `method`, and with `params`, which are `null` where the member is
/// missing.
pub open spec fn request_read(doc: JsonValue) -> Result<RequestView, Seq<char>> {
    if !(doc is Object) {
        Err("request must be an object"@)
    } else {
        match doc.text_member("id"@) {
            None => Err("missing text field `id`"@),
            Some(id) => match doc.text_member("method"@) {
                None => Err("missing text field `method`"@),
                Some(method) => Ok(
                    RequestView {
                        id,
                        method,
                        params: match doc.member("params"@) {
                            Some(p) => p,
                            None => JsonValue::Null,
                        },
                    },
                ),
            },
        }
    }
}

/// Reads a request from its document.
pub fn request_from_json(doc: &Json) -> (r: Result<DaemonRequest, String>)
    ensures
        match r {
            Ok(req) => request_read(doc@) == Ok::<RequestView, Seq<char>>(req@),
            Err(m) => request_read(doc@) == Err::<RequestView, Seq<char>>(m@),
        },
{
    match doc {
        Json::Object(_) => {},
        _ => {
            return Err("request must be an object".to_string());
        },
    }
    let id = match doc.str_member("id") {
        Some(t) => t.to_string(),
        None => {
            return Err("missing text field `id`".to_string());
        },
    };
    let method = match doc.str_member("method") {
        Some(t) => t.to_string(),
        None => {
            return Err("missing text field `method`".to_string());
        },
    };
    let params = match doc.get("params") {
        Some(p) => p.clone(),
        None => Json::Null,
    };
    Ok(DaemonRequest { id, method, params })
}

/// The response that refuses a request as invalid input.
pub open spec fn refusal(id: Seq<char>, message: Seq<char>) -> ResponseView {
    ResponseView {
        id,
        result: None,
        error: Some(ErrorView { code: ErrorCode::InvalidInput, message, details: JsonValue::Null }),
    }
}

/// Builds the response that refuses a request as invalid input.
pub fn refuse(id: String, message: String) -> (resp: DaemonResponse)
    ensures
        resp@ == refusal(id@, message@),
{
    DaemonResponse {
        id,
        result: None,
        error: Some(ErrorInfo { code: ErrorCode::InvalidInput, message, details: Json::Null }),
    }
}

/// The command that a `call` request names: the text of `cmd`, and the
/// empty name where there is none.
pub open spec fn call_name(params: JsonValue) -> Seq<char> {
    match params.text_member("cmd"@) {
        Some(name) => name,
        None => Seq::empty(),
    }
}

/// The arguments of a `call` request: the member `args`, and the empty
/// object where there is none.
pub open spec fn call_args(params: JsonValue) -> JsonValue {
    match params.member("args"@) {
        Some(args) => args,
        None => JsonValue::Object(Seq::empty()),
    }
}

/// The probe that a `probe` request names: the text of `target`, and the
/// empty name where there is none.
pub open spec fn probe_target(params: JsonValue) -> Seq<char> {
    match params.text_member("target"@) {
        Some(name) => name,
        None => Seq::empty(),
    }
}

/// What the daemon answers to a request.
///
/// The identifier of the request is echoed. The methods `call`, `probe` and
/// `doctor` answer with the result of the command registry, the probe runner
/// and the doctor; every other method is refused as invalid input.
pub open spec fn dispatched(
    req: RequestView,
    commands: Map<Seq<char>, CommandHandler>,
    host: HostView,
    url: Seq<char>,
    resp: ResponseView,
) -> bool {
    &&& resp.id == req.id
    &&& if req.method == "call"@ {
        &&& resp.error is None
        &&& resp.result is Some
        &&& executed(commands, call_name(req.params), call_args(req.params), host, resp.result->Some_0)
    } else if req.method == "probe"@ {
        &&& resp.error is None
        &&& resp.result is Some
        &&& probed(probe_target(req.params), host, url, resp.result->Some_0)
    } else if req.method == "doctor"@ {
        &&& resp.error is None
        &&& resp.result is Some
        &&& doctored(host, resp.result->Some_0)
    } else {
        resp == refusal(req.id, "unknown method: "@ + req.method)
    }
}

/// Answers a request.
pub fn dispatch_request(req: DaemonRequest, ctx: &AppContext, registry: &CommandRegistry) -> (resp: DaemonResponse)
    ensures
        dispatched(req@, registry@, ctx.host@, ctx.network_probe_host@, resp@),
{
    let result = if str_eq(req.method.as_str(), "call") {
        let name = match req.params.str_member("cmd") {
            Some(name) => name,
            None => "",
        };
        let args = match req.params.get("args") {
            Some(args) => args.clone(),
            None => {
                let members: Vec<(String, Json)> = Vec::new();
                let empty = crate::json::object_of(members);
                assert(empty@->Object_0 =~= Seq::empty());
                empty
            },
        };
        proof {
            reveal_strlit("");
            assert(""@ =~= Seq::<char>::empty());
        }
        registry.execute(name, args, ctx)
    } else if str_eq(req.method.as_str(), "probe") {
        let target = match req.params.str_member("target") {
            Some(name) => name,
            None => "",
        };
        proof {
            reveal_strlit("");
            assert(""@ =~= Seq::<char>::empty());
        }
        run_probe(target, ctx)
    } else if str_eq(req.method.as_str(), "doctor") {
        run_doctor(&ctx.host)
    } else {
        let message = concat("unknown method: ", req.method.as_str());
        return refuse(req.id, message);
    };
    DaemonResponse { id: req.id, result: Some(result), error: None }
}

/// What the daemon answers to a line.
///
/// A line that is no JSON document, or whose document is no request, is
/// answered under the placeholder identifier with an invalid-input error
/// whose message begins with `invalid JSON request: `. Every other line is
/// answered as its request is.
pub open spec fn handled(
    line: Seq<char>,
    commands: Map<Seq<char>, CommandHandler>,
    host: HostView,
    url: Seq<char>,
    resp: ResponseView,
) -> bool {
    match json_document(line) {
        None => exists|message: Seq<char>|
            starts_with(message, "invalid JSON request: "@) && resp == #[trigger] refusal(placeholder_id(), message),
        Some(doc) => match request_read(doc) {
            Err(m) => resp == refusal(placeholder_id(), "invalid JSON request: "@ + m),
            Ok(req) => dispatched(req, commands, host, url, resp),
        },
    }
}

/// Answers one line of the daemon's input.
pub fn handle_request(line: &str, ctx: &AppContext, registry: &CommandRegistry) -> (resp: DaemonResponse)
    ensures
        handled(line@, registry@, ctx.host@, ctx.network_probe_host@, resp@),
{
    let doc = match parse_json(line) {
        Ok(doc) => doc,
        Err(m) => {
            let message = concat("invalid JSON request: ", m.as_str());
            assert(message@.take("invalid JSON request: "@.len() as int) =~= "invalid JSON request: "@);
            let resp = refuse("unknown".to_string(), message);
            assert(resp@ == refusal(placeholder_id(), message@));
            return resp;
        },
    };
    match request_from_json(&doc) {
        Ok(req) => dispatch_request(req, ctx, registry),
        Err(m) => refuse("unknown".to_string(), concat("invalid JSON request: ", m.as_str())),
    }
}

/// A response carries a result or an error, and never both.
pub proof fn lemma_response_has_one_outcome(
    line: Seq<char>,
    commands: Map<Seq<char>, CommandHandler>,
    host: HostView,
    url: Seq<char>,
    resp: ResponseView,
)
    requires
        handled(line, commands, host, url, resp),
    ensures
        resp.result is Some <==> resp.error is None,
{
}

/// Whatever cannot be answered as a request is invalid input.
pub proof fn lemma_refusals_are_invalid_input(
    line: Seq<char>,
    commands: Map<Seq<char>, CommandHandler>,
    host: HostView,
    url: Seq<char>,
    resp: ResponseView,
)
    requires
        handled(line, commands, host, url, resp),
        resp.error is Some,
    ensures
        resp.error->Some_0.code == ErrorCode::InvalidInput,
        json_document(line) is None ==> resp.id == placeholder_id(),
{
}

} // verus!
