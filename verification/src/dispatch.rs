//! The dispatcher: one incoming tool call in, exactly one response out.
//!
//! A call names a tool and carries an untyped argument map. Dispatch looks
//! the name up in the registry (`ToolNotFound` on a miss), decodes the
//! arguments against the tool's schema (`ArgumentDecode` on a failure),
//! invokes the handler, and maps the handler's outcome, success or typed
//! failure, into a structured response. Failures are per call: every path
//! returns a response, none panics.

use vstd::prelude::*;

use crate::decode::decode_args;
use crate::decode::spec_decode;
use crate::decode::DecodeCause;
use crate::registry::find_index;
use crate::registry::Registry;
use crate::registry::ToolEntry;
use crate::value::arg_map_view;
use crate::value::ArgValue;
use crate::value::Val;

verus! {

/// An incoming call: the tool's name and the untyped arguments.
#[derive(Debug, PartialEq, Eq)]
pub struct ToolCallRequest {
    pub tool_name: String,
    pub arguments: Vec<(String, ArgValue)>,
}

/// One unit of rendered output handed back to the transport.
#[derive(Debug, PartialEq, Eq)]
pub enum ContentBlock {
    Text(String),
}

/// The mathematical model of a content block.
pub enum ContentV {
    Text(Seq<char>),
}

impl View for ContentBlock {
    type V = ContentV;

    open spec fn view(&self) -> ContentV {
        match self {
            ContentBlock::Text(s) => ContentV::Text(s@),
        }
    }
}

/// The models of a sequence of content blocks, in order.
pub open spec fn blocks_view(blocks: Seq<ContentBlock>) -> Seq<ContentV> {
    Seq::new(blocks.len(), |i: int| blocks[i]@)
}

/// The stable, machine-readable kind of a per-call failure.
#[derive(Clone, Copy, PartialEq, Eq, Structural, Debug)]
pub enum ErrorKind {
    ToolNotFound,
    ArgumentDecode,
    Credential,
    Network,
    Handler,
}

/// A failure raised while serving one call, after lookup and decoding: a
/// missing credential, a failed downstream request, or an unexpected
/// handler-internal failure, each with a human-readable message.
#[derive(Debug, PartialEq, Eq)]
pub enum ToolError {
    Credential(String),
    Network(String),
    Handler(String),
}

/// The mathematical model of a handler-side failure.
pub enum ToolErrorV {
    Credential(Seq<char>),
    Network(Seq<char>),
    Handler(Seq<char>),
}

impl View for ToolError {
    type V = ToolErrorV;

    open spec fn view(&self) -> ToolErrorV {
        match self {
            ToolError::Credential(m) => ToolErrorV::Credential(m@),
            ToolError::Network(m) => ToolErrorV::Network(m@),
            ToolError::Handler(m) => ToolErrorV::Handler(m@),
        }
    }
}

/// The response to one call: rendered content, or a kind plus message.
#[derive(Debug, PartialEq, Eq)]
pub enum ToolResponse {
    Success(Vec<ContentBlock>),
    Failure { kind: ErrorKind, message: String },
}

/// The mathematical model of a response.
pub enum RespV {
    Success(Seq<ContentV>),
    Failure(ErrorKind, Seq<char>),
}

impl View for ToolResponse {
    type V = RespV;

    open spec fn view(&self) -> RespV {
        match self {
            ToolResponse::Success(blocks) => RespV::Success(blocks_view(blocks@)),
            ToolResponse::Failure { kind, message } => RespV::Failure(*kind, message@),
        }
    }
}

/// The label under which a failure kind travels on the wire.
pub open spec fn spec_kind_label(k: ErrorKind) -> Seq<char> {
    match k {
        ErrorKind::ToolNotFound => "tool_not_found"@,
        ErrorKind::ArgumentDecode => "argument_decode"@,
        ErrorKind::Credential => "credential"@,
        ErrorKind::Network => "network"@,
        ErrorKind::Handler => "handler"@,
    }
}

/// The label under which a failure kind travels on the wire.
pub fn kind_label(k: ErrorKind) -> (r: &'static str)
    ensures
        r@ == spec_kind_label(k),
{
    match k {
        ErrorKind::ToolNotFound => "tool_not_found",
        ErrorKind::ArgumentDecode => "argument_decode",
        ErrorKind::Credential => "credential",
        ErrorKind::Network => "network",
        ErrorKind::Handler => "handler",
    }
}

/// The message of a response to a call that named no registered tool.
pub open spec fn not_found_message(name: Seq<char>) -> Seq<char> {
    "unknown tool: "@ + name
}

/// The message of a response to a call whose arguments did not decode.
pub open spec fn decode_message(field: Seq<char>, cause: DecodeCause) -> Seq<char> {
    match cause {
        DecodeCause::MissingRequired => "missing required field: "@ + field,
        DecodeCause::TypeMismatch => "wrong type for field: "@ + field,
        DecodeCause::OutOfEnum => "value not allowed for field: "@ + field,
    }
}

/// The kind under which a handler-side failure is reported.
pub open spec fn error_kind_of(e: ToolErrorV) -> ErrorKind {
    match e {
        ToolErrorV::Credential(_) => ErrorKind::Credential,
        ToolErrorV::Network(_) => ErrorKind::Network,
        ToolErrorV::Handler(_) => ErrorKind::Handler,
    }
}

/// The message a handler-side failure carries.
pub open spec fn error_message_of(e: ToolErrorV) -> Seq<char> {
    match e {
        ToolErrorV::Credential(m) => m,
        ToolErrorV::Network(m) => m,
        ToolErrorV::Handler(m) => m,
    }
}

/// The model of a handler outcome.
pub open spec fn outcome_view(o: Result<Vec<ContentBlock>, ToolError>) -> Result<
    Seq<ContentV>,
    ToolErrorV,
> {
    match o {
        Result::Ok(blocks) => Result::Ok(blocks_view(blocks@)),
        Result::Err(e) => Result::Err(e@),
    }
}

/// The response owed to a handler outcome: success verbatim, failure under
/// its kind with its message preserved.
pub open spec fn response_for_outcome(o: Result<Seq<ContentV>, ToolErrorV>) -> RespV {
    match o {
        Result::Ok(content) => RespV::Success(content),
        Result::Err(e) => RespV::Failure(error_kind_of(e), error_message_of(e)),
    }
}

/// The rejection a call earns before any handler runs: a `ToolNotFound`
/// failure for an unregistered name, an `ArgumentDecode` failure for
/// arguments that do not decode, and nothing for a call that is ready.
pub open spec fn spec_rejection<H>(
    entries: Seq<ToolEntry<H>>,
    name: Seq<char>,
    args: Seq<(Seq<char>, Val)>,
) -> Option<RespV> {
    match find_index(entries, name) {
        Option::None => Option::Some(
            RespV::Failure(ErrorKind::ToolNotFound, not_found_message(name)),
        ),
        Option::Some(i) => match spec_decode(entries[i].schema@, args) {
            Result::Err((f, c)) => Option::Some(
                RespV::Failure(ErrorKind::ArgumentDecode, decode_message(f, c)),
            ),
            Result::Ok(_) => Option::None,
        },
    }
}

/// The response owed to a call, as a function of the registry, the request,
/// and the outcome the tool's handler produces on the decoded arguments.
pub open spec fn spec_dispatch<H>(
    entries: Seq<ToolEntry<H>>,
    name: Seq<char>,
    args: Seq<(Seq<char>, Val)>,
    outcome: Result<Seq<ContentV>, ToolErrorV>,
) -> RespV {
    match find_index(entries, name) {
        Option::None => RespV::Failure(ErrorKind::ToolNotFound, not_found_message(name)),
        Option::Some(i) => match spec_decode(entries[i].schema@, args) {
            Result::Err((f, c)) => RespV::Failure(ErrorKind::ArgumentDecode, decode_message(f, c)),
            Result::Ok(_) => response_for_outcome(outcome),
        },
    }
}

/// Dispatching the same well-formed request twice against the same registry
/// yields identical responses, provided the handler's outcome is a function
/// of the decoded arguments alone (a handler with no side effects).
pub proof fn lemma_dispatch_idempotent<H>(
    entries: Seq<ToolEntry<H>>,
    name: Seq<char>,
    args: Seq<(Seq<char>, Val)>,
    first: Result<Seq<ContentV>, ToolErrorV>,
    second: Result<Seq<ContentV>, ToolErrorV>,
)
    requires
        first == second,
    ensures
        spec_dispatch(entries, name, args, first) == spec_dispatch(entries, name, args, second),
{
}

/// The logic implementing one tool: decoded arguments in, content blocks or
/// a typed failure out. Handlers that reach outside collaborators receive
/// them at construction; the dispatcher itself injects nothing ambient.
pub trait ToolHandler {
    fn handle(&self, args: Vec<(String, ArgValue)>) -> Result<Vec<ContentBlock>, ToolError>;
}

/// A call after lookup and decoding: ready for its handler, or already
/// answered by a failure response.
pub enum PreparedCall<'a, H> {
    Ready(&'a ToolEntry<H>, Vec<(String, ArgValue)>),
    Rejected(ToolResponse),
}

/// The failure response to a call that named no registered tool.
pub fn not_found_response(name: &str) -> (r: ToolResponse)
    ensures
        r@ == RespV::Failure(ErrorKind::ToolNotFound, not_found_message(name@)),
{
    let mut message = String::from_str("unknown tool: ");
    message.append(name);
    ToolResponse::Failure { kind: ErrorKind::ToolNotFound, message }
}

/// The failure response to a call whose arguments did not decode.
pub fn decode_failure_response(field: &str, cause: DecodeCause) -> (r: ToolResponse)
    ensures
        r@ == RespV::Failure(ErrorKind::ArgumentDecode, decode_message(field@, cause)),
{
    let mut message = match cause {
        DecodeCause::MissingRequired => String::from_str("missing required field: "),
        DecodeCause::TypeMismatch => String::from_str("wrong type for field: "),
        DecodeCause::OutOfEnum => String::from_str("value not allowed for field: "),
    };
    message.append(field);
    ToolResponse::Failure { kind: ErrorKind::ArgumentDecode, message }
}

/// Look the tool up and decode the arguments: the first two steps of
/// dispatch, shared by every way of running a handler.
pub fn prepare_call<'a, H>(reg: &'a Registry<H>, req: ToolCallRequest) -> (r: PreparedCall<
    'a,
    H,
>)
    ensures
        match r {
            PreparedCall::Ready(e, dec) => find_index(reg.entries@, req.tool_name@) matches Some(i)
                && (*e == reg.entries@[i] && spec_decode(
                reg.entries@[i].schema@,
                arg_map_view(req.arguments@),
            ) is Ok && arg_map_view(dec@) == spec_decode(
                reg.entries@[i].schema@,
                arg_map_view(req.arguments@),
            )->Ok_0),
            PreparedCall::Rejected(resp) => spec_rejection(
                reg.entries@,
                req.tool_name@,
                arg_map_view(req.arguments@),
            ) matches Some(v) && resp@ == v,
        },
{
    let entry = match reg.lookup(req.tool_name.as_str()) {
        None => {
            return PreparedCall::Rejected(not_found_response(req.tool_name.as_str()));
        },
        Some(e) => e,
    };
    match decode_args(&entry.schema, req.arguments) {
        Ok(dec) => PreparedCall::Ready(entry, dec),
        Err(e) => PreparedCall::Rejected(
            decode_failure_response(e.field.as_str(), e.cause),
        ),
    }
}

/// Map a handler outcome to the response owed for it: content wrapped as
/// success, a typed failure under its kind with its message preserved.
pub fn respond(outcome: Result<Vec<ContentBlock>, ToolError>) -> (r: ToolResponse)
    ensures
        r@ == response_for_outcome(outcome_view(outcome)),
{
    match outcome {
        Ok(blocks) => ToolResponse::Success(blocks),
        Err(ToolError::Credential(m)) => ToolResponse::Failure {
            kind: ErrorKind::Credential,
            message: m,
        },
        Err(ToolError::Network(m)) => ToolResponse::Failure {
            kind: ErrorKind::Network,
            message: m,
        },
        Err(ToolError::Handler(m)) => ToolResponse::Failure {
            kind: ErrorKind::Handler,
            message: m,
        },
    }
}

/// Serve one call with a synchronous handler: look up, decode, invoke, and
/// answer. Every path returns exactly one response; an unregistered name and
/// an argument failure are answered exactly, and a handler outcome is
/// answered by `response_for_outcome`.
pub fn dispatch<H: ToolHandler>(reg: &Registry<H>, req: ToolCallRequest) -> (r: ToolResponse)
    ensures
        find_index(reg.entries@, req.tool_name@) is None ==> r@ == RespV::Failure(
            ErrorKind::ToolNotFound,
            not_found_message(req.tool_name@),
        ),
        spec_rejection(reg.entries@, req.tool_name@, arg_map_view(req.arguments@)) matches Some(v)
            ==> r@ == v,
        exists|o: Result<Seq<ContentV>, ToolErrorV>|
            r@ == spec_dispatch(
                reg.entries@,
                req.tool_name@,
                arg_map_view(req.arguments@),
                o,
            ),
{
    let ghost name_v = req.tool_name@;
    let ghost args_v = arg_map_view(req.arguments@);
    match prepare_call(reg, req) {
        PreparedCall::Rejected(resp) => {
            proof {
                let o = Result::<Seq<ContentV>, ToolErrorV>::Ok(Seq::empty());
                assert(resp@ == spec_dispatch(reg.entries@, name_v, args_v, o));
            }
            resp
        },
        PreparedCall::Ready(entry, dec) => {
            let outcome = entry.handler.handle(dec);
            let ghost o = outcome_view(outcome);
            let resp = respond(outcome);
            proof {
                assert(resp@ == spec_dispatch(reg.entries@, name_v, args_v, o));
            }
            resp
        },
    }
}

/// Resolve a credential handed in by the surrounding runtime: the dispatcher
/// step that turns an absent token into a `Credential` failure, with the
/// given message, before a handler runs.
pub fn resolve_token(token: Option<String>, missing_message: &str) -> (r: Result<
    String,
    ToolError,
>)
    ensures
        match r {
            Ok(t) => token matches Some(given) && t == given,
            Err(e) => token is None && e@ == ToolErrorV::Credential(missing_message@),
        },
{
    match token {
        Some(t) => Ok(t),
        None => Err(ToolError::Credential(String::from_str(missing_message))),
    }
}

} // verus!
