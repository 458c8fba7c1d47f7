//! Wire-protocol data model: requests, notifications, responses, error
//! codes, handler outcomes, pool tasks and scheduling intents.
//!
//! The payload of a request or notification, and the success value of a
//! handler, are untyped JSON values; the dispatcher never looks inside
//! them, it only hands them to caller-supplied decoders and handlers.

use vstd::prelude::*;

verus! {

/// Conventional RPC error code: no handler claimed the request's method.
pub const METHOD_NOT_FOUND: i32 = -32601;

/// Conventional RPC error code: the payload did not decode to the
/// parameter shape the matched method expects.
pub const INVALID_PARAMS: i32 = -32602;

/// Conventional RPC error code: a handler failed in a way that carries no
/// protocol-level meaning of its own.
pub const INTERNAL_ERROR: i32 = -32603;

/// Implementation-defined RPC error code: the state a computation was
/// based on has moved on; used where a silent retry would be wrong.
pub const CONTENT_MODIFIED: i32 = -32801;

/// The untyped payload of serde_json. The dispatch core carries such
/// values through unchanged; decoding and encoding belong to the callers.
#[verifier::external_type_specification]
#[verifier::external_body]
pub struct ExValue(serde_json::Value);

/// Identifier correlating a request with its eventual response: either
/// numeric or textual, as the wire allows both.
#[derive(Debug, Clone, PartialEq, Eq)]
pub enum RequestId {
    Num(i64),
    Str(String),
}

impl RequestId {
    /// An owned copy, equal to the original as a value.
    pub fn duplicate(&self) -> (r: RequestId)
        ensures
            r == *self,
    {
        match self {
            RequestId::Num(n) => RequestId::Num(*n),
            RequestId::Str(s) => RequestId::Str(s.clone()),
        }
    }
}

/// An inbound remote call that expects exactly one response.
pub struct Request {
    pub id: RequestId,
    pub method: String,
    pub params: serde_json::Value,
}

/// An inbound fire-and-forget message: no identifier, no response owed.
pub struct Notification {
    pub method: String,
    pub params: serde_json::Value,
}

/// The error half of a wire response.
pub struct ResponseError {
    pub code: i32,
    pub message: String,
}

/// A wire-level response: a success value or an error, never both.
pub struct Response {
    pub id: RequestId,
    pub result: Option<serde_json::Value>,
    pub error: Option<ResponseError>,
}

/// A handler-raised error carrying an explicit wire code and message,
/// surfaced verbatim to the remote peer.
pub struct LspError {
    pub code: i32,
    pub message: String,
}

/// Cooperative cancellation: the basis of a computation is stale. Never
/// shown to the remote peer as an error.
pub struct Cancelled;

/// Everything a handler can fail with.
pub enum HandlerError {
    /// Typed protocol error; mapped 1:1 onto the wire.
    Lsp(LspError),
    /// Cancellation signal; becomes silence, a retry, or "content
    /// modified", depending on the dispatch strategy.
    Cancelled,
    /// Any other failure, with its textual description; mapped to an
    /// internal-error response.
    Other(String),
}

/// How a notification dispatch can fail. Notifications have no response
/// channel to carry an error back to the remote peer, so failures are
/// surfaced to the main loop's own error handling instead.
pub enum NotifyError {
    /// The payload did not decode to the matched method's parameter
    /// shape; carries the decoder's message.
    Decode(String),
    /// The handler itself failed.
    Handler(HandlerError),
}

/// What a failed handler outcome reads as in a diagnostic log.
pub open spec fn handler_error_text(e: HandlerError) -> Seq<char> {
    match e {
        HandlerError::Lsp(le) => le.message@,
        HandlerError::Cancelled => "cancelled"@,
        HandlerError::Other(m) => m@,
    }
}

impl HandlerError {
    /// The error's textual description, for logs.
    pub fn describe(&self) -> (r: String)
        ensures
            r@ == handler_error_text(*self),
    {
        match self {
            HandlerError::Lsp(le) => le.message.clone(),
            HandlerError::Cancelled => String::from_str("cancelled"),
            HandlerError::Other(m) => m.clone(),
        }
    }
}

/// Scheduling-priority hint attached to pool-submitted work. Purely a
/// scheduling matter, never a correctness one.
#[derive(Debug, Clone, Copy, PartialEq, Eq)]
pub enum ThreadIntent {
    Worker,
    LatencySensitive,
}

/// The unit of work a pool thread hands back to the main loop: either a
/// finished response to deliver, or the original request to redispatch
/// once state has moved forward.
pub enum Task {
    Response(Response),
    Retry(Request),
}

/// A pool submission: the task produced, tagged with the intent it was
/// scheduled under.
pub struct PoolTask {
    pub intent: ThreadIntent,
    pub task: Task,
}

/// A successful response: carries the identifier and the value, no error.
pub open spec fn is_ok_response(r: Response, id: RequestId, v: serde_json::Value) -> bool {
    &&& r.id == id
    &&& r.result == Some(v)
    &&& r.error is None
}

/// An error response: carries the identifier, a code and a message, and
/// no success value.
pub open spec fn is_err_response(r: Response, id: RequestId, code: i32, message: Seq<char>) -> bool {
    &&& r.id == id
    &&& r.result is None
    &&& r.error matches Some(e) && e.code == code && e.message@ == message
}

} // verus!
