//! Mapping handler outcomes onto wire responses.
//!
//! This is the single seam where a handler's outcome becomes visible on
//! the wire — or deliberately invisible, for cancellation, which is
//! propagated outward as a distinguished non-response value and never
//! serialized.

use vstd::prelude::*;

use crate::protocol::{
    Cancelled, HandlerError, LspError, RequestId, Response, ResponseError,
    is_err_response, CONTENT_MODIFIED, INTERNAL_ERROR,
};

verus! {

/// What the outcome mapping yields: a success response for a success
/// value, a verbatim error response for a typed protocol error, the
/// cancellation signal unchanged for cancellation, and an internal-error
/// response carrying the failure's description for anything else.
pub open spec fn spec_result_to_response(
    id: RequestId,
    result: Result<serde_json::Value, HandlerError>,
) -> Result<Response, Cancelled> {
    match result {
        Ok(v) => Ok((Response { id, result: Some(v), error: None })),
        Err(HandlerError::Lsp(e)) => Ok(
            (Response {
                id,
                result: None,
                error: Some((ResponseError { code: e.code, message: e.message })),
            }),
        ),
        Err(HandlerError::Cancelled) => Err(Cancelled),
        Err(HandlerError::Other(m)) => Ok(
            (Response {
                id,
                result: None,
                error: Some((ResponseError { code: INTERNAL_ERROR, message: m })),
            }),
        ),
    }
}

/// Turn a handler outcome into a wire response, or hand the cancellation
/// signal outward untouched. Identical for every dispatch strategy.
pub fn result_to_response(
    id: RequestId,
    result: Result<serde_json::Value, HandlerError>,
) -> (r: Result<Response, Cancelled>)
    ensures
        r == spec_result_to_response(id, result),
{
    match result {
        Ok(v) => Ok(Response { id, result: Some(v), error: None }),
        Err(HandlerError::Lsp(e)) => Ok(Response {
            id,
            result: None,
            error: Some(ResponseError { code: e.code, message: e.message }),
        }),
        Err(HandlerError::Cancelled) => Err(Cancelled),
        Err(HandlerError::Other(m)) => Ok(Response {
            id,
            result: None,
            error: Some(ResponseError { code: INTERNAL_ERROR, message: m }),
        }),
    }
}

/// The description a crashed handler's panic payload yields: a fixed
/// prefix, then the payload's message where one was recovered.
pub open spec fn spec_panic_message(payload: Option<String>) -> Seq<char> {
    match payload {
        Some(m) => "request handler panicked"@ + ": "@ + m@,
        None => "request handler panicked"@,
    }
}

/// Map the result of running a handler inside a fault boundary: a caught
/// crash (with the recovered panic message, if any) becomes an
/// internal-error response rather than tearing down the thread; an
/// ordinary outcome is mapped as always.
pub fn thread_result_to_response(
    id: RequestId,
    result: Result<Result<serde_json::Value, HandlerError>, Option<String>>,
) -> (r: Result<Response, Cancelled>)
    ensures
        result matches Ok(outcome) ==> r == spec_result_to_response(id, outcome),
        result matches Err(payload) ==> (r matches Ok(resp) && is_err_response(
            resp,
            id,
            INTERNAL_ERROR,
            spec_panic_message(payload),
        )),
{
    match result {
        Ok(outcome) => result_to_response(id, outcome),
        Err(payload) => {
            let mut message = String::from_str("request handler panicked");
            match payload {
                Some(m) => {
                    message.append(": ");
                    message.append(m.as_str());
                }
                None => {}
            }
            Ok(Response {
                id,
                result: None,
                error: Some(ResponseError { code: INTERNAL_ERROR, message }),
            })
        }
    }
}

/// Whether a handler outcome is the cooperative cancellation signal.
pub fn outcome_is_cancelled(out: &Result<serde_json::Value, HandlerError>) -> (b: bool)
    ensures
        b == (out matches Err(HandlerError::Cancelled)),
{
    match out {
        Err(HandlerError::Cancelled) => true,
        _ => false,
    }
}

/// Law: cancellation never surfaces as a wire response. For every
/// identifier, mapping the cancellation outcome yields the cancellation
/// signal, not a response.
pub proof fn lemma_cancellation_never_response(id: RequestId)
    ensures
        forall|out: Result<serde_json::Value, HandlerError>|
            (out matches Err(HandlerError::Cancelled)) ==> (#[trigger] spec_result_to_response(
                id,
                out,
            )) is Err,
{
}

/// Law: every response the outcome mapping produces carries the
/// identifier of the request it answers, so responses correlate with
/// their requests one to one.
pub proof fn lemma_response_preserves_id(
    id: RequestId,
    out: Result<serde_json::Value, HandlerError>,
)
    ensures
        spec_result_to_response(id, out) matches Ok(resp) ==> resp.id == id,
{
}

/// Law: a typed protocol error is surfaced verbatim — the response's
/// code and message are exactly the ones the handler raised.
pub proof fn lemma_protocol_error_verbatim(id: RequestId, e: LspError)
    ensures
        spec_result_to_response(id, Err(HandlerError::Lsp(e))) matches Ok(resp)
            && is_err_response(resp, id, e.code, e.message@),
{
}

/// Law: cancellation is the only outcome without a response. Every
/// other outcome maps to exactly one response.
pub proof fn lemma_non_cancellation_always_responds(
    id: RequestId,
    out: Result<serde_json::Value, HandlerError>,
)
    ensures
        !(out matches Err(HandlerError::Cancelled)) ==> spec_result_to_response(id, out) is Ok,
{
}

/// Law: the outcome mapping never invents the "content modified" code;
/// that code comes only from the no-retry pooled strategy's own
/// cancellation fallback.
pub proof fn lemma_mapper_never_content_modified(
    id: RequestId,
    out: Result<serde_json::Value, HandlerError>,
)
    ensures
        (spec_result_to_response(id, out) matches Ok(resp) && resp.error matches Some(e) &&
        e.code == CONTENT_MODIFIED) ==> (out matches Err(HandlerError::Lsp(le)) && le.code
            == CONTENT_MODIFIED),
{
}

} // verus!
