//! The outcome-to-response mapping, including the fault-boundary form.

use lsp_dispatch::mapper::{result_to_response, thread_result_to_response};
use lsp_dispatch::protocol::{
    HandlerError, LspError, RequestId, INTERNAL_ERROR,
};
use lsp_dispatch::request_dispatch::{task_for_no_retry_outcome, task_for_pooled_outcome};
use lsp_dispatch::protocol::{Request, Task, CONTENT_MODIFIED};

#[test]
fn success_maps_to_ok_response() {
    let r = result_to_response(RequestId::Num(1), Ok(serde_json::Value::from(10i64)));
    let resp = r.ok().unwrap();
    assert!(resp.id == RequestId::Num(1));
    assert!(resp.result == Some(serde_json::Value::from(10i64)));
    assert!(resp.error.is_none());
}

#[test]
fn lsp_error_maps_verbatim() {
    let r = result_to_response(
        RequestId::Str("a".to_string()),
        Err(HandlerError::Lsp(LspError { code: -32099, message: "nope".to_string() })),
    );
    let resp = r.ok().unwrap();
    assert!(resp.id == RequestId::Str("a".to_string()));
    let err = resp.error.unwrap();
    assert_eq!(err.code, -32099);
    assert_eq!(err.message, "nope");
}

#[test]
fn cancellation_propagates_not_serialized() {
    let r = result_to_response(RequestId::Num(2), Err(HandlerError::Cancelled));
    assert!(r.is_err());
}

#[test]
fn other_failure_maps_to_internal_error() {
    let r = result_to_response(
        RequestId::Num(3),
        Err(HandlerError::Other("disk gone".to_string())),
    );
    let resp = r.ok().unwrap();
    let err = resp.error.unwrap();
    assert_eq!(err.code, INTERNAL_ERROR);
    assert_eq!(err.message, "disk gone");
}

#[test]
fn caught_panic_with_message() {
    let r = thread_result_to_response(RequestId::Num(4), Err(Some("boom".to_string())));
    let resp = r.ok().unwrap();
    let err = resp.error.unwrap();
    assert_eq!(err.code, INTERNAL_ERROR);
    assert_eq!(err.message, "request handler panicked: boom");
}

#[test]
fn caught_panic_without_message() {
    let r = thread_result_to_response(RequestId::Num(5), Err(None));
    let resp = r.ok().unwrap();
    let err = resp.error.unwrap();
    assert_eq!(err.code, INTERNAL_ERROR);
    assert_eq!(err.message, "request handler panicked");
}

#[test]
fn caught_ordinary_outcome_maps_as_always() {
    let r = thread_result_to_response(RequestId::Num(6), Ok(Ok(serde_json::Value::Null)));
    let resp = r.ok().unwrap();
    assert!(resp.result == Some(serde_json::Value::Null));
}

#[test]
fn pooled_task_from_success() {
    let req = Request {
        id: RequestId::Num(7),
        method: "m".to_string(),
        params: serde_json::Value::Null,
    };
    let t = task_for_pooled_outcome(req, Ok(serde_json::Value::from(1i64)));
    match t {
        Task::Response(resp) => assert!(resp.result == Some(serde_json::Value::from(1i64))),
        Task::Retry(_) => panic!("success must respond"),
    }
}

#[test]
fn pooled_task_from_cancellation() {
    let req = Request {
        id: RequestId::Num(8),
        method: "m".to_string(),
        params: serde_json::Value::from(true),
    };
    let t = task_for_pooled_outcome(req, Err(HandlerError::Cancelled));
    match t {
        Task::Retry(req) => {
            assert!(req.id == RequestId::Num(8));
            assert_eq!(req.method, "m");
            assert!(req.params == serde_json::Value::from(true));
        }
        Task::Response(_) => panic!("cancellation must retry"),
    }
}

#[test]
fn no_retry_task_from_cancellation() {
    let t = task_for_no_retry_outcome(RequestId::Num(9), Err(HandlerError::Cancelled));
    match t {
        Task::Response(resp) => {
            let err = resp.error.unwrap();
            assert_eq!(err.code, CONTENT_MODIFIED);
        }
        Task::Retry(_) => panic!("no-retry must not retry"),
    }
}
