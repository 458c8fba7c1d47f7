//! Request dispatch: the four strategies, decode failures, and finish.

use std::cell::Cell;

use lsp_dispatch::protocol::{
    HandlerError, LspError, Request, RequestId, Task, ThreadIntent, CONTENT_MODIFIED,
    INTERNAL_ERROR, INVALID_PARAMS, METHOD_NOT_FOUND,
};
use lsp_dispatch::request_dispatch::RequestDispatcher;
use lsp_dispatch::state::{ServerState, Snapshot};

fn request(id: i64, method: &str, params: serde_json::Value) -> Request {
    Request { id: RequestId::Num(id), method: method.to_string(), params }
}

fn accept_unit(_v: &serde_json::Value) -> Result<(), String> {
    Ok(())
}

#[test]
fn read_only_main_success() {
    // A read-only-main handler returning 42 answers {id, result: 42}.
    let mut state = ServerState::new(vec![1, 2, 3]);
    let mut d = RequestDispatcher::new(request(7, "X", serde_json::Value::Null));
    d.on_sync(&mut state, &"X".to_string(), accept_unit, |_snap: Snapshot, _p: ()| {
        Ok(serde_json::Value::from(42i64))
    });
    d.finish(&mut state);
    assert_eq!(state.outbox.len(), 1);
    let resp = &state.outbox[0];
    assert!(resp.id == RequestId::Num(7));
    assert!(resp.result == Some(serde_json::Value::from(42i64)));
    assert!(resp.error.is_none());
    assert_eq!(state.tasks.len(), 0);
}

#[test]
fn typed_protocol_error_verbatim() {
    // A handler raising {code: -32001, message: "busy"} answers exactly that.
    let mut state = ServerState::new(Vec::new());
    let mut d = RequestDispatcher::new(request(3, "Y", serde_json::Value::Null));
    d.on_sync(&mut state, &"Y".to_string(), accept_unit, |_snap: Snapshot, _p: ()| {
        Err(HandlerError::Lsp(LspError { code: -32001, message: "busy".to_string() }))
    });
    d.finish(&mut state);
    assert_eq!(state.outbox.len(), 1);
    let resp = &state.outbox[0];
    assert!(resp.id == RequestId::Num(3));
    assert!(resp.result.is_none());
    let err = resp.error.as_ref().unwrap();
    assert_eq!(err.code, -32001);
    assert_eq!(err.message, "busy");
}

#[test]
fn decode_failure_skips_handler() {
    // A payload missing a required field answers "invalid params" and
    // the handler never runs.
    let mut map = serde_json::Map::new();
    map.insert("a".to_string(), serde_json::Value::from(1i64));
    let params = serde_json::Value::Object(map);

    let ran = Cell::new(false);
    let mut state = ServerState::new(Vec::new());
    let mut d = RequestDispatcher::new(request(9, "X", params));
    d.on_sync_mut(
        &mut state,
        &"X".to_string(),
        |v: &serde_json::Value| match v.get("b") {
            Some(b) => Ok(b.clone()),
            None => Err("missing field `b`".to_string()),
        },
        |data: Vec<u8>, _p: serde_json::Value| {
            ran.set(true);
            (data, Ok(serde_json::Value::Null))
        },
    );
    d.finish(&mut state);
    assert!(!ran.get());
    assert_eq!(state.outbox.len(), 1);
    let resp = &state.outbox[0];
    assert!(resp.id == RequestId::Num(9));
    let err = resp.error.as_ref().unwrap();
    assert_eq!(err.code, INVALID_PARAMS);
    assert_eq!(err.message, "missing field `b`");
}

#[test]
fn unmatched_method_not_found() {
    // A method no attempt claims yields "method not found" with the
    // original identifier, after finish.
    let mut state = ServerState::new(Vec::new());
    let mut d = RequestDispatcher::new(request(11, "no/such", serde_json::Value::Null));
    d.on_sync(&mut state, &"X".to_string(), accept_unit, |_snap: Snapshot, _p: ()| {
        Ok(serde_json::Value::Null)
    });
    d.on(&mut state, &"Y".to_string(), accept_unit, |_snap: Snapshot, _p: ()| {
        Ok(serde_json::Value::Null)
    });
    assert_eq!(state.outbox.len(), 0);
    d.finish(&mut state);
    assert_eq!(state.outbox.len(), 1);
    let resp = &state.outbox[0];
    assert!(resp.id == RequestId::Num(11));
    let err = resp.error.as_ref().unwrap();
    assert_eq!(err.code, METHOD_NOT_FOUND);
    assert_eq!(err.message, "unknown request");
    assert_eq!(state.log.len(), 1);
    assert_eq!(state.log[0], "no/such");
}

#[test]
fn mutable_main_delivers_before_return() {
    // The mutable-main strategy runs to completion synchronously: the
    // state change and the response are visible as soon as it returns.
    let mut state = ServerState::new(vec![1]);
    let mut d = RequestDispatcher::new(request(1, "apply", serde_json::Value::Null));
    d.on_sync_mut(&mut state, &"apply".to_string(), accept_unit, |mut data: Vec<u8>, _p: ()| {
        data.push(7);
        (data, Ok(serde_json::Value::Null))
    });
    assert_eq!(state.data, vec![1, 7]);
    assert_eq!(state.outbox.len(), 1);
    assert_eq!(state.tasks.len(), 0);
    assert!(state.outbox[0].id == RequestId::Num(1));
}

#[test]
fn pooled_produces_exactly_one_task() {
    // A pooled dispatch delivers nothing synchronously and produces
    // exactly one task, a response.
    let mut state = ServerState::new(Vec::new());
    let mut d = RequestDispatcher::new(request(2, "Z", serde_json::Value::Null));
    d.on(&mut state, &"Z".to_string(), accept_unit, |_snap: Snapshot, _p: ()| {
        Ok(serde_json::Value::from(5i64))
    });
    assert_eq!(state.outbox.len(), 0);
    assert_eq!(state.tasks.len(), 1);
    assert!(state.tasks[0].intent == ThreadIntent::Worker);
    match &state.tasks[0].task {
        Task::Response(resp) => {
            assert!(resp.id == RequestId::Num(2));
            assert!(resp.result == Some(serde_json::Value::from(5i64)));
        }
        Task::Retry(_) => panic!("pooled success must not retry"),
    }
}

#[test]
fn latency_sensitive_intent_tagged() {
    let mut state = ServerState::new(Vec::new());
    let mut d = RequestDispatcher::new(request(4, "hover", serde_json::Value::Null));
    d.on_latency_sensitive(&mut state, &"hover".to_string(), accept_unit, |_snap: Snapshot,
        _p: ()| { Ok(serde_json::Value::Null) });
    assert_eq!(state.tasks.len(), 1);
    assert!(state.tasks[0].intent == ThreadIntent::LatencySensitive);
}

#[test]
fn no_retry_cancellation_content_modified() {
    // Cancellation under the no-retry strategy becomes a "content
    // modified" response — never an internal error, never a retry.
    let mut state = ServerState::new(Vec::new());
    let mut d = RequestDispatcher::new(request(5, "diag", serde_json::Value::Null));
    d.on_no_retry(&mut state, &"diag".to_string(), accept_unit, |_snap: Snapshot, _p: ()| {
        Err(HandlerError::Cancelled)
    });
    assert_eq!(state.tasks.len(), 1);
    match &state.tasks[0].task {
        Task::Response(resp) => {
            assert!(resp.id == RequestId::Num(5));
            let err = resp.error.as_ref().unwrap();
            assert_eq!(err.code, CONTENT_MODIFIED);
            assert_ne!(err.code, INTERNAL_ERROR);
            assert_eq!(err.message, "content modified");
        }
        Task::Retry(_) => panic!("no-retry cancellation must not retry"),
    }
}

#[test]
fn pooled_cancellation_retries() {
    // Cancellation under the retry-eligible pooled strategy hands the
    // original request back whole, and never a response.
    let mut map = serde_json::Map::new();
    map.insert("doc".to_string(), serde_json::Value::from("file:///a".to_string()));
    let params = serde_json::Value::Object(map);
    let mut state = ServerState::new(Vec::new());
    let mut d = RequestDispatcher::new(request(6, "Z", params.clone()));
    d.on(&mut state, &"Z".to_string(), accept_unit, |_snap: Snapshot, _p: ()| {
        Err(HandlerError::Cancelled)
    });
    assert_eq!(state.outbox.len(), 0);
    assert_eq!(state.tasks.len(), 1);
    match &state.tasks[0].task {
        Task::Retry(req) => {
            assert!(req.id == RequestId::Num(6));
            assert_eq!(req.method, "Z");
            assert!(req.params == params);
        }
        Task::Response(_) => panic!("pooled cancellation must not respond"),
    }
}

#[test]
fn retry_then_success() {
    // A retry task redispatched once state no longer conflicts yields a
    // normal success response.
    let mut state = ServerState::new(vec![0]);
    let mut d = RequestDispatcher::new(request(8, "Z", serde_json::Value::Null));
    // The handler cancels while the state's first byte is 0.
    let handler = |snap: Snapshot, _p: ()| {
        if snap.data[0] == 0 {
            Err(HandlerError::Cancelled)
        } else {
            Ok(serde_json::Value::from(snap.data[0] as i64))
        }
    };
    d.on(&mut state, &"Z".to_string(), accept_unit, handler);
    let task = state.tasks.pop().unwrap();
    let req = match task.task {
        Task::Retry(req) => req,
        Task::Response(_) => panic!("expected a retry"),
    };
    // State moves forward; the main loop redispatches the request.
    let mut d2 = RequestDispatcher::new(req);
    state.data = vec![3];
    d2.on(&mut state, &"Z".to_string(), accept_unit, handler);
    let task = state.tasks.pop().unwrap();
    match task.task {
        Task::Response(resp) => {
            assert!(resp.id == RequestId::Num(8));
            assert!(resp.result == Some(serde_json::Value::from(3i64)));
        }
        Task::Retry(_) => panic!("expected a response after the retry"),
    }
}

#[test]
fn snapshots_observe_pre_mutation_state() {
    // Pooled requests dispatched before a mutable-main mutation observe
    // the pre-mutation state, whatever order their tasks are read in.
    let mut state = ServerState::new(vec![1]);
    let read_first = |snap: Snapshot, _p: ()| Ok(serde_json::Value::from(snap.data[0] as i64));

    let mut d1 = RequestDispatcher::new(request(21, "read", serde_json::Value::Null));
    d1.on(&mut state, &"read".to_string(), accept_unit, read_first);
    let mut d2 = RequestDispatcher::new(request(22, "read", serde_json::Value::Null));
    d2.on(&mut state, &"read".to_string(), accept_unit, read_first);

    // A mutable-main request now changes the authoritative state.
    let mut dm = RequestDispatcher::new(request(23, "write", serde_json::Value::Null));
    dm.on_sync_mut(&mut state, &"write".to_string(), accept_unit, |_data: Vec<u8>, _p: ()| {
        (vec![9], Ok(serde_json::Value::Null))
    });
    assert_eq!(state.data, vec![9]);

    // Both earlier tasks carry the pre-mutation reading, in either order.
    for task in state.tasks.iter().rev() {
        match &task.task {
            Task::Response(resp) => {
                assert!(resp.result == Some(serde_json::Value::from(1i64)));
            }
            Task::Retry(_) => panic!("read-only handlers did not cancel"),
        }
    }
}

#[test]
fn consumed_request_ignores_later_attempts() {
    // Exactly one strategy consumes a request; later attempts no-op.
    let mut state = ServerState::new(Vec::new());
    let mut d = RequestDispatcher::new(request(30, "X", serde_json::Value::Null));
    d.on_sync(&mut state, &"X".to_string(), accept_unit, |_snap: Snapshot, _p: ()| {
        Ok(serde_json::Value::from(1i64))
    });
    d.on_sync(&mut state, &"X".to_string(), accept_unit, |_snap: Snapshot, _p: ()| {
        Ok(serde_json::Value::from(2i64))
    });
    d.finish(&mut state);
    assert_eq!(state.outbox.len(), 1);
    assert!(state.outbox[0].result == Some(serde_json::Value::from(1i64)));
}
