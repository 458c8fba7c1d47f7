//! Routing an incoming request to a typed handler.
//!
//! The dispatcher owns the request until one strategy claims it: each
//! attempt either consumes the request (method matched) or leaves it for
//! the next attempt, and a final `finish` turns a never-claimed request
//! into a "method not found" response. Four strategies exist: run on the
//! calling thread with mutable state, run on the calling thread against
//! a snapshot, and two pooled forms (retrying and non-retrying) that run
//! against a snapshot and hand a task back to the main loop.

use vstd::prelude::*;

use crate::mapper::{outcome_is_cancelled, result_to_response, spec_result_to_response};
use crate::protocol::{
    HandlerError, Request, RequestId, Response, ResponseError, Task, ThreadIntent,
    is_err_response, CONTENT_MODIFIED, INVALID_PARAMS, METHOD_NOT_FOUND,
};
use crate::state::{only_outbox_changed, ServerState, Snapshot};

verus! {

/// The task a retry-eligible pooled dispatch produces from a handler
/// outcome: cancellation hands the request back unconsumed for a later
/// attempt; every other outcome becomes its mapped response.
pub open spec fn spec_pooled_task(
    req: Request,
    out: Result<serde_json::Value, HandlerError>,
) -> Task {
    if out matches Err(HandlerError::Cancelled) {
        Task::Retry(req)
    } else {
        Task::Response(spec_result_to_response(req.id, out)->Ok_0)
    }
}

/// The task a no-retry pooled dispatch produces from a handler outcome:
/// cancellation becomes a "content modified" error response — never a
/// retry and never an internal error — and every other outcome becomes
/// its mapped response.
pub open spec fn no_retry_task_ok(
    id: RequestId,
    out: Result<serde_json::Value, HandlerError>,
    t: Task,
) -> bool {
    if out matches Err(HandlerError::Cancelled) {
        t matches Task::Response(resp) && is_err_response(
            resp,
            id,
            CONTENT_MODIFIED,
            "content modified"@,
        )
    } else {
        t == Task::Response(spec_result_to_response(id, out)->Ok_0)
    }
}

/// Build the task a retry-eligible pooled dispatch hands back to the
/// main loop. On cancellation the original request travels back whole,
/// so it can be redispatched once state has moved forward.
pub fn task_for_pooled_outcome(
    req: Request,
    outcome: Result<serde_json::Value, HandlerError>,
) -> (t: Task)
    ensures
        t == spec_pooled_task(req, outcome),
{
    if outcome_is_cancelled(&outcome) {
        Task::Retry(req)
    } else {
        let Request { id, method: _, params: _ } = req;
        match result_to_response(id, outcome) {
            Ok(resp) => Task::Response(resp),
            Err(_) => vstd::pervasive::unreached(),
        }
    }
}

/// Build the task a no-retry pooled dispatch hands back to the main
/// loop. Cancellation is not hidden behind a retry here: staleness is
/// reported as "content modified".
pub fn task_for_no_retry_outcome(
    id: RequestId,
    outcome: Result<serde_json::Value, HandlerError>,
) -> (t: Task)
    ensures
        no_retry_task_ok(id, outcome, t),
{
    if outcome_is_cancelled(&outcome) {
        Task::Response(Response {
            id,
            result: None,
            error: Some(ResponseError {
                code: CONTENT_MODIFIED,
                message: String::from_str("content modified"),
            }),
        })
    } else {
        match result_to_response(id, outcome) {
            Ok(resp) => Task::Response(resp),
            Err(_) => vstd::pervasive::unreached(),
        }
    }
}

/// The decoder rejected the payload of `req0`: the request is consumed
/// and the only effect is an "invalid params" response carrying the
/// decoder's message; no handler ran.
pub open spec fn rejected_params<P, D: Fn(&serde_json::Value) -> Result<P, String>>(
    pre: ServerState,
    post: ServerState,
    req0: Request,
    decode: D,
) -> bool {
    exists|e: String|
        {
            &&& #[trigger] call_ensures(decode, (&req0.params,), Err(e))
            &&& only_outbox_changed(pre, post)
            &&& post.outbox@ == pre.outbox@.push(post.outbox@.last())
            &&& is_err_response(post.outbox@.last(), req0.id, INVALID_PARAMS, e@)
        }
}

/// Delivery of an outcome on the calling thread: the mapped response is
/// in the outbox before dispatch returns, or, for cancellation, nothing
/// is delivered at all. No task is produced and nothing is logged.
pub open spec fn main_thread_delivery(
    pre: ServerState,
    post: ServerState,
    id: RequestId,
    out: Result<serde_json::Value, HandlerError>,
) -> bool {
    &&& post.tasks == pre.tasks
    &&& post.log == pre.log
    &&& match spec_result_to_response(id, out) {
        Ok(resp) => post.outbox@ == pre.outbox@.push(resp),
        Err(_) => post.outbox == pre.outbox,
    }
}

/// A pooled strategy's only effect: exactly one task, tagged with the
/// requested intent, joins the inbox; no response is delivered
/// synchronously and the live state is untouched.
pub open spec fn pooled_submission(
    pre: ServerState,
    post: ServerState,
    intent: ThreadIntent,
) -> bool {
    &&& post.outbox == pre.outbox
    &&& post.data == pre.data
    &&& post.log == pre.log
    &&& post.tasks@.len() == pre.tasks@.len() + 1
    &&& post.tasks@ == pre.tasks@.push(post.tasks@.last())
    &&& post.tasks@.last().intent == intent
}

/// The whole effect of a pooled dispatch attempt: a non-matching method
/// is a no-op; a matching one consumes the request, and either the
/// payload is rejected or the handler ran against a snapshot of the
/// dispatch-time state and exactly one task was produced from its
/// outcome — a retrying task when `retry` holds, a "content modified"
/// fallback otherwise.
pub open spec fn pooled_effect<
    P,
    D: Fn(&serde_json::Value) -> Result<P, String>,
    F: Fn(Snapshot, P) -> Result<serde_json::Value, HandlerError>,
>(
    pre_d: RequestDispatcher,
    post_d: RequestDispatcher,
    pre: ServerState,
    post: ServerState,
    method: Seq<char>,
    decode: D,
    f: F,
    intent: ThreadIntent,
    retry: bool,
) -> bool {
    &&& (!pre_d.matches(method) ==> post_d == pre_d && post == pre)
    &&& (pre_d.matches(method) ==> post_d.req is None && ({
        let req0 = pre_d.req->Some_0;
        ||| rejected_params(pre, post, req0, decode)
        ||| (exists|p: P, snap: Snapshot, out: Result<serde_json::Value, HandlerError>|
            {
                &&& #[trigger] call_ensures(decode, (&req0.params,), Ok(p))
                &&& snap.data@ == pre.data@
                &&& #[trigger] call_ensures(f, (snap, p), out)
                &&& pooled_submission(pre, post, intent)
                &&& if retry {
                    post.tasks@.last().task == spec_pooled_task(req0, out)
                } else {
                    no_retry_task_ok(req0.id, out, post.tasks@.last().task)
                }
            })
    }))
}

/// Routes one raw request to the first handler whose method matches.
///
/// The slot holds the request until a strategy claims it; `finish`
/// reports a request no strategy claimed as "method not found".
pub struct RequestDispatcher {
    pub req: Option<Request>,
}

impl RequestDispatcher {
    /// The slot still holds a request whose method is `method`.
    pub open spec fn matches(self, method: Seq<char>) -> bool {
        self.req matches Some(r) && r.method@ == method
    }

    /// A dispatcher holding the given request, not yet claimed.
    pub fn new(req: Request) -> (d: RequestDispatcher)
        ensures
            d.req == Some(req),
    {
        RequestDispatcher { req: Some(req) }
    }

    /// Claim the request if its method is `method`, and decode its
    /// payload. A payload the decoder rejects consumes the request and
    /// answers "invalid params" with the decoder's message at once; no
    /// handler sees it.
    fn parse<P, D: Fn(&serde_json::Value) -> Result<P, String>>(
        &mut self,
        state: &mut ServerState,
        method: &String,
        decode: D,
    ) -> (r: Option<(Request, P)>)
        requires
            forall|v: &serde_json::Value| #[trigger] call_requires(decode, (v,)),
        ensures
            !old(self).matches(method@) ==> {
                &&& r is None
                &&& *final(self) == *old(self)
                &&& *final(state) == *old(state)
            },
            old(self).matches(method@) ==> final(self).req is None,
            old(self).matches(method@) ==> ({
                let req0 = old(self).req->Some_0;
                match r {
                Some((rq, p)) => {
                    &&& rq == req0
                    &&& call_ensures(decode, (&req0.params,), Ok(p))
                    &&& *final(state) == *old(state)
                },
                None => exists|e: String|
                    {
                        &&& #[trigger] call_ensures(decode, (&req0.params,), Err(e))
                        &&& only_outbox_changed(*old(state), *final(state))
                        &&& final(state).outbox@ == old(state).outbox@.push(
                            final(state).outbox@.last(),
                        )
                        &&& is_err_response(
                            final(state).outbox@.last(),
                            req0.id,
                            INVALID_PARAMS,
                            e@,
                        )
                    },
                }
            }),
    {
        let matched = match &self.req {
            Some(r) => r.method == *method,
            None => false,
        };
        if !matched {
            return None;
        }
        let req = self.req.take().unwrap();
        match decode(&req.params) {
            Ok(p) => Some((req, p)),
            Err(e) => {
                let Request { id, method: _m, params: _ps } = req;
                state.respond(Response {
                    id,
                    result: None,
                    error: Some(ResponseError { code: INVALID_PARAMS, message: e }),
                });
                None
            }
        }
    }

    /// Mutable-main strategy: run the handler at once on the calling
    /// thread, against the live mutable state. No snapshot is taken and
    /// no pool is involved; the handler has run to completion, and any
    /// response is in the outbox, before this returns.
    pub fn on_sync_mut<
        P,
        D: Fn(&serde_json::Value) -> Result<P, String>,
        F: Fn(Vec<u8>, P) -> (Vec<u8>, Result<serde_json::Value, HandlerError>),
    >(&mut self, state: &mut ServerState, method: &String, decode: D, f: F)
        requires
            forall|v: &serde_json::Value| #[trigger] call_requires(decode, (v,)),
            forall|d: Vec<u8>, p: P| #[trigger] call_requires(f, (d, p)),
        ensures
            !old(self).matches(method@) ==> {
                &&& *final(self) == *old(self)
                &&& *final(state) == *old(state)
            },
            old(self).matches(method@) ==> final(self).req is None && ({
                let req0 = old(self).req->Some_0;
                ||| rejected_params(*old(state), *final(state), req0, decode)
                ||| (exists|p: P, d1: Vec<u8>, out: Result<serde_json::Value, HandlerError>|
                    {
                        &&& #[trigger] call_ensures(decode, (&req0.params,), Ok(p))
                        &&& #[trigger] call_ensures(f, (old(state).data, p), (d1, out))
                        &&& final(state).data == d1
                        &&& main_thread_delivery(*old(state), *final(state), req0.id, out)
                    })
            }),
    {
        match self.parse(state, method, decode) {
            None => {}
            Some((req, p)) => {
                let Request { id, method: _m, params: _ps } = req;
                let data0 = state.take_data();
                let (d1, out) = f(data0, p);
                state.put_data(d1);
                match result_to_response(id, out) {
                    Ok(resp) => state.respond(resp),
                    Err(_cancelled) => {}
                }
            }
        }
    }

    /// Read-only-main strategy: take a snapshot and run the handler at
    /// once on the calling thread, for latency-critical read-only
    /// queries. The response, if any, is in the outbox before this
    /// returns; the live state is untouched.
    pub fn on_sync<
        P,
        D: Fn(&serde_json::Value) -> Result<P, String>,
        F: Fn(Snapshot, P) -> Result<serde_json::Value, HandlerError>,
    >(&mut self, state: &mut ServerState, method: &String, decode: D, f: F)
        requires
            forall|v: &serde_json::Value| #[trigger] call_requires(decode, (v,)),
            forall|s: Snapshot, p: P| #[trigger] call_requires(f, (s, p)),
        ensures
            !old(self).matches(method@) ==> {
                &&& *final(self) == *old(self)
                &&& *final(state) == *old(state)
            },
            old(self).matches(method@) ==> final(self).req is None && ({
                let req0 = old(self).req->Some_0;
                ||| rejected_params(*old(state), *final(state), req0, decode)
                ||| (exists|p: P, snap: Snapshot, out: Result<serde_json::Value, HandlerError>|
                    {
                        &&& #[trigger] call_ensures(decode, (&req0.params,), Ok(p))
                        &&& snap.data@ == old(state).data@
                        &&& #[trigger] call_ensures(f, (snap, p), out)
                        &&& final(state).data == old(state).data
                        &&& main_thread_delivery(*old(state), *final(state), req0.id, out)
                    })
            }),
    {
        match self.parse(state, method, decode) {
            None => {}
            Some((req, p)) => {
                let Request { id, method: _m, params: _ps } = req;
                let snap = state.snapshot();
                let out = f(snap, p);
                match result_to_response(id, out) {
                    Ok(resp) => state.respond(resp),
                    Err(_cancelled) => {}
                }
            }
        }
    }

    /// Pooled strategy at an explicit priority: take a snapshot, run the
    /// handler against it, and hand exactly one task back to the main
    /// loop — the mapped response, or, on cancellation, the original
    /// request to be redispatched once state has moved forward.
    pub fn on_with_thread_intent<
        P,
        D: Fn(&serde_json::Value) -> Result<P, String>,
        F: Fn(Snapshot, P) -> Result<serde_json::Value, HandlerError>,
    >(&mut self, state: &mut ServerState, intent: ThreadIntent, method: &String, decode: D, f: F)
        requires
            forall|v: &serde_json::Value| #[trigger] call_requires(decode, (v,)),
            forall|s: Snapshot, p: P| #[trigger] call_requires(f, (s, p)),
        ensures
            pooled_effect(
                *old(self),
                *final(self),
                *old(state),
                *final(state),
                method@,
                decode,
                f,
                intent,
                true,
            ),
    {
        match self.parse(state, method, decode) {
            None => {}
            Some((req, p)) => {
                let snap = state.snapshot();
                let out = f(snap, p);
                let task = task_for_pooled_outcome(req, out);
                state.submit(intent, task);
            }
        }
    }

    /// Pooled strategy at normal priority.
    pub fn on<
        P,
        D: Fn(&serde_json::Value) -> Result<P, String>,
        F: Fn(Snapshot, P) -> Result<serde_json::Value, HandlerError>,
    >(&mut self, state: &mut ServerState, method: &String, decode: D, f: F)
        requires
            forall|v: &serde_json::Value| #[trigger] call_requires(decode, (v,)),
            forall|s: Snapshot, p: P| #[trigger] call_requires(f, (s, p)),
        ensures
            pooled_effect(
                *old(self),
                *final(self),
                *old(state),
                *final(state),
                method@,
                decode,
                f,
                ThreadIntent::Worker,
                true,
            ),
    {
        self.on_with_thread_intent(state, ThreadIntent::Worker, method, decode, f);
    }

    /// Pooled strategy at latency-sensitive priority.
    pub fn on_latency_sensitive<
        P,
        D: Fn(&serde_json::Value) -> Result<P, String>,
        F: Fn(Snapshot, P) -> Result<serde_json::Value, HandlerError>,
    >(&mut self, state: &mut ServerState, method: &String, decode: D, f: F)
        requires
            forall|v: &serde_json::Value| #[trigger] call_requires(decode, (v,)),
            forall|s: Snapshot, p: P| #[trigger] call_requires(f, (s, p)),
        ensures
            pooled_effect(
                *old(self),
                *final(self),
                *old(state),
                *final(state),
                method@,
                decode,
                f,
                ThreadIntent::LatencySensitive,
                true,
            ),
    {
        self.on_with_thread_intent(state, ThreadIntent::LatencySensitive, method, decode, f);
    }

    /// No-retry pooled strategy: as the pooled strategy, but a
    /// cancellation outcome becomes a "content modified" error response
    /// instead of a retry — for work where silently retrying would hide
    /// information rather than help.
    pub fn on_no_retry<
        P,
        D: Fn(&serde_json::Value) -> Result<P, String>,
        F: Fn(Snapshot, P) -> Result<serde_json::Value, HandlerError>,
    >(&mut self, state: &mut ServerState, method: &String, decode: D, f: F)
        requires
            forall|v: &serde_json::Value| #[trigger] call_requires(decode, (v,)),
            forall|s: Snapshot, p: P| #[trigger] call_requires(f, (s, p)),
        ensures
            pooled_effect(
                *old(self),
                *final(self),
                *old(state),
                *final(state),
                method@,
                decode,
                f,
                ThreadIntent::Worker,
                false,
            ),
    {
        match self.parse(state, method, decode) {
            None => {}
            Some((req, p)) => {
                let Request { id, method: _m, params: _ps } = req;
                let snap = state.snapshot();
                let out = f(snap, p);
                let task = task_for_no_retry_outcome(id, out);
                state.submit(ThreadIntent::Worker, task);
            }
        }
    }

    /// Report a request no strategy claimed: log its method and answer
    /// "method not found", with the original identifier preserved. A
    /// dispatcher whose request was already consumed is left untouched.
    pub fn finish(&mut self, state: &mut ServerState)
        ensures
            final(self).req is None,
            old(self).req is None ==> {
                &&& *final(self) == *old(self)
                &&& *final(state) == *old(state)
            },
            old(self).req is Some ==> ({
                let req0 = old(self).req->Some_0;
                &&& final(state).data == old(state).data
                &&& final(state).tasks == old(state).tasks
                &&& final(state).log@ == old(state).log@.push(req0.method)
                &&& final(state).outbox@ == old(state).outbox@.push(final(state).outbox@.last())
                &&& is_err_response(
                    final(state).outbox@.last(),
                    req0.id,
                    METHOD_NOT_FOUND,
                    "unknown request"@,
                )
            }),
    {
        match self.req.take() {
            None => {}
            Some(req) => {
                let Request { id, method, params: _ps } = req;
                state.note_unclaimed(method);
                state.respond(Response {
                    id,
                    result: None,
                    error: Some(ResponseError {
                        code: METHOD_NOT_FOUND,
                        message: String::from_str("unknown request"),
                    }),
                });
            }
        }
    }
}

/// Law: a task is exactly one of response or retry — never both, never
/// neither.
pub proof fn lemma_task_exactly_one_kind(t: Task)
    ensures
        (t is Response) <==> !(t is Retry),
{
}

/// Law: a dispatcher whose request was already consumed matches no
/// method, so every later strategy attempt on it is a no-op: exactly
/// one strategy consumes a given request.
pub proof fn lemma_consumed_is_inert(d: RequestDispatcher, method: Seq<char>)
    requires
        d.req is None,
    ensures
        !d.matches(method),
{
}

/// Law: a pooled task is always exactly one of response or retry, and a
/// cancellation outcome always yields the retry carrying the original
/// request — never a response.
pub proof fn lemma_pooled_cancellation_retries(
    req: Request,
    out: Result<serde_json::Value, HandlerError>,
)
    ensures
        (out matches Err(HandlerError::Cancelled)) ==> spec_pooled_task(req, out) == Task::Retry(
            req,
        ),
        !(out matches Err(HandlerError::Cancelled)) ==> (spec_pooled_task(req, out)
            matches Task::Response(resp) && resp.id == req.id),
{
    crate::mapper::lemma_non_cancellation_always_responds(req.id, out);
    crate::mapper::lemma_response_preserves_id(req.id, out);
}

/// Law: the no-retry strategy never retries, and cancellation inside it
/// surfaces as the "content modified" code, not as an internal error.
pub proof fn lemma_no_retry_cancellation(
    id: RequestId,
    out: Result<serde_json::Value, HandlerError>,
    t: Task,
)
    requires
        no_retry_task_ok(id, out, t),
    ensures
        t is Response,
        (out matches Err(HandlerError::Cancelled)) ==> (t matches Task::Response(resp)
            && resp.error matches Some(e) && e.code == CONTENT_MODIFIED && e.code
            != crate::protocol::INTERNAL_ERROR && resp.id == id),
{
    crate::mapper::lemma_non_cancellation_always_responds(id, out);
}

} // verus!
