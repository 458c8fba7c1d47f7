//! Routing an incoming notification to a handler.
//!
//! The fire-and-forget analogue of request dispatch: no identifier, no
//! response owed. A mutable-main strategy runs the handler at once
//! against the live state and surfaces its failure to the caller, since
//! there is no response channel; a pooled strategy hands heavy work
//! (such as reacting to a document change) to the pool against a
//! snapshot, where failures are only logged. `finish` logs a
//! notification nothing claimed — unless its method uses the prefix
//! reserved by protocol convention for ignorable traffic.

use vstd::prelude::*;

use crate::protocol::{
    handler_error_text, HandlerError, Notification, NotifyError, RequestId, Response,
    ResponseError, Task, ThreadIntent, is_err_response, CONTENT_MODIFIED,
};
use crate::state::{ServerState, Snapshot};

verus! {

/// A method name reserved by protocol convention for
/// implementation-defined traffic: it begins with "$/". Such a
/// notification is never reported as unhandled.
pub open spec fn is_reserved_method(m: Seq<char>) -> bool {
    m.len() >= 2 && m[0] == '$' && m[1] == '/'
}

/// Whether a method name uses the reserved "$/" prefix.
pub fn method_is_reserved(m: &String) -> (b: bool)
    ensures
        b == is_reserved_method(m@),
{
    let s = m.as_str();
    if s.unicode_len() >= 2 {
        let c0 = s.get_char(0);
        let c1 = s.get_char(1);
        c0 == '$' && c1 == '/'
    } else {
        false
    }
}

/// Routes one raw notification to the first handler whose method
/// matches; the slot holds it until a strategy claims it.
pub struct NotificationDispatcher {
    pub not: Option<Notification>,
}

impl NotificationDispatcher {
    /// The slot still holds a notification whose method is `method`.
    pub open spec fn matches(self, method: Seq<char>) -> bool {
        self.not matches Some(n) && n.method@ == method
    }

    /// A dispatcher holding the given notification, not yet claimed.
    pub fn new(not: Notification) -> (d: NotificationDispatcher)
        ensures
            d.not == Some(not),
    {
        NotificationDispatcher { not: Some(not) }
    }

    /// Mutable-main strategy: run the handler at once on the calling
    /// thread against the live mutable state. A payload the decoder
    /// rejects, or a failing handler, is reported to the caller — the
    /// loop's own error handling — since no response can carry it.
    pub fn on_sync_mut<
        P,
        D: Fn(&serde_json::Value) -> Result<P, String>,
        F: Fn(Vec<u8>, P) -> (Vec<u8>, Result<(), HandlerError>),
    >(&mut self, state: &mut ServerState, method: &String, decode: D, f: F) -> (r: Result<
        (),
        NotifyError,
    >)
        requires
            forall|v: &serde_json::Value| #[trigger] call_requires(decode, (v,)),
            forall|d: Vec<u8>, p: P| #[trigger] call_requires(f, (d, p)),
        ensures
            !old(self).matches(method@) ==> {
                &&& *final(self) == *old(self)
                &&& *final(state) == *old(state)
                &&& r is Ok
            },
            old(self).matches(method@) ==> final(self).not is None && ({
                let n0 = old(self).not->Some_0;
                ||| (exists|e: String|
                    {
                        &&& #[trigger] call_ensures(decode, (&n0.params,), Err(e))
                        &&& *final(state) == *old(state)
                        &&& r == Err::<(), NotifyError>(NotifyError::Decode(e))
                    })
                ||| (exists|p: P, d1: Vec<u8>, hres: Result<(), HandlerError>|
                    {
                        &&& #[trigger] call_ensures(decode, (&n0.params,), Ok(p))
                        &&& #[trigger] call_ensures(f, (old(state).data, p), (d1, hres))
                        &&& final(state).data == d1
                        &&& final(state).outbox == old(state).outbox
                        &&& final(state).tasks == old(state).tasks
                        &&& final(state).log == old(state).log
                        &&& match hres {
                            Ok(u) => r is Ok,
                            Err(he) => r == Err::<(), NotifyError>(NotifyError::Handler(he)),
                        }
                    })
            }),
    {
        let matched = match &self.not {
            Some(n) => n.method == *method,
            None => false,
        };
        if !matched {
            return Ok(());
        }
        let not = self.not.take().unwrap();
        match decode(&not.params) {
            Err(e) => Err(NotifyError::Decode(e)),
            Ok(p) => {
                let data0 = state.take_data();
                let (d1, hres) = f(data0, p);
                state.put_data(d1);
                match hres {
                    Ok(()) => Ok(()),
                    Err(he) => Err(NotifyError::Handler(he)),
                }
            }
        }
    }

    /// Pooled strategy for a heavy, asynchronous notification: decode,
    /// take a snapshot, run the side-effecting work against it, and hand
    /// a placeholder completion task back to the main loop. A failure of
    /// the work is only logged — once handed to the pool there is no
    /// caller left to report it to.
    pub fn on_pooled<
        P,
        D: Fn(&serde_json::Value) -> Result<P, String>,
        F: Fn(Snapshot, P) -> Result<(), HandlerError>,
    >(&mut self, state: &mut ServerState, method: &String, decode: D, f: F) -> (r: Result<
        (),
        NotifyError,
    >)
        requires
            forall|v: &serde_json::Value| #[trigger] call_requires(decode, (v,)),
            forall|s: Snapshot, p: P| #[trigger] call_requires(f, (s, p)),
        ensures
            !old(self).matches(method@) ==> {
                &&& *final(self) == *old(self)
                &&& *final(state) == *old(state)
                &&& r is Ok
            },
            old(self).matches(method@) ==> final(self).not is None && ({
                let n0 = old(self).not->Some_0;
                ||| (exists|e: String|
                    {
                        &&& #[trigger] call_ensures(decode, (&n0.params,), Err(e))
                        &&& *final(state) == *old(state)
                        &&& r == Err::<(), NotifyError>(NotifyError::Decode(e))
                    })
                ||| (exists|p: P, snap: Snapshot, hres: Result<(), HandlerError>|
                    {
                        &&& #[trigger] call_ensures(decode, (&n0.params,), Ok(p))
                        &&& snap.data@ == old(state).data@
                        &&& #[trigger] call_ensures(f, (snap, p), hres)
                        &&& final(state).data == old(state).data
                        &&& final(state).outbox == old(state).outbox
                        &&& final(state).tasks@ == old(state).tasks@.push(
                            final(state).tasks@.last(),
                        )
                        &&& final(state).tasks@.last().intent == ThreadIntent::Worker
                        &&& (final(state).tasks@.last().task matches Task::Response(resp)
                            && is_err_response(
                            resp,
                            RequestId::Num(1),
                            CONTENT_MODIFIED,
                            "content modified"@,
                        ))
                        &&& match hres {
                            Ok(u) => final(state).log == old(state).log,
                            Err(he) => final(state).log@ == old(state).log@.push(
                                final(state).log@.last(),
                            ) && final(state).log@.last()@ == handler_error_text(he),
                        }
                        &&& r is Ok
                    })
            }),
    {
        let matched = match &self.not {
            Some(n) => n.method == *method,
            None => false,
        };
        if !matched {
            return Ok(());
        }
        let not = self.not.take().unwrap();
        match decode(&not.params) {
            Err(e) => Err(NotifyError::Decode(e)),
            Ok(p) => {
                let snap = state.snapshot();
                let hres = f(snap, p);
                match &hres {
                    Ok(_) => {}
                    Err(he) => {
                        let text = he.describe();
                        state.note_unclaimed(text);
                    }
                }
                state.submit(
                    ThreadIntent::Worker,
                    Task::Response(Response {
                        id: RequestId::Num(1),
                        result: None,
                        error: Some(ResponseError {
                            code: CONTENT_MODIFIED,
                            message: String::from_str("content modified"),
                        }),
                    }),
                );
                Ok(())
            }
        }
    }

    /// Log a notification nothing claimed, except one whose method uses
    /// the reserved "$/" prefix; the slot itself is left as it is.
    pub fn finish(&mut self, state: &mut ServerState)
        ensures
            *final(self) == *old(self),
            final(state).data == old(state).data,
            final(state).outbox == old(state).outbox,
            final(state).tasks == old(state).tasks,
            match old(self).not {
                None => final(state).log == old(state).log,
                Some(n) => {
                    if is_reserved_method(n.method@) {
                        final(state).log == old(state).log
                    } else {
                        final(state).log@ == old(state).log@.push(n.method)
                    }
                },
            },
    {
        match &self.not {
            None => {}
            Some(n) => {
                if !method_is_reserved(&n.method) {
                    let m = n.method.clone();
                    state.note_unclaimed(m);
                }
            }
        }
    }
}

} // verus!
