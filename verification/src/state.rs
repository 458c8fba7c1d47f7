//! The mutable server state owned by the main loop, and the immutable
//! snapshots of it that pool threads read.
//!
//! One designated thread owns the single mutable copy; everything a
//! pooled handler sees is an independently owned snapshot taken at
//! dispatch time. The state also carries the dispatch core's channels
//! back to the main loop: the outbox of responses to deliver, the inbox
//! of pool-produced tasks, and a diagnostic log of unclaimed methods.

use vstd::prelude::*;

use crate::protocol::{PoolTask, Response, Task, ThreadIntent};

verus! {

/// Authoritative server state plus the dispatch core's outputs.
pub struct ServerState {
    /// The semantic state handlers read and the owning thread mutates;
    /// opaque to the dispatch core.
    pub data: Vec<u8>,
    /// Responses delivered to the remote peer, oldest first.
    pub outbox: Vec<Response>,
    /// Tasks produced by pooled work, awaiting the main loop.
    pub tasks: Vec<PoolTask>,
    /// Method names of messages nothing claimed, for diagnostics.
    pub log: Vec<String>,
}

/// An immutable, independently owned view of the semantic state at a
/// point in time; safe to move across thread boundaries, and never
/// affected by later mutation of the live state.
pub struct Snapshot {
    pub data: Vec<u8>,
}

/// Everything but the outbox is the same in `post` as in `pre`.
pub open spec fn only_outbox_changed(pre: ServerState, post: ServerState) -> bool {
    &&& post.data == pre.data
    &&& post.tasks == pre.tasks
    &&& post.log == pre.log
}

/// `post` is `pre` with exactly `resp` appended to the outbox.
pub open spec fn delivered(pre: ServerState, post: ServerState, resp: Response) -> bool {
    &&& only_outbox_changed(pre, post)
    &&& post.outbox@ == pre.outbox@.push(resp)
}

impl ServerState {
    /// A fresh state around the given semantic data, with empty outbox,
    /// task inbox and log.
    pub fn new(data: Vec<u8>) -> (s: ServerState)
        ensures
            s.data == data,
            s.outbox@ == Seq::<Response>::empty(),
            s.tasks@ == Seq::<PoolTask>::empty(),
            s.log@ == Seq::<String>::empty(),
    {
        ServerState { data, outbox: Vec::new(), tasks: Vec::new(), log: Vec::new() }
    }

    /// Deliver a response to the remote peer: append it to the outbox.
    pub fn respond(&mut self, resp: Response)
        ensures
            delivered(*old(self), *final(self), resp),
    {
        self.outbox.push(resp);
    }

    /// Hand a finished pool task back to the main loop, tagged with the
    /// intent it was scheduled under.
    pub fn submit(&mut self, intent: ThreadIntent, task: Task)
        ensures
            final(self).data == old(self).data,
            final(self).outbox == old(self).outbox,
            final(self).log == old(self).log,
            final(self).tasks@ == old(self).tasks@.push((PoolTask { intent, task })),
    {
        self.tasks.push(PoolTask { intent, task });
    }

    /// Record a method name nothing claimed.
    pub fn note_unclaimed(&mut self, method: String)
        ensures
            final(self).data == old(self).data,
            final(self).outbox == old(self).outbox,
            final(self).tasks == old(self).tasks,
            final(self).log@ == old(self).log@.push(method),
    {
        self.log.push(method);
    }

    /// Move the semantic data out, leaving it empty; used by the
    /// mutable-main strategy to hand the authoritative data to a handler.
    pub fn take_data(&mut self) -> (d: Vec<u8>)
        ensures
            d == old(self).data,
            final(self).data@ == Seq::<u8>::empty(),
            final(self).outbox == old(self).outbox,
            final(self).tasks == old(self).tasks,
            final(self).log == old(self).log,
    {
        let mut d: Vec<u8> = Vec::new();
        core::mem::swap(&mut d, &mut self.data);
        d
    }

    /// Put semantic data back after a mutable-main handler returned it.
    pub fn put_data(&mut self, d: Vec<u8>)
        ensures
            final(self).data == d,
            final(self).outbox == old(self).outbox,
            final(self).tasks == old(self).tasks,
            final(self).log == old(self).log,
    {
        self.data = d;
    }

    /// Take an immutable snapshot of the semantic state as it is now.
    /// The snapshot owns its copy: later mutation of the live state
    /// cannot reach it.
    pub fn snapshot(&self) -> (s: Snapshot)
        ensures
            s.data@ == self.data@,
    {
        Snapshot { data: copy_bytes(&self.data) }
    }
}

/// An owned, element-for-element copy of a byte vector.
fn copy_bytes(v: &Vec<u8>) -> (r: Vec<u8>)
    ensures
        r@ == v@,
{
    let mut r: Vec<u8> = Vec::new();
    let mut i: usize = 0;
    while i < v.len()
        invariant
            i <= v.len(),
            r@ =~= v@.subrange(0, i as int),
        decreases v.len() - i,
    {
        r.push(v[i]);
        i += 1;
    }
    proof {
        assert(r@ =~= v@);
    }
    r
}

} // verus!
