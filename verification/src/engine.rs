//! The correlation engine: a strictly increasing id allocator, the pending
//! table from id to waiter, and the routing step that completes exactly the
//! waiter a reply is addressed to.

use vstd::prelude::*;
use vstd::std_specs::hash::*;
use std::collections::HashMap;
use crate::wire::Inbound;

verus! {

/// What a routed reply hands to the waiting caller: the raw result payload,
/// or the peer's protocol-level error.
pub enum Reply {
    Success { payload: serde_json::Value },
    Failure { code: i64, message: String },
}

/// Why an inbound message was dropped instead of completing a waiter.
pub enum Dropped {
    /// A reply whose integer id has no pending entry (stale or unsolicited).
    UnknownId { id: i64 },
    /// A reply whose id is not of the integer wire form.
    NonIntegerId,
    /// A notification: logged only, no correlation.
    Notification,
    /// A structurally valid but unexpected shape.
    UnexpectedShape,
    /// A line that is not a well-formed message.
    MalformedLine,
}

/// What the reader loop must do with one inbound message: complete a waiter
/// with a reply, or log and drop the message.
pub enum Action<W> {
    Deliver { waiter: W, reply: Reply },
    Drop { reason: Dropped },
}

/// What one inbound message does to the pending table, and the action it
/// calls for: a reply with a pending integer id removes exactly that entry
/// and delivers to its waiter; everything else leaves the table untouched.
pub open spec fn route_model<W>(t: Map<i64, W>, m: Inbound) -> (Map<i64, W>, Action<W>) {
    match m {
        Inbound::Response { id, payload } => {
            if t.contains_key(id) {
                (t.remove(id), Action::Deliver { waiter: t[id], reply: Reply::Success { payload } })
            } else {
                (t, Action::Drop { reason: Dropped::UnknownId { id } })
            }
        },
        Inbound::Failure { id, code, message } => {
            if t.contains_key(id) {
                (
                    t.remove(id),
                    Action::Deliver { waiter: t[id], reply: Reply::Failure { code, message } },
                )
            } else {
                (t, Action::Drop { reason: Dropped::UnknownId { id } })
            }
        },
        Inbound::UnmatchedReply => (t, Action::Drop { reason: Dropped::NonIntegerId }),
        Inbound::Notification => (t, Action::Drop { reason: Dropped::Notification }),
        Inbound::Other => (t, Action::Drop { reason: Dropped::UnexpectedShape }),
        Inbound::Invalid => (t, Action::Drop { reason: Dropped::MalformedLine }),
    }
}

/// The correlation state of one session: the next request id, the table of
/// pending waiters keyed by the id each request went out under, and whether
/// the session has been closed.
pub struct Correlator<W> {
    next_id: i64,
    pending: HashMap<i64, W>,
    closed: bool,
}

impl<W> Correlator<W> {
    /// The pending table as a map from id to waiter.
    pub closed spec fn pending_map(self) -> Map<i64, W> {
        self.pending@
    }

    /// The id the next request will be allocated.
    pub closed spec fn next_id(self) -> int {
        self.next_id as int
    }

    /// Whether the session has been closed: no further request can be
    /// registered, and nothing is pending.
    pub closed spec fn is_closed(self) -> bool {
        self.closed
    }

    /// Ids start at 1 and every pending id was allocated earlier than the
    /// next one, so a freshly allocated id is never already pending.
    pub closed spec fn wf(self) -> bool {
        &&& 1 <= self.next_id
        &&& forall|k: i64| self.pending_map().contains_key(k) ==> 0 < k < self.next_id
    }

    /// A new session state: open, no pending requests, ids starting at 1.
    pub fn new() -> (c: Correlator<W>)
        ensures
            c.wf(),
            c.pending_map() == Map::<i64, W>::empty(),
            c.next_id() == 1,
            !c.is_closed(),
    {
        Correlator { next_id: 1, pending: HashMap::new(), closed: false }
    }

    /// Whether another id can still be allocated.
    pub fn has_capacity(&self) -> (r: bool)
        ensures
            r == (self.next_id() < i64::MAX),
    {
        self.next_id < i64::MAX
    }

    /// The number of requests still awaiting a reply.
    pub fn pending_count(&self) -> (n: usize)
        ensures
            n == self.pending_map().len(),
    {
        self.pending.len()
    }

    /// Whether a request with this id is still awaiting a reply.
    pub fn is_pending(&self, id: i64) -> (r: bool)
        ensures
            r == self.pending_map().contains_key(id),
    {
        self.pending.contains_key(&id)
    }

    /// Whether the session has been closed.
    pub fn session_closed(&self) -> (r: bool)
        ensures
            r == self.is_closed(),
    {
        self.closed
    }

    /// Close the session: the sweep run when the inbound stream ends. Every
    /// waiter still registered is dropped here, which abandons its caller's
    /// wait — the wait then yields no reply, and `interpret` turns that into
    /// the connection-closed outcome rather than an indefinite hang. No
    /// request can be registered afterwards.
    pub fn close(&mut self)
        requires
            old(self).wf(),
        ensures
            final(self).wf(),
            final(self).is_closed(),
            final(self).pending_map() == Map::<i64, W>::empty(),
            final(self).next_id() == old(self).next_id(),
    {
        self.closed = true;
        self.pending.clear();
    }

    /// Allocate the next id and register the caller's waiter under it,
    /// before the request is ever sent. The id is fresh: it was not pending
    /// before, and no later allocation will repeat it.
    pub fn begin_request(&mut self, waiter: W) -> (id: i64)
        requires
            old(self).wf(),
            old(self).next_id() < i64::MAX,
            !old(self).is_closed(),
        ensures
            final(self).wf(),
            !final(self).is_closed(),
            id == old(self).next_id(),
            0 < id,
            !old(self).pending_map().contains_key(id),
            final(self).pending_map() == old(self).pending_map().insert(id, waiter),
            final(self).next_id() == id + 1,
    {
        let id = self.next_id;
        self.next_id = self.next_id + 1;
        self.pending.insert(id, waiter);
        proof {
            assert forall|k: i64| self.pending_map().contains_key(k) implies 0 < k
                < self.next_id by {
                if k != id {
                    assert(old(self).pending_map().contains_key(k));
                }
            }
        }
        id
    }

    /// Route one classified inbound message: complete and remove exactly the
    /// pending entry the reply is addressed to, or drop the message with the
    /// table untouched.
    pub fn route(&mut self, m: Inbound) -> (a: Action<W>)
        requires
            old(self).wf(),
        ensures
            final(self).wf(),
            final(self).next_id() == old(self).next_id(),
            final(self).is_closed() == old(self).is_closed(),
            (final(self).pending_map(), a) == route_model(old(self).pending_map(), m),
    {
        match m {
            Inbound::Response { id, payload } => {
                match self.pending.remove(&id) {
                    Some(waiter) => {
                        proof {
                            assert forall|k: i64| self.pending_map().contains_key(k) implies 0 < k
                                < self.next_id by {
                                assert(old(self).pending_map().contains_key(k));
                            }
                        }
                        Action::Deliver { waiter, reply: Reply::Success { payload } }
                    },
                    None => {
                        proof {
                            assert(self.pending_map() =~= old(self).pending_map());
                        }
                        Action::Drop { reason: Dropped::UnknownId { id } }
                    },
                }
            },
            Inbound::Failure { id, code, message } => {
                match self.pending.remove(&id) {
                    Some(waiter) => {
                        proof {
                            assert forall|k: i64| self.pending_map().contains_key(k) implies 0 < k
                                < self.next_id by {
                                assert(old(self).pending_map().contains_key(k));
                            }
                        }
                        Action::Deliver { waiter, reply: Reply::Failure { code, message } }
                    },
                    None => {
                        proof {
                            assert(self.pending_map() =~= old(self).pending_map());
                        }
                        Action::Drop { reason: Dropped::UnknownId { id } }
                    },
                }
            },
            Inbound::UnmatchedReply => Action::Drop { reason: Dropped::NonIntegerId },
            Inbound::Notification => Action::Drop { reason: Dropped::Notification },
            Inbound::Other => Action::Drop { reason: Dropped::UnexpectedShape },
            Inbound::Invalid => Action::Drop { reason: Dropped::MalformedLine },
        }
    }
}

/// What a caller's completed wait means: a reply delivered by the router
/// resolves to its payload or to the peer's error, and a wait whose waiter
/// was abandoned because the session's loops terminated resolves to the
/// connection-closed condition — never to an indefinite hang.
pub enum Outcome {
    /// The raw result payload, still to be decoded by the caller.
    Success { payload: serde_json::Value },
    /// The peer answered this request with a protocol-level error.
    Protocol { code: i64, message: String },
    /// The session closed before a reply arrived.
    Closed,
}

/// Translate what the caller's wait produced into its outcome. `None` means
/// the waiter was dropped without a reply: the session closed.
pub fn interpret(r: Option<Reply>) -> (o: Outcome)
    ensures
        o == match r {
            None => Outcome::Closed,
            Some(Reply::Success { payload }) => Outcome::Success { payload },
            Some(Reply::Failure { code, message }) => Outcome::Protocol { code, message },
        },
{
    match r {
        None => Outcome::Closed,
        Some(Reply::Success { payload }) => Outcome::Success { payload },
        Some(Reply::Failure { code, message }) => Outcome::Protocol { code, message },
    }
}

} // verus!
