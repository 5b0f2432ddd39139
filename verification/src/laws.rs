//! The laws the correlation engine obeys, proved over the routing model.

use vstd::prelude::*;
use crate::engine::{route_model, Action, Dropped, Reply};
use crate::wire::Inbound;

verus! {

/// Each caller receives exactly the reply addressed to its own id: routing a
/// response for one pending id delivers that reply to that id's waiter, and
/// every other pending entry is left exactly as it was.
pub proof fn law_reply_routes_by_id<W>(
    t: Map<i64, W>,
    id: i64,
    other: i64,
    payload: serde_json::Value,
)
    requires
        t.contains_key(id),
        t.contains_key(other),
        other != id,
    ensures
        route_model(t, Inbound::Response { id, payload }).1 == (Action::Deliver {
            waiter: t[id],
            reply: Reply::Success { payload },
        }),
        route_model(t, Inbound::Response { id, payload }).0.contains_key(other),
        route_model(t, Inbound::Response { id, payload }).0[other] == t[other],
        !route_model(t, Inbound::Response { id, payload }).0.contains_key(id),
{
}

/// The same, for a reply that carries the peer's protocol-level error: it
/// completes exactly its own id's waiter and leaves every other entry alone.
pub proof fn law_error_reply_routes_by_id<W>(
    t: Map<i64, W>,
    id: i64,
    other: i64,
    code: i64,
    message: String,
)
    requires
        t.contains_key(id),
        t.contains_key(other),
        other != id,
    ensures
        route_model(t, Inbound::Failure { id, code, message }).1 == (Action::Deliver {
            waiter: t[id],
            reply: Reply::Failure { code, message },
        }),
        route_model(t, Inbound::Failure { id, code, message }).0.contains_key(other),
        route_model(t, Inbound::Failure { id, code, message }).0[other] == t[other],
        !route_model(t, Inbound::Failure { id, code, message }).0.contains_key(id),
{
}

/// Registration happens-before the send: once a waiter is registered under a
/// fresh id, a reply to that id — even one that arrives before the send call
/// returns — is delivered to exactly that waiter.
pub proof fn law_instant_reply_not_lost<W>(
    t: Map<i64, W>,
    id: i64,
    waiter: W,
    payload: serde_json::Value,
)
    requires
        !t.contains_key(id),
    ensures
        route_model(t.insert(id, waiter), Inbound::Response { id, payload }).1 == (Action::Deliver {
            waiter,
            reply: Reply::Success { payload },
        }),
        route_model(t.insert(id, waiter), Inbound::Response { id, payload }).0 =~= t,
{
}

/// A reply bearing an unknown integer id — a response or an error alike — is
/// dropped without affecting any pending entry.
pub proof fn law_unknown_id_harmless<W>(
    t: Map<i64, W>,
    id: i64,
    payload: serde_json::Value,
    code: i64,
    message: String,
)
    requires
        !t.contains_key(id),
    ensures
        route_model(t, Inbound::Response { id, payload }).0 == t,
        route_model(t, Inbound::Response { id, payload }).1 == (Action::Drop::<W> {
            reason: Dropped::UnknownId { id },
        }),
        route_model(t, Inbound::Failure { id, code, message }).0 == t,
        route_model(t, Inbound::Failure { id, code, message }).1 == (Action::Drop::<W> {
            reason: Dropped::UnknownId { id },
        }),
{
}

/// No inbound message other than the reply addressed to an id can disturb
/// that id's pending entry, whatever else the message does.
pub proof fn law_other_entries_untouched<W>(t: Map<i64, W>, m: Inbound, k: i64)
    requires
        t.contains_key(k),
        m matches Inbound::Response { id, .. } ==> id != k,
        m matches Inbound::Failure { id, .. } ==> id != k,
    ensures
        route_model(t, m).0.contains_key(k),
        route_model(t, m).0[k] == t[k],
{
}

/// A pending entry is completed at most once: after a reply has drained it,
/// a second reply bearing the same id finds nothing and is dropped.
pub proof fn law_entry_completes_at_most_once<W>(
    t: Map<i64, W>,
    id: i64,
    first: serde_json::Value,
    second: serde_json::Value,
)
    requires
        t.contains_key(id),
    ensures
        route_model(
            route_model(t, Inbound::Response { id, payload: first }).0,
            Inbound::Response { id, payload: second },
        ).1 == (Action::Drop::<W> { reason: Dropped::UnknownId { id } }),
{
}

/// The pending table after a whole sequence of inbound messages has been
/// routed, first message first.
pub open spec fn table_after<W>(t: Map<i64, W>, msgs: Seq<Inbound>) -> Map<i64, W>
    decreases msgs.len(),
{
    if msgs.len() == 0 {
        t
    } else {
        table_after(route_model(t, msgs[0]).0, msgs.drop_first())
    }
}

/// Routing a sequence of messages splits at any point: the table after the
/// whole sequence is the table after the second part, started from the table
/// after the first.
pub proof fn lemma_table_after_append<W>(t: Map<i64, W>, s1: Seq<Inbound>, s2: Seq<Inbound>)
    ensures
        table_after(t, s1 + s2) == table_after(table_after(t, s1), s2),
    decreases s1.len(),
{
    if s1.len() == 0 {
        assert(s1 + s2 =~= s2);
    } else {
        assert((s1 + s2).drop_first() =~= s1.drop_first() + s2);
        lemma_table_after_append(route_model(t, s1[0]).0, s1.drop_first(), s2);
    }
}

/// One malformed inbound line does not stop the lines after it from being
/// correctly correlated: the table after any sequence with a malformed line
/// in its midst equals the table after the same sequence without it.
pub proof fn law_malformed_line_transparent<W>(
    t: Map<i64, W>,
    before: Seq<Inbound>,
    after: Seq<Inbound>,
)
    ensures
        table_after(t, before + seq![Inbound::Invalid] + after) == table_after(t, before + after),
{
    let bad = seq![Inbound::Invalid];
    lemma_table_after_append(t, before + bad, after);
    lemma_table_after_append(t, before, bad);
    lemma_table_after_append(t, before, after);
    let tb = table_after(t, before);
    assert(bad[0] == Inbound::Invalid);
    assert(route_model(tb, bad[0]).0 == tb);
    assert(bad.drop_first() =~= Seq::<Inbound>::empty());
    assert(table_after(tb, bad.drop_first()) == tb);
    assert(table_after(tb, bad) == tb);
}

} // verus!
