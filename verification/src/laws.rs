//! The guarantees the correlation engine gives across calls, stated
//! over the abstract state and proved once and for all: commands
//! are refused until registration and never after, ids are allocated
//! fresh, and each response reaches exactly its own waiter, exactly
//! once.

use vstd::prelude::*;

use crate::engine::{
    CommandResponse, DispatchError, EngineView, RouterAction, dispatch_spec, next_free_id,
    route_spec, scan_free,
};
use crate::inbound::InboundEvent;

verus! {

/// The outcome of dispatching a sequence of commands one after the
/// other against the same engine: the final state, and one result per
/// command, in order.
pub open spec fn dispatch_all(s: EngineView, waiters: Seq<u64>) -> (EngineView, Seq<
    Result<u8, DispatchError>,
>)
    decreases waiters.len(),
{
    if waiters.len() == 0 {
        (s, Seq::empty())
    } else {
        let first = dispatch_spec(s, waiters[0]);
        let rest = dispatch_all(first.0, waiters.skip(1));
        (rest.0, seq![first.1] + rest.1)
    }
}

/// Before registration every command is refused: dispatching
/// any number of commands against an unregistered engine leaves the
/// state exactly as it was and fails each one with `NotRegistered` —
/// in particular, no id is consumed, nothing is reserved, and no wire
/// text is produced to send.
pub proof fn lemma_unregistered_burst(s: EngineView, waiters: Seq<u64>)
    requires
        !s.registered,
    ensures
        dispatch_all(s, waiters).0 == s,
        dispatch_all(s, waiters).1.len() == waiters.len(),
        forall|i: int|
            0 <= i < waiters.len() ==> dispatch_all(s, waiters).1[i] == Err::<u8, DispatchError>(
                DispatchError::NotRegistered,
            ),
    decreases waiters.len(),
{
    if waiters.len() > 0 {
        lemma_unregistered_burst(s, waiters.skip(1));
        assert forall|i: int|
            0 <= i < waiters.len() implies dispatch_all(s, waiters).1[i] == Err::<
            u8,
            DispatchError,
        >(DispatchError::NotRegistered) by {
            if i > 0 {
                assert(dispatch_all(s, waiters.skip(1)).1[i - 1] == Err::<u8, DispatchError>(
                    DispatchError::NotRegistered,
                ));
            }
        }
    }
}

/// Only the registration acknowledgment sets the registration flag, and nothing
/// ever unsets it: after routing any event the flag is set exactly
/// when it already was or the event was `Registered`.
pub proof fn lemma_registration_monotone(s: EngineView, ev: InboundEvent)
    ensures
        route_spec(s, ev).0.registered == (s.registered || ev == InboundEvent::Registered),
{
}

/// Dispatching never touches the registration flag: sending becomes possible
/// immediately once the flag is set, and a command refused or
/// allocated leaves it as it was.
pub proof fn lemma_dispatch_preserves_registration(s: EngineView, waiter: u64)
    ensures
        dispatch_spec(s, waiter).0.registered == s.registered,
{
}

/// An id returned by the free-id scan is not in flight.
pub proof fn lemma_scan_free_fresh(pending: Map<u8, u64>, next: u8, k: int)
    requires
        scan_free(pending, next, k) is Some,
    ensures
        !pending.contains_key(scan_free(pending, next, k).unwrap()),
    decreases 256 - k,
{
    if !(k < 0 || k >= 256) {
        if pending.contains_key(crate::engine::candidate_id(next, k)) {
            lemma_scan_free_fresh(pending, next, k + 1);
        }
    }
}

/// When the scan finds nothing from offset `j` on, every id it
/// probed from there is in flight.
proof fn lemma_scan_none_at(pending: Map<u8, u64>, next: u8, j: int, k: int)
    requires
        0 <= j <= k < 256,
        scan_free(pending, next, j) is None,
    ensures
        pending.contains_key(crate::engine::candidate_id(next, k)),
    decreases k - j,
{
    if j < k {
        lemma_scan_none_at(pending, next, j + 1, k);
    }
}

/// A command is refused for want of an id exactly when every id in
/// the protocol's single-byte range is in flight.
pub proof fn lemma_table_full_only_when_full(s: EngineView, waiter: u64)
    requires
        s.registered,
    ensures
        dispatch_spec(s, waiter).1 == Err::<u8, DispatchError>(DispatchError::TableFull) <==> (
        forall|id: u8| s.pending.contains_key(id)),
{
    if next_free_id(s) is None {
        assert forall|id: u8| s.pending.contains_key(id) by {
            let d: int = (id as int) - (s.next_id as int) - 1;
            let k: int = if d >= 0 {
                d
            } else {
                d + 256
            };
            assert(0 <= k < 256);
            assert(crate::engine::candidate_id(s.next_id, k) == id);
            lemma_scan_none_at(s.pending, s.next_id, 0, k);
        }
    } else {
        lemma_scan_free_fresh(s.pending, s.next_id, 0);
    }
}

/// Id allocation is collision-free: a successfully dispatched command
/// gets an id that no in-flight request carries, and the new entry is
/// reserved under it before anything else can be dispatched.
pub proof fn lemma_allocated_id_fresh(s: EngineView, waiter: u64)
    ensures
        dispatch_spec(s, waiter).1 matches Ok(id) ==> !s.pending.contains_key(id) && dispatch_spec(
            s,
            waiter,
        ).0.pending == s.pending.insert(id, waiter),
{
    if s.registered && next_free_id(s) is Some {
        lemma_scan_free_fresh(s.pending, s.next_id, 0);
    }
}

/// Two commands dispatched one after the other never share an id
/// while both are outstanding: the second allocation avoids every id
/// still in the table, the first's included.
pub proof fn lemma_no_id_collision(s: EngineView, w1: u64, w2: u64)
    ensures
        ({
            let first = dispatch_spec(s, w1);
            let second = dispatch_spec(first.0, w2);
            (first.1 is Ok && second.1 is Ok) ==> first.1->Ok_0 != second.1->Ok_0
        }),
{
    lemma_allocated_id_fresh(s, w1);
    lemma_allocated_id_fresh(dispatch_spec(s, w1).0, w2);
}

/// Each caller receives exactly the response whose id matches its own
/// request: routing an in-flight response resolves precisely the
/// waiter registered under that id, carries that id in the response,
/// removes that entry, and leaves every other entry untouched.
pub proof fn lemma_response_resolves_own_waiter(s: EngineView, id: u8, payload: Option<String>)
    requires
        s.registered,
        s.pending.contains_key(id),
    ensures
        route_spec(s, InboundEvent::Response { id, payload }).1 == (RouterAction::Resolve {
            waiter: s.pending[id],
            response: CommandResponse { id, payload },
        }),
        !route_spec(s, InboundEvent::Response { id, payload }).0.pending.contains_key(id),
        forall|k: u8|
            k != id ==> route_spec(s, InboundEvent::Response { id, payload }).0.pending.contains_key(
                k,
            ) == s.pending.contains_key(k),
        forall|k: u8|
            k != id && s.pending.contains_key(k) ==> route_spec(
                s,
                InboundEvent::Response { id, payload },
            ).0.pending[k] == s.pending[k],
{
}

/// A response is delivered exactly once: after an in-flight response
/// has been resolved, a second response carrying the same id finds no
/// entry and is dropped.
pub proof fn lemma_response_resolved_once(
    s: EngineView,
    id: u8,
    payload: Option<String>,
    payload2: Option<String>,
)
    requires
        s.registered,
        s.pending.contains_key(id),
    ensures
        route_spec(
            route_spec(s, InboundEvent::Response { id, payload }).0,
            InboundEvent::Response { id, payload: payload2 },
        ).1 == RouterAction::DropUnmatched,
{
}

/// An unmatched response never disturbs the engine: it is dropped,
/// the state is exactly as before, and a correctly-matched response
/// arriving afterwards is still delivered to its own waiter.
pub proof fn lemma_unmatched_is_harmless(
    s: EngineView,
    id1: u8,
    p1: Option<String>,
    id2: u8,
    p2: Option<String>,
)
    requires
        s.registered,
        !s.pending.contains_key(id1),
        s.pending.contains_key(id2),
    ensures
        route_spec(s, InboundEvent::Response { id: id1, payload: p1 }).0 == s,
        route_spec(s, InboundEvent::Response { id: id1, payload: p1 }).1
            == RouterAction::DropUnmatched,
        route_spec(
            route_spec(s, InboundEvent::Response { id: id1, payload: p1 }).0,
            InboundEvent::Response { id: id2, payload: p2 },
        ).1 == (RouterAction::Resolve {
            waiter: s.pending[id2],
            response: CommandResponse { id: id2, payload: p2 },
        }),
{
}

/// A correlated message arriving before registration is dropped
/// without touching the table: a command issued afterwards can still
/// be matched to its own later response.
pub proof fn lemma_early_response_dropped(s: EngineView, id: u8, payload: Option<String>)
    requires
        !s.registered,
    ensures
        route_spec(s, InboundEvent::Response { id, payload }).0 == s,
        route_spec(s, InboundEvent::Response { id, payload }).1 == RouterAction::DropUnregistered,
{
}

} // verus!
