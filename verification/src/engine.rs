//! The correlation engine: the registration flag, the request id
//! counter, and the table of in-flight requests, with one atomic
//! step per protocol decision.
//!
//! The engine owns no socket and never waits. The embedding
//! application holds it behind one lock (or inside one owning task),
//! calls [`Engine::begin_command`] for each caller, performs the send,
//! and feeds every inbound message to [`Engine::handle_message`]; each
//! call is one critical section, and the returned action tells the
//! application which completion handle to settle.

use std::collections::HashMap;
use vstd::prelude::*;

use crate::commands::Command;
use crate::commands::create_command;
use crate::inbound::{InboundEvent, event_of, parse_inbound};
use crate::wire::{request_wire, serialize_request};

verus! {

broadcast use vstd::std_specs::hash::group_hash_axioms;

/// A response delivered back to the caller that issued the request
/// with the same id. The payload is the response's `payload` field
/// rendered as JSON text, absent when the message carried none.
#[derive(Debug, PartialEq)]
pub struct CommandResponse {
    pub id: u8,
    pub payload: Option<String>,
}

/// Why a command could not be dispatched, or how a suspended caller
/// was let go when the connection ended.
#[derive(Debug, Clone, Copy, PartialEq, Eq, Structural)]
pub enum DispatchError {
    /// The registration handshake has not completed; nothing was sent.
    NotRegistered,
    /// Every id in the protocol range is awaiting a response.
    TableFull,
    /// The transport refused the outbound message.
    SendFailed,
    /// The transport ended while the request was outstanding.
    ConnectionClosed,
}

impl DispatchError {
    /// The human-readable description of this error.
    pub open spec fn message_spec(self) -> Seq<char> {
        match self {
            DispatchError::NotRegistered => "Not registered"@,
            DispatchError::TableFull => "No free command id"@,
            DispatchError::SendFailed => "Could not send command"@,
            DispatchError::ConnectionClosed => "Connection closed"@,
        }
    }

    /// Describe this error.
    pub fn message(&self) -> (s: String)
        ensures
            s@ == self.message_spec(),
    {
        match self {
            DispatchError::NotRegistered => "Not registered".to_owned(),
            DispatchError::TableFull => "No free command id".to_owned(),
            DispatchError::SendFailed => "Could not send command".to_owned(),
            DispatchError::ConnectionClosed => "Connection closed".to_owned(),
        }
    }
}

/// What the router decides about one inbound message.
#[derive(Debug, PartialEq)]
pub enum RouterAction {
    /// The registration acknowledgment arrived: the registration flag is now set.
    Registered,
    /// Settle the completion handle registered under `waiter` with
    /// `response`; its table entry is gone.
    Resolve { waiter: u64, response: CommandResponse },
    /// The message was not parseable as a protocol message; dropped.
    DropMalformed,
    /// A correlated message arrived before registration; dropped.
    DropUnregistered,
    /// No in-flight request carries the message's id; dropped.
    DropUnmatched,
}

/// The abstract state of the engine: the handshake flag, the last
/// allocated id, and the correlation table mapping each in-flight id
/// to the completion handle registered under it.
pub struct EngineView {
    pub registered: bool,
    pub next_id: u8,
    pub pending: Map<u8, u64>,
}

/// The id probed `k` steps after `next`: ids advance cyclically
/// through the protocol's single-byte range, starting just past the
/// previously allocated id.
pub open spec fn candidate_id(next: u8, k: int) -> u8 {
    (((next as int) + 1 + k) % 256) as u8
}

/// The first free id at probe offset `k` or beyond, if any.
pub open spec fn scan_free(pending: Map<u8, u64>, next: u8, k: int) -> Option<u8>
    decreases 256 - k,
{
    if k < 0 || k >= 256 {
        None
    } else if !pending.contains_key(candidate_id(next, k)) {
        Some(candidate_id(next, k))
    } else {
        scan_free(pending, next, k + 1)
    }
}

/// The id the engine would allocate next: the first id not currently
/// in flight, probing cyclically from just past the last allocation.
/// `None` when the whole range is in flight.
pub open spec fn next_free_id(s: EngineView) -> Option<u8> {
    scan_free(s.pending, s.next_id, 0)
}

/// One dispatch step. Before registration nothing changes and the
/// command is refused; afterwards the first free id is allocated,
/// reserved in the table under the caller's completion handle, and
/// returned — or the command is refused when no id is free.
pub open spec fn dispatch_spec(s: EngineView, waiter: u64) -> (EngineView, Result<
    u8,
    DispatchError,
>) {
    if !s.registered {
        (s, Err(DispatchError::NotRegistered))
    } else {
        match next_free_id(s) {
            Some(id) => (
                EngineView {
                    registered: s.registered,
                    next_id: id,
                    pending: s.pending.insert(id, waiter),
                },
                Ok(id),
            ),
            None => (s, Err(DispatchError::TableFull)),
        }
    }
}

/// One router step. The registration acknowledgment sets the flag
/// (idempotently) and nothing else ever does; a correlated message is
/// delivered to exactly the waiter registered under its id, whose
/// entry is removed; everything else leaves the state untouched.
pub open spec fn route_spec(s: EngineView, ev: InboundEvent) -> (EngineView, RouterAction) {
    match ev {
        InboundEvent::Malformed => (s, RouterAction::DropMalformed),
        InboundEvent::Registered => (
            EngineView { registered: true, next_id: s.next_id, pending: s.pending },
            RouterAction::Registered,
        ),
        InboundEvent::Response { id, payload } => {
            if !s.registered {
                (s, RouterAction::DropUnregistered)
            } else if s.pending.contains_key(id) {
                (
                    EngineView {
                        registered: s.registered,
                        next_id: s.next_id,
                        pending: s.pending.remove(id),
                    },
                    RouterAction::Resolve {
                        waiter: s.pending[id],
                        response: CommandResponse { id, payload },
                    },
                )
            } else {
                (s, RouterAction::DropUnmatched)
            }
        },
    }
}

/// The shared state of one connection: the handshake flag, the id
/// counter, and the correlation table.
pub struct Engine {
    registered: bool,
    next_id: u8,
    pending: HashMap<u8, u64>,
}

impl View for Engine {
    type V = EngineView;

    closed spec fn view(&self) -> EngineView {
        EngineView {
            registered: self.registered,
            next_id: self.next_id,
            pending: self.pending@,
        }
    }
}

impl Engine {
    /// A fresh engine: flag unset, no id allocated, nothing in flight.
    pub fn new() -> (engine: Engine)
        ensures
            engine@.registered == false,
            engine@.next_id == 0,
            engine@.pending == Map::<u8, u64>::empty(),
    {
        Engine { registered: false, next_id: 0, pending: HashMap::new() }
    }

    /// Whether the registration handshake has completed.
    pub fn is_registered(&self) -> (registered: bool)
        ensures
            registered == self@.registered,
    {
        self.registered
    }

    /// How many requests are in flight.
    pub fn outstanding(&self) -> (count: usize)
        ensures
            count == self@.pending.len(),
    {
        self.pending.len()
    }

    /// The first free id, probing cyclically from just past the last
    /// allocation.
    fn find_free_id(&self) -> (r: Option<u8>)
        ensures
            r == next_free_id(self@),
    {
        let mut k: usize = 0;
        while k < 256
            invariant
                k <= 256,
                scan_free(self@.pending, self@.next_id, 0) == scan_free(
                    self@.pending,
                    self@.next_id,
                    k as int,
                ),
            decreases 256 - k,
        {
            let cand: u8 = ((self.next_id as usize + 1 + k) % 256) as u8;
            proof {
                assert(cand == candidate_id(self@.next_id, k as int));
            }
            if !self.pending.contains_key(&cand) {
                return Some(cand);
            }
            proof {
                assert(scan_free(self@.pending, self@.next_id, k as int) == scan_free(
                    self@.pending,
                    self@.next_id,
                    k as int + 1,
                ));
            }
            k += 1;
        }
        None
    }

    /// Begin dispatching a command: check the registration flag, allocate and
    /// reserve a free id under the caller's completion handle, and
    /// produce the wire text to send. The caller owns the send; if it
    /// fails, the reservation must be released with
    /// [`Engine::abort_pending`].
    pub fn begin_command(&mut self, cmd: Command, waiter: u64) -> (r: Result<
        (u8, String),
        DispatchError,
    >)
        ensures
            final(self)@ == dispatch_spec(old(self)@, waiter).0,
            match r {
                Ok((id, wire)) => dispatch_spec(old(self)@, waiter).1 == Ok::<u8, DispatchError>(
                    id,
                ) && wire@ == request_wire(id, cmd),
                Err(e) => dispatch_spec(old(self)@, waiter).1 == Err::<u8, DispatchError>(e),
            },
    {
        if !self.registered {
            return Err(DispatchError::NotRegistered);
        }
        match self.find_free_id() {
            None => Err(DispatchError::TableFull),
            Some(id) => {
                self.next_id = id;
                self.pending.insert(id, waiter);
                let req = create_command(id, cmd).unwrap();
                let wire = serialize_request(&req);
                proof {
                    assert(wire@ == request_wire(id, cmd));
                }
                Ok((id, wire))
            },
        }
    }

    /// Release the reservation for `id`, because the send failed or
    /// the caller gave up waiting: its table entry is gone and no
    /// waiter will be resolved under it.
    pub fn abort_pending(&mut self, id: u8)
        ensures
            final(self)@.registered == old(self)@.registered,
            final(self)@.next_id == old(self)@.next_id,
            final(self)@.pending == old(self)@.pending.remove(id),
    {
        self.pending.remove(&id);
    }

    /// Apply one router decision to an already-classified event.
    pub fn handle_event(&mut self, ev: InboundEvent) -> (action: RouterAction)
        ensures
            final(self)@ == route_spec(old(self)@, ev).0,
            action == route_spec(old(self)@, ev).1,
    {
        match ev {
            InboundEvent::Malformed => RouterAction::DropMalformed,
            InboundEvent::Registered => {
                self.registered = true;
                RouterAction::Registered
            },
            InboundEvent::Response { id, payload } => {
                if !self.registered {
                    RouterAction::DropUnregistered
                } else {
                    match self.pending.remove(&id) {
                        Some(waiter) => RouterAction::Resolve {
                            waiter,
                            response: CommandResponse { id, payload },
                        },
                        None => {
                            proof {
                                assert(self.pending@ =~= old(self)@.pending);
                            }
                            RouterAction::DropUnmatched
                        },
                    }
                }
            },
        }
    }

    /// Route one inbound message text: parse it and apply the router
    /// decision its event calls for.
    pub fn handle_message(&mut self, text: &str) -> (action: RouterAction)
        ensures
            final(self)@ == route_spec(old(self)@, event_of(text@)).0,
            action == route_spec(old(self)@, event_of(text@)).1,
    {
        let ev = parse_inbound(text);
        self.handle_event(ev)
    }

    /// The transport ended: empty the table and hand back every
    /// orphaned entry, in ascending id order, so the application can
    /// settle each suspended caller with
    /// [`DispatchError::ConnectionClosed`] instead of leaving it
    /// waiting forever.
    pub fn connection_closed(&mut self) -> (orphans: Vec<(u8, u64)>)
        ensures
            final(self)@.registered == old(self)@.registered,
            final(self)@.next_id == old(self)@.next_id,
            final(self)@.pending == Map::<u8, u64>::empty(),
            forall|i: int|
                0 <= i < orphans@.len() ==> old(self)@.pending.contains_key(orphans@[i].0) && old(
                    self,
                )@.pending[orphans@[i].0] == orphans@[i].1,
            forall|id: u8|
                old(self)@.pending.contains_key(id) ==> exists|i: int|
                    0 <= i < orphans@.len() && orphans@[i].0 == id,
            forall|i: int, j: int|
                0 <= i < j < orphans@.len() ==> orphans@[i].0 < orphans@[j].0,
    {
        let ghost m0 = self.pending@;
        let ghost reg0 = self.registered;
        let ghost nid0: u8 = self.next_id;
        let mut orphans: Vec<(u8, u64)> = Vec::new();
        let mut id: usize = 0;
        while id < 256
            invariant
                id <= 256,
                self.registered == reg0,
                self.next_id == nid0,
                forall|k: u8| (k as int) < id ==> !self.pending@.contains_key(k),
                forall|k: u8| #![trigger m0.contains_key(k)]
                    (k as int) >= id ==> self.pending@.contains_key(k) == m0.contains_key(k),
                forall|k: u8| #![trigger m0[k]]
                    (k as int) >= id && m0.contains_key(k) ==> self.pending@[k] == m0[k],
                forall|i: int|
                    0 <= i < orphans@.len() ==> (orphans@[i].0 as int) < id && m0.contains_key(
                        orphans@[i].0,
                    ) && m0[orphans@[i].0] == orphans@[i].1,
                forall|k: u8|
                    (k as int) < id && m0.contains_key(k) ==> exists|i: int|
                        0 <= i < orphans@.len() && orphans@[i].0 == k,
                forall|i: int, j: int|
                    0 <= i < j < orphans@.len() ==> orphans@[i].0 < orphans@[j].0,
            decreases 256 - id,
        {
            let key = id as u8;
            let ghost prev = self.pending@;
            let ghost orphans0 = orphans@;
            match self.pending.remove(&key) {
                Some(waiter) => {
                    proof {
                        assert(key as int == id);
                        assert(prev.contains_key(key) && prev[key] == waiter);
                        assert(m0.contains_key(key) && m0[key] == waiter);
                    }
                    orphans.push((key, waiter));
                },
                None => {},
            }
            proof {
                assert(key as int == id);
                assert(self.pending@ == prev.remove(key));
                assert(!self.pending@.contains_key(key));
                assert(forall|k: u8|
                    k != key ==> self.pending@.contains_key(k) == prev.contains_key(k)
                        && (prev.contains_key(k) ==> self.pending@[k] == prev[k]));
                assert forall|k: u8| (k as int) < id + 1 && m0.contains_key(k) implies exists|
                    i: int,
                |
                    0 <= i < orphans@.len() && orphans@[i].0 == k by {
                    if (k as int) < id {
                        let i: int = choose|i: int| 0 <= i < orphans0.len() && orphans0[i].0 == k;
                        assert(0 <= i < orphans@.len() && orphans@[i].0 == k);
                    } else {
                        if orphans@.len() > orphans0.len() {
                            assert(orphans@[orphans@.len() - 1].0 == k);
                        } else {
                            assert(!prev.contains_key(key));
                            assert(!m0.contains_key(key));
                        }
                    }
                }
            }
            id += 1;
        }
        proof {
            assert(self.pending@ =~= Map::<u8, u64>::empty());
        }
        orphans
    }
}

} // verus!
