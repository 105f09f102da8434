//! The session manager: hands a pair of relay ports to each new session and
//! takes them back when the session's completion signal arrives.
//!
//! Sockets and tasks are the caller's. To create a session the caller asks
//! [`RelayManager::run_relay`] for two entities, binds a socket to the port of
//! each, and reports how that went to [`RelayManager::start_session`]. When a
//! session has ended, the caller hands its signal to
//! [`RelayManager::reclaim`]. Nothing else returns ports: a signal that is
//! never handed in leaves its two ports out of the pool for good.

use crate::endpoint::Endpoint;
use crate::pool::{acquired, ports_between, released, PortPool};
use crate::relay::{CompletionSignal, RelayEntity, RelaySession, SessionState};
use std::ops::Range;
use vstd::prelude::*;

verus! {

/// The ports of the two entities of a plan, if there is one.
pub open spec fn planned_ports(plan: Option<(RelayEntity, RelayEntity)>) -> Option<(u16, u16)> {
    match plan {
        Some((first, second)) => Some((first.port, second.port)),
        None => None,
    }
}

/// Owner of the port pool. Its view is the set of free ports.
pub struct RelayManager {
    pool: PortPool,
}

impl View for RelayManager {
    type V = Set<u16>;

    closed spec fn view(&self) -> Set<u16> {
        self.pool@
    }
}

impl RelayManager {
    /// A manager whose free ports are those of the half-open range.
    pub fn new(port_range: Range<u16>) -> (manager: RelayManager)
        ensures
            manager@ == ports_between(port_range.start, port_range.end),
    {
        RelayManager { pool: PortPool::new(port_range) }
    }

    /// The free ports are finitely many.
    pub proof fn lemma_finite(&self)
        ensures
            self@.finite(),
    {
        self.pool.lemma_finite();
    }

    /// The number of free ports.
    pub fn free_ports(&self) -> (count: usize)
        ensures
            count == self@.len(),
    {
        self.pool.available()
    }

    /// Whether `port` is free.
    pub fn is_free(&self, port: u16) -> (free: bool)
        ensures
            free == self@.contains(port),
    {
        self.pool.is_free(port)
    }

    /// Takes two different free ports for a relay, or none at all where fewer
    /// than two are free.
    pub fn find_ports(&mut self) -> (pair: Option<(u16, u16)>)
        ensures
            acquired(old(self)@, pair, final(self)@),
    {
        self.pool.acquire_pair()
    }

    /// First half of a creation: reserves a port for each client.
    ///
    /// With two free ports or more, the answer pairs `client1` and `client2`
    /// with one reserved port each; the two ports differ and are no longer
    /// free. With fewer, the answer is `None` and no port is taken: the caller
    /// may try again later.
    pub fn run_relay(&mut self, client1: Endpoint, client2: Endpoint) -> (plan: Option<
        (RelayEntity, RelayEntity),
    >)
        ensures
            acquired(old(self)@, planned_ports(plan), final(self)@),
            plan matches Some((first, second)) ==> (first.peer_addr == client1
                && second.peer_addr == client2),
    {
        match self.find_ports() {
            Some((port1, port2)) => {
                let entity1 = RelayEntity { port: port1, peer_addr: client1 };
                let entity2 = RelayEntity { port: port2, peer_addr: client2 };
                Some((entity1, entity2))
            },
            None => None,
        }
    }

    /// Second half of a creation, once the caller has tried to bind both
    /// sockets.
    ///
    /// If both are bound, the session starts at time `now` and the pool is
    /// left alone. If either bind failed, there is no session and both ports
    /// go back to the pool at once.
    pub fn start_session(
        &mut self,
        entity1: RelayEntity,
        entity2: RelayEntity,
        sockets_bound: bool,
        now: u64,
    ) -> (session: Option<RelaySession>)
        ensures
            sockets_bound ==> final(self)@ == old(self)@,
            sockets_bound ==> (session matches Some(started) && started@ == SessionState::started(
                entity1,
                entity2,
                now,
            )),
            !sockets_bound ==> final(self)@ == released(old(self)@, (entity1.port, entity2.port)),
            !sockets_bound ==> session is None,
    {
        if sockets_bound {
            Some(RelaySession::start(entity1, entity2, now))
        } else {
            self.pool.release(entity1.port);
            self.pool.release(entity2.port);
            None
        }
    }

    /// Takes in the completion signal of a session that has ended: both of
    /// its ports are free again.
    pub fn reclaim(&mut self, signal: CompletionSignal)
        ensures
            final(self)@ == released(old(self)@, signal@),
    {
        let (port_a, port_b) = signal.ports();
        self.pool.release(port_a);
        self.pool.release(port_b);
    }
}

} // verus!
