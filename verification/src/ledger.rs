//! Who holds which port.
//!
//! The manager only stores the free ports. The ports that are out belong to
//! sessions, and this module keeps the books on them: a [`Ledger`] pairs the
//! free set with the port pairs of the sessions that are alive, and each
//! operation of the manager is one [`Move`] on it. A creation changes the
//! free set as [`acquired`] says, which is what the manager's `find_ports`
//! and `run_relay` ensure; a cleanup changes it as [`released`] says, which is
//! what `reclaim` ensures, and `start_session` after a failed bind. The
//! manager's operations take `&mut self`, so they come one after another
//! however many tasks call them.
//!
//! The lemmas show that no sequence of moves ever lets two sessions hold the
//! same port, that a port is never free and held at once, and that a cleanup
//! gives back exactly the two ports of its session.

use crate::pool::{acquired, lemma_ports_between, ports_between, released};
use vstd::prelude::*;

verus! {

/// Whether `port` is one of the two ports of `pair`.
pub open spec fn holds(pair: (u16, u16), port: u16) -> bool {
    pair.0 == port || pair.1 == port
}

/// The free ports, and the pair of ports of every session that is alive, in
/// the order in which the sessions were created.
pub struct Ledger {
    pub free: Set<u16>,
    pub sessions: Seq<(u16, u16)>,
}

/// One operation of the manager.
pub enum Move {
    /// A creation asked for ports. It was given `granted`, or nothing where
    /// fewer than two ports were free.
    Create { granted: Option<(u16, u16)> },
    /// The session at `index` is over and its ports were taken back: its
    /// completion signal was processed, or its sockets could not be bound.
    Cleanup { index: int },
}

impl Ledger {
    /// The ledger of a new manager: every port of the range is free and no
    /// session is alive.
    pub open spec fn initial(start: u16, end: u16) -> Ledger {
        Ledger { free: ports_between(start, end), sessions: Seq::empty() }
    }

    /// Whether `mv` can lead from this ledger to `post`.
    pub open spec fn step(self, mv: Move, post: Ledger) -> bool {
        match mv {
            Move::Create { granted } => {
                &&& acquired(self.free, granted, post.free)
                &&& post.sessions == match granted {
                    Some(pair) => self.sessions.push(pair),
                    None => self.sessions,
                }
            },
            Move::Cleanup { index } => {
                &&& 0 <= index < self.sessions.len()
                &&& post.free == released(self.free, self.sessions[index])
                &&& post.sessions == self.sessions.remove(index)
            },
        }
    }

    /// The books are in order: the free ports are finitely many, the two
    /// ports of a session differ, no port of a session is free, and no port
    /// belongs to two sessions.
    pub open spec fn sound(self) -> bool {
        &&& self.free.finite()
        &&& forall|i: int|
            0 <= i < self.sessions.len() ==> (#[trigger] self.sessions[i]).0 != self.sessions[i].1
        &&& forall|i: int, port: u16|
            0 <= i < self.sessions.len() && #[trigger] holds(self.sessions[i], port)
                ==> !self.free.contains(port)
        &&& forall|i: int, j: int, port: u16|
            0 <= i < self.sessions.len() && 0 <= j < self.sessions.len() && i != j
                && #[trigger] holds(self.sessions[i], port) ==> !#[trigger] holds(
                self.sessions[j],
                port,
            )
    }
}

/// Whether `states` and `moves` tell the history of a manager made for the
/// ports from `start` up to `end`: the first state is the initial one, and
/// each move leads from one state to the next.
pub open spec fn history(start: u16, end: u16, states: Seq<Ledger>, moves: Seq<Move>) -> bool {
    &&& states.len() == moves.len() + 1
    &&& states[0] == Ledger::initial(start, end)
    &&& forall|k: int| 0 <= k < moves.len() ==> states[k].step(#[trigger] moves[k], states[k + 1])
}

/// A new manager's books are in order.
pub proof fn lemma_initial_sound(start: u16, end: u16)
    ensures
        Ledger::initial(start, end).sound(),
{
    lemma_ports_between(start, end);
}

/// A move leaves the books in order.
pub proof fn lemma_step_keeps_sound(pre: Ledger, mv: Move, post: Ledger)
    requires
        pre.sound(),
        pre.step(mv, post),
    ensures
        post.sound(),
{
    match mv {
        Move::Create { .. } => {},
        Move::Cleanup { index } => {
            let gone = pre.sessions[index];
            assert(holds(gone, gone.0) && holds(gone, gone.1));
        },
    }
}

/// Whatever creations and cleanups a manager has gone through, and in
/// whatever order, its books are in order at every moment. In particular no
/// two sessions that are alive at the same time hold the same port, and no
/// port that a session holds is free.
pub proof fn lemma_no_port_is_shared(
    start: u16,
    end: u16,
    states: Seq<Ledger>,
    moves: Seq<Move>,
    at: int,
)
    requires
        history(start, end, states, moves),
        0 <= at < states.len(),
    ensures
        states[at].sound(),
        forall|i: int, j: int, port: u16|
            0 <= i < states[at].sessions.len() && 0 <= j < states[at].sessions.len() && i != j
                && #[trigger] holds(states[at].sessions[i], port) ==> !#[trigger] holds(
                states[at].sessions[j],
                port,
            ),
    decreases at,
{
    if at == 0 {
        lemma_initial_sound(start, end);
    } else {
        lemma_no_port_is_shared(start, end, states, moves, at - 1);
        lemma_step_keeps_sound(states[at - 1], moves[at - 1], states[at]);
    }
}

/// A cleanup gives back the two ports of its session, no fewer and no more:
/// both are free afterwards, the free ports are exactly two more than
/// before, and no session that is still alive holds either of them.
pub proof fn lemma_cleanup_returns_both_ports(pre: Ledger, index: int, post: Ledger)
    requires
        pre.sound(),
        pre.step(Move::Cleanup { index }, post),
    ensures
        post.sound(),
        post.free.contains(pre.sessions[index].0),
        post.free.contains(pre.sessions[index].1),
        post.free.len() == pre.free.len() + 2,
        forall|i: int|
            0 <= i < post.sessions.len() ==> !holds(
                #[trigger] post.sessions[i],
                pre.sessions[index].0,
            ) && !holds(post.sessions[i], pre.sessions[index].1),
{
    lemma_step_keeps_sound(pre, Move::Cleanup { index }, post);
    let gone = pre.sessions[index];
    assert(holds(gone, gone.0) && holds(gone, gone.1));
}

/// A port is given out once: of two acquisitions in a row, with no release
/// between them, the second gives neither port of the first.
pub proof fn lemma_port_is_given_once(
    pre: Set<u16>,
    first: (u16, u16),
    between: Set<u16>,
    second: (u16, u16),
    post: Set<u16>,
)
    requires
        acquired(pre, Some(first), between),
        acquired(between, Some(second), post),
    ensures
        !holds(second, first.0),
        !holds(second, first.1),
{
}

} // verus!
