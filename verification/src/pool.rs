//! The pool of relay ports that no session currently holds.

use std::collections::HashSet;
use std::ops::Range;
use vstd::std_specs::iter::IteratorSpec;
use vstd::prelude::*;

verus! {

/// The ports `p` with `start <= p < end`.
pub open spec fn ports_between(start: u16, end: u16) -> Set<u16> {
    Set::new(|p: u16| start <= p < end)
}

/// The ports of a range are finitely many: `end - start` of them, or none
/// where the range is empty.
pub proof fn lemma_ports_between(start: u16, end: u16)
    ensures
        ports_between(start, end).finite(),
        ports_between(start, end).len() == if start <= end {
            end - start
        } else {
            0
        },
    decreases end,
{
    if end <= start {
        assert(ports_between(start, end) =~= Set::<u16>::empty());
    } else {
        let last = (end - 1) as u16;
        lemma_ports_between(start, last);
        assert(ports_between(start, end) =~= ports_between(start, last).insert(last));
    }
}

/// Whether taking a pair out of the free set `pre` can have given `pair` and
/// left `post`.
///
/// With fewer than two free ports nothing is given and nothing changes. With
/// two or more, two different free ports are given and leave the set; which
/// two is left open.
pub open spec fn acquired(pre: Set<u16>, pair: Option<(u16, u16)>, post: Set<u16>) -> bool {
    match pair {
        None => pre.len() < 2 && post == pre,
        Some((first, second)) => {
            &&& pre.len() >= 2
            &&& first != second
            &&& pre.contains(first)
            &&& pre.contains(second)
            &&& post == pre.remove(first).remove(second)
        },
    }
}

/// The free set `free` after both ports of `pair` were put back.
pub open spec fn released(free: Set<u16>, pair: (u16, u16)) -> Set<u16> {
    free.insert(pair.0).insert(pair.1)
}

/// The set of free relay ports.
pub struct PortPool {
    free: HashSet<u16>,
}

impl View for PortPool {
    type V = Set<u16>;

    closed spec fn view(&self) -> Set<u16> {
        self.free@
    }
}

impl PortPool {
    /// A pool in which every port of the half-open range is free.
    pub fn new(port_range: Range<u16>) -> (pool: PortPool)
        ensures
            pool@ == ports_between(port_range.start, port_range.end),
    {
        let mut free: HashSet<u16> = HashSet::new();
        let start: u16 = port_range.start;
        let end: u16 = port_range.end;
        let mut port: u16 = start;
        while port < end
            invariant
                start <= port,
                port <= end || port == start,
                free@ =~= ports_between(start, port),
            decreases end - port,
        {
            free.insert(port);
            port = port + 1;
        }
        assert(free@ =~= ports_between(start, end));
        PortPool { free }
    }

    /// The free ports are finitely many.
    pub proof fn lemma_finite(&self)
        ensures
            self@.finite(),
    {
        let listed = vstd::std_specs::hash::spec_hash_keys_iter(&self.free).remaining().unref();
        assert(listed.to_set() == self.free@);
        vstd::seq_lib::seq_to_set_is_finite(listed);
    }

    /// The number of free ports.
    pub fn available(&self) -> (count: usize)
        ensures
            count == self@.len(),
    {
        self.free.len()
    }

    /// Whether `port` is free.
    pub fn is_free(&self, port: u16) -> (free: bool)
        ensures
            free == self@.contains(port),
    {
        self.free.contains(&port)
    }

    /// Takes two different free ports out of the pool, or none at all: with
    /// fewer than two free ports the pool stays as it is.
    pub fn acquire_pair(&mut self) -> (pair: Option<(u16, u16)>)
        ensures
            acquired(old(self)@, pair, final(self)@),
    {
        let mut picked: Vec<u16> = Vec::new();
        for port in walk: self.free.iter()
            invariant_except_break
                picked@.len() == walk.index(),
                picked@.len() < 2,
            invariant
                walk.seq().len() == self.free@.len(),
                walk.seq().no_duplicates(),
                walk.seq().unref().to_set() == self.free@,
                picked@.len() <= 2,
                picked@.len() <= walk.seq().len(),
                forall|i: int| 0 <= i < picked@.len() ==> picked@[i] == *walk.seq()[i],
                forall|i: int| 0 <= i < picked@.len() ==> self.free@.contains(picked@[i]),
            ensures
                picked@.len() == 2 || picked@.len() == self.free@.len(),
                picked@.len() == 2 ==> picked@[0] != picked@[1],
        {
            proof {
                let ports = walk.seq().unref();
                assert(ports[walk.index()] == *port);
                assert(ports.contains(*port));
            }
            picked.push(*port);
            if picked.len() == 2 {
                break;
            }
        }
        if picked.len() == 2 {
            let first: u16 = picked[0];
            let second: u16 = picked[1];
            self.free.remove(&first);
            self.free.remove(&second);
            Some((first, second))
        } else {
            None
        }
    }

    /// Puts `port` back among the free ports. Answers whether it was missing
    /// there: `false` means that the port was free already and nothing changed.
    pub fn release(&mut self, port: u16) -> (returned: bool)
        ensures
            final(self)@ == old(self)@.insert(port),
            returned == !old(self)@.contains(port),
    {
        self.free.insert(port)
    }
}

} // verus!
