//! The table of live virtual ports and the port allocator.
//!
//! A port is a 16-bit identifier local to one endpoint. Port `0` is the
//! "unknown / not yet assigned" sentinel and is never allocated; the highest
//! value is left out of the allocator's range as well, so the usable ports
//! are `1..=65534` and a table with 65,534 live ports is full.

use vstd::prelude::*;
use crate::Error;

verus! {

/// State of one live virtual port.
#[derive(Clone, Copy, Debug, PartialEq, Eq, Structural)]
pub enum PortState {
    /// A client-side slot recorded between sending `Syn` and receiving the
    /// matching `Ack`.
    Pending,
    /// An established stream: inbound payloads are deliverable to it.
    Open,
}

/// Which local virtual ports are in use, and in what state.
#[derive(Debug)]
pub struct PortTable {
    slots: Vec<Option<PortState>>,
}

impl PortTable {
    /// The table is a fixed array of one slot per 16-bit value; the `0`
    /// sentinel and the value past the allocator's range stay free.
    pub closed spec fn wf(&self) -> bool {
        &&& self.slots@.len() == 65536
        &&& self.slots@[0] is None
        &&& self.slots@[65535] is None
    }

    /// State of a port, `None` when the port is free.
    pub closed spec fn state_of(&self, p: u16) -> Option<PortState> {
        self.slots@[p as int]
    }

    /// The `0` sentinel is never live in a well-formed table.
    pub proof fn lemma_sentinel_free(&self)
        requires
            self.wf(),
        ensures
            !self.is_live(0),
    {
    }

    /// A port is live while a pending or open entry occupies it.
    pub open spec fn is_live(&self, p: u16) -> bool {
        self.state_of(p) is Some
    }

    /// A port is open when its stream is established.
    pub open spec fn is_open(&self, p: u16) -> bool {
        self.state_of(p) == Some(PortState::Open)
    }

    /// An empty table: every port is free.
    pub fn new() -> (r: PortTable)
        ensures
            r.wf(),
            forall|p: u16| !r.is_live(p),
    {
        let slots: Vec<Option<PortState>> = vec![None; 65536];
        PortTable { slots }
    }

    /// Look up a port.
    pub fn get(&self, p: u16) -> (r: Option<PortState>)
        requires
            self.wf(),
        ensures
            r == self.state_of(p),
    {
        self.slots[p as usize]
    }

    /// Occupy a port. Only allocatable ports may be inserted, which keeps
    /// the `0` sentinel free.
    pub fn insert(&mut self, p: u16, st: PortState)
        requires
            old(self).wf(),
            1 <= p < 65535,
        ensures
            final(self).wf(),
            final(self).state_of(p) == Some(st),
            forall|q: u16| q != p ==> final(self).state_of(q) == old(self).state_of(q),
    {
        self.slots[p as usize] = Some(st);
    }

    /// Free a port; freeing a free port changes nothing.
    pub fn remove(&mut self, p: u16)
        requires
            old(self).wf(),
        ensures
            final(self).wf(),
            final(self).state_of(p) is None,
            forall|q: u16| q != p ==> final(self).state_of(q) == old(self).state_of(q),
    {
        self.slots[p as usize] = None;
    }

    /// Free every port at once, as shutdown does.
    pub fn clear(&mut self)
        requires
            old(self).wf(),
        ensures
            final(self).wf(),
            forall|q: u16| !final(self).is_live(q),
    {
        self.slots = vec![None; 65536];
    }

    /// Pick an unused port. Succeeds with a free, allocatable port; fails
    /// with `NoAvailablePorts` exactly when all 65,534 usable ports are
    /// live.
    pub fn next_available_port(&self) -> (r: Result<u16, Error>)
        requires
            self.wf(),
        ensures
            match r {
                Ok(p) => 1 <= p < 65535 && !self.is_live(p),
                Err(e) => {
                    &&& e == Error::NoAvailablePorts
                    &&& forall|q: u16| 1 <= q < 65535 ==> self.is_live(q)
                },
            },
    {
        let mut p: u16 = 1;
        while p < 65535
            invariant
                self.wf(),
                1 <= p <= 65535,
                forall|q: u16| 1 <= q < p ==> self.is_live(q),
            decreases 65535 - p,
        {
            if self.slots[p as usize].is_none() {
                return Ok(p);
            }
            p = p + 1;
        }
        Err(Error::NoAvailablePorts)
    }
}

} // verus!
