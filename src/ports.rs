//! Allocator of ephemeral ports, handed out in a random order.

use crate::fail::Fail;
use rand::rngs::SmallRng;
use rand::seq::SliceRandom;
use rand::SeedableRng;
use vstd::multiset::Multiset;
use vstd::prelude::*;

verus! {

broadcast use vstd::seq_lib::group_to_multiset_ensures, vstd::multiset::group_multiset_axioms;

/// The first port of the ephemeral range; the range runs to `u16::MAX`.
pub const FIRST_PRIVATE_PORT: u16 = 49152;

#[verifier::external_type_specification]
#[verifier::external_body]
pub struct ExSmallRng(SmallRng);

/// Relies on rand's `SeedableRng::from_entropy` for `SmallRng`: a generator
/// seeded from the operating system (it panics only if the system cannot
/// supply entropy).
#[verifier::external_body]
pub(crate) fn entropy_rng() -> SmallRng {
    SmallRng::from_entropy()
}

/// Relies on rand's `SliceRandom::shuffle`: the slice is permuted in place by
/// swaps, so the same elements remain, each as often as before.
#[verifier::external_body]
fn shuffle_ports(ports: &mut Vec<u16>, rng: &mut SmallRng)
    ensures
        final(ports)@.to_multiset() == old(ports)@.to_multiset(),
{
    ports.shuffle(rng);
}

pub open spec fn is_private_port(port: u16) -> bool {
    port >= FIRST_PRIVATE_PORT
}

/// The free ports of the ephemeral range, in the order they are handed out
/// (last first).
pub struct EphemeralPorts {
    ports: Vec<u16>,
}

impl View for EphemeralPorts {
    type V = Multiset<u16>;

    closed spec fn view(&self) -> Multiset<u16> {
        self.ports@.to_multiset()
    }
}

impl EphemeralPorts {
    /// Each port is free at most once, and only ports of the range are free.
    pub open spec fn wf(&self) -> bool {
        forall|p: u16| #[trigger]
            self@.count(p) <= 1 && (self@.count(p) > 0 ==> is_private_port(p))
    }

    /// Whether `port` lies in the ephemeral range.
    pub fn is_private(port: u16) -> (r: bool)
        ensures
            r == is_private_port(port),
    {
        port >= FIRST_PRIVATE_PORT
    }

    /// An allocator with every port of the range free, shuffled with `rng`.
    pub fn new(rng: &mut SmallRng) -> (r: Self)
        ensures
            r.wf(),
            forall|p: u16| #[trigger] r@.count(p) == if is_private_port(p) { 1nat } else { 0nat },
    {
        let mut ports: Vec<u16> = Vec::new();
        let mut next: u32 = FIRST_PRIVATE_PORT as u32;
        while next <= u16::MAX as u32
            invariant
                FIRST_PRIVATE_PORT <= next <= u16::MAX as u32 + 1,
                forall|p: u16| #[trigger]
                    ports@.to_multiset().count(p) == if FIRST_PRIVATE_PORT <= p < next { 1nat } else { 0nat },
            decreases u16::MAX as u32 + 1 - next,
        {
            let ghost before = ports@;
            ports.push(next as u16);
            assert(ports@ == before.push(next as u16));
            next += 1;
        }
        shuffle_ports(&mut ports, rng);
        EphemeralPorts { ports }
    }

    /// Takes a free port, whichever comes first in the shuffled order.
    pub fn alloc_any(&mut self) -> (r: Result<u16, Fail>)
        requires
            old(self).wf(),
        ensures
            final(self).wf(),
            match r {
                Ok(p) => old(self)@.count(p) == 1 && final(self)@ == old(self)@.remove(p),
                Err(e) => e == Fail::PortsExhausted && old(self)@.len() == 0 && final(self)@
                    == old(self)@,
            },
            r is Err <==> old(self)@.len() == 0,
    {
        let ghost before = self.ports@;
        match self.ports.pop() {
            Some(p) => {
                assert(before == self.ports@.push(p));
                assert(old(self)@ == self@.insert(p));
                assert(forall|q: u16| #[trigger] self@.count(q) <= old(self)@.count(q));
                Ok(p)
            },
            None => {
                assert(self@ == old(self)@);
                Err(Fail::PortsExhausted)
            },
        }
    }

    /// Takes the given port of the range, if it is free.
    pub fn alloc_port(&mut self, port: u16) -> (r: Result<(), Fail>)
        requires
            old(self).wf(),
        ensures
            final(self).wf(),
            r == (if !is_private_port(port) {
                Err(Fail::PortOutOfRange)
            } else if old(self)@.count(port) == 0 {
                Err(Fail::PortInUse)
            } else {
                Ok(())
            }),
            final(self)@ == if r is Ok { old(self)@.remove(port) } else { old(self)@ },
    {
        if !Self::is_private(port) {
            return Err(Fail::PortOutOfRange);
        }
        let ghost orig = self.ports@;
        let n = self.ports.len();
        let mut i: usize = 0;
        while i < n
            invariant
                self.ports@ == orig,
                orig == old(self).ports@,
                old(self).wf(),
                n == self.ports@.len(),
                i <= n,
                forall|j: int| 0 <= j < i ==> self.ports@[j] != port,
            decreases n - i,
        {
            if self.ports[i] == port {
                let ghost before = self.ports@;
                self.ports.remove(i);
                assert(before[i as int] == port);
                assert(before.contains(port));
                assert(old(self)@.count(port) > 0);
                assert(self.ports@ == before.remove(i as int));
                assert(self@ == old(self)@.remove(port));
                return Ok(());
            }
            i += 1;
        }
        assert(self@.count(port) == 0);
        assert(self@ == old(self)@);
        Err(Fail::PortInUse)
    }

    /// Returns an allocated port of the range to the free ports.
    pub fn free(&mut self, port: u16) -> (r: Result<(), Fail>)
        requires
            old(self).wf(),
        ensures
            final(self).wf(),
            r == (if !is_private_port(port) {
                Err(Fail::PortOutOfRange)
            } else if old(self)@.count(port) > 0 {
                Err(Fail::PortNotAllocated)
            } else {
                Ok(())
            }),
            final(self)@ == if r is Ok { old(self)@.insert(port) } else { old(self)@ },
    {
        if !Self::is_private(port) {
            return Err(Fail::PortOutOfRange);
        }
        let ghost orig = self.ports@;
        let n = self.ports.len();
        let mut i: usize = 0;
        while i < n
            invariant
                self.ports@ == orig,
                orig == old(self).ports@,
                old(self).wf(),
                n == self.ports@.len(),
                i <= n,
                forall|j: int| 0 <= j < i ==> self.ports@[j] != port,
            decreases n - i,
        {
            if self.ports[i] == port {
                assert(self.ports@.contains(port));
                assert(self@.count(port) > 0);
                return Err(Fail::PortNotAllocated);
            }
            i += 1;
        }
        assert(self@.count(port) == 0);
        let ghost before = self.ports@;
        self.ports.push(port);
        assert(self@ == before.push(port).to_multiset());
        Ok(())
    }
}

} // verus!
