//! Cross-queue state of the loopback network stack: open queues, pending
//! operations by token, and ephemeral ports.

use crate::fail::Fail;
use crate::ports::{entropy_rng, is_private_port, EphemeralPorts};
use crate::queue::{
    bound_endpoint, first_vacant, CatloopQueue, DemiOpcode, IoQueueTable, Ipv4Endpoint, QDesc,
    QToken, QType, Socket,
};
use std::collections::HashMap;
use vstd::multiset::Multiset;
use vstd::prelude::*;

verus! {

broadcast use vstd::std_specs::hash::group_hash_axioms;

/// Abstract state of a runtime.
pub struct RuntimeModel {
    /// Ephemeral ports not allocated, each once.
    pub free_ports: Multiset<u16>,
    /// Slots of the queue table, indexed by descriptor.
    pub queues: Seq<Option<CatloopQueue>>,
    /// Pending operations of the loopback queues, by token.
    pub catloop_qts: Map<u64, (DemiOpcode, QDesc)>,
    /// Pending operations of the memory queues, by token.
    pub catmem_qts: Map<u64, (DemiOpcode, QDesc)>,
}

impl RuntimeModel {
    pub open spec fn wf(self) -> bool {
        forall|p: u16| #[trigger]
            self.free_ports.count(p) <= 1 && (self.free_ports.count(p) > 0 ==> is_private_port(p))
    }

    /// Whether some open queue has a socket bound to `local`.
    pub open spec fn bound_to(self, local: Ipv4Endpoint) -> bool {
        exists|i: int|
            0 <= i < self.queues.len() && (#[trigger] self.queues[i]) is Some && bound_endpoint(
                self.queues[i]->Some_0.socket,
            ) == Some(local)
    }

    /// The outcome of a lookup of `qt` in one token table.
    pub open spec fn lookup(
        table: Map<u64, (DemiOpcode, QDesc)>,
        qt: QToken,
    ) -> Option<(DemiOpcode, QDesc)> {
        if table.contains_key(qt.0) {
            Some(table[qt.0])
        } else {
            None
        }
    }
}

/// `free` after each bound private port of `queues`, in slot order, has been
/// returned to it (a port already free stays free once).
pub open spec fn released_ports(free: Multiset<u16>, queues: Seq<Option<CatloopQueue>>) -> Multiset<
    u16,
>
    decreases queues.len(),
{
    if queues.len() == 0 {
        free
    } else {
        let before = released_ports(free, queues.drop_last());
        match queues.last() {
            Some(q) => match bound_endpoint(q.socket) {
                Some(local) => if is_private_port(local.port) && before.count(local.port) == 0 {
                    before.insert(local.port)
                } else {
                    before
                },
                None => before,
            },
            None => before,
        }
    }
}

/// Cross-queue state of the loopback network stack.
pub struct CatloopRuntime {
    /// Ephemeral port allocator.
    ephemeral_ports: EphemeralPorts,
    /// One slot for each queue descriptor.
    qtable: IoQueueTable,
    /// Ongoing operations of the loopback queues.
    catloop_qts: HashMap<u64, (DemiOpcode, QDesc)>,
    /// Ongoing operations of the memory queues.
    catmem_qts: HashMap<u64, (DemiOpcode, QDesc)>,
}

impl View for CatloopRuntime {
    type V = RuntimeModel;

    closed spec fn view(&self) -> RuntimeModel {
        RuntimeModel {
            free_ports: self.ephemeral_ports@,
            queues: self.qtable@,
            catloop_qts: self.catloop_qts@,
            catmem_qts: self.catmem_qts@,
        }
    }
}

impl CatloopRuntime {
    proof fn lemma_ports_wf(&self)
        requires
            self@.wf(),
        ensures
            self.ephemeral_ports.wf(),
    {
        assert forall|p: u16| #[trigger]
            self.ephemeral_ports@.count(p) <= 1 && (self.ephemeral_ports@.count(p) > 0
                ==> is_private_port(p)) by {
            assert(self@.free_ports.count(p) <= 1);
        }
    }

    /// A runtime with no queue, no pending operation and every ephemeral port free.
    pub fn new() -> (r: Self)
        ensures
            r@.wf(),
            forall|p: u16| #[trigger]
                r@.free_ports.count(p) == if is_private_port(p) { 1nat } else { 0nat },
            r@.queues == Seq::<Option<CatloopQueue>>::empty(),
            r@.catloop_qts == Map::<u64, (DemiOpcode, QDesc)>::empty(),
            r@.catmem_qts == Map::<u64, (DemiOpcode, QDesc)>::empty(),
    {
        let mut rng = entropy_rng();
        CatloopRuntime {
            ephemeral_ports: EphemeralPorts::new(&mut rng),
            qtable: IoQueueTable::new(),
            catloop_qts: HashMap::new(),
            catmem_qts: HashMap::new(),
        }
    }

    /// Opens a queue of `qtype` in the first vacant slot.
    pub fn alloc_queue(&mut self, qtype: QType) -> (r: QDesc)
        requires
            old(self)@.queues.len() < u32::MAX,
        ensures
            r.0 == first_vacant(old(self)@.queues),
            final(self)@ == (RuntimeModel {
                queues: if r.0 < old(self)@.queues.len() {
                    old(self)@.queues.update(
                        r.0 as int,
                        Some(CatloopQueue { qtype, socket: Socket::Active(None) }),
                    )
                } else {
                    old(self)@.queues.push(Some(CatloopQueue { qtype, socket: Socket::Active(None) }))
                },
                ..old(self)@
            }),
    {
        self.qtable.allocate(CatloopQueue::new(qtype))
    }

    /// Closes the queue of `qd`; nothing happens if it is not open.
    pub fn free_queue(&mut self, qd: QDesc)
        ensures
            final(self)@ == (RuntimeModel {
                queues: if qd.0 < old(self)@.queues.len() {
                    old(self)@.queues.update(qd.0 as int, None)
                } else {
                    old(self)@.queues
                },
                ..old(self)@
            }),
    {
        self.qtable.free(&qd);
    }

    /// The queue of `qd`, or `BadQueueDescriptor` if it is not open.
    pub fn get_queue(&self, qd: QDesc) -> (r: Result<&CatloopQueue, Fail>)
        ensures
            match r {
                Ok(q) => qd.0 < self@.queues.len() && self@.queues[qd.0 as int] == Some(*q),
                Err(e) => e == Fail::BadQueueDescriptor && (qd.0 >= self@.queues.len()
                    || self@.queues[qd.0 as int] is None),
            },
    {
        match self.qtable.get(&qd) {
            Some(queue) => Ok(queue),
            None => Err(Fail::BadQueueDescriptor),
        }
    }

    /// Binds, or rebinds, the socket of the queue of `qd`.
    pub fn set_queue_socket(&mut self, qd: QDesc, socket: Socket) -> (r: Result<(), Fail>)
        ensures
            ({
                let open = qd.0 < old(self)@.queues.len() && old(self)@.queues[qd.0 as int] is Some;
                &&& r == if open {
                    Ok(())
                } else {
                    Err(Fail::BadQueueDescriptor)
                }
                &&& final(self)@ == if open {
                    RuntimeModel {
                        queues: old(self)@.queues.update(
                            qd.0 as int,
                            Some(CatloopQueue { socket, ..old(self)@.queues[qd.0 as int]->Some_0 }),
                        ),
                        ..old(self)@
                    }
                } else {
                    old(self)@
                }
            }),
    {
        if self.qtable.set_socket(&qd, socket) {
            Ok(())
        } else {
            Err(Fail::BadQueueDescriptor)
        }
    }

    /// Records the pending loopback operation `qt`.
    pub fn insert_catloop_qt(&mut self, qt: QToken, opcode: DemiOpcode, qd: QDesc)
        ensures
            final(self)@ == (RuntimeModel {
                catloop_qts: old(self)@.catloop_qts.insert(qt.0, (opcode, qd)),
                ..old(self)@
            }),
            final(self)@.catloop_qts.len() == old(self)@.catloop_qts.len() + if old(
                self,
            )@.catloop_qts.contains_key(qt.0) {
                0nat
            } else {
                1nat
            },
    {
        self.catloop_qts.insert(qt.0, (opcode, qd));
    }

    /// Records the pending memory-queue operation `qt`.
    pub fn insert_catmem_qt(&mut self, qt: QToken, opcode: DemiOpcode, qd: QDesc)
        ensures
            final(self)@ == (RuntimeModel {
                catmem_qts: old(self)@.catmem_qts.insert(qt.0, (opcode, qd)),
                ..old(self)@
            }),
            final(self)@.catmem_qts.len() == old(self)@.catmem_qts.len() + if old(
                self,
            )@.catmem_qts.contains_key(qt.0) {
                0nat
            } else {
                1nat
            },
    {
        self.catmem_qts.insert(qt.0, (opcode, qd));
    }

    /// The pending loopback operation `qt`, if any.
    pub fn get_catloop_qd(&self, qt: QToken) -> (r: Option<&(DemiOpcode, QDesc)>)
        ensures
            match r {
                Some(v) => RuntimeModel::lookup(self@.catloop_qts, qt) == Some(*v),
                None => RuntimeModel::lookup(self@.catloop_qts, qt) is None,
            },
    {
        self.catloop_qts.get(&qt.0)
    }

    /// The pending memory-queue operation `qt`, if any.
    pub fn get_catmem_qd(&self, qt: QToken) -> (r: Option<&(DemiOpcode, QDesc)>)
        ensures
            match r {
                Some(v) => RuntimeModel::lookup(self@.catmem_qts, qt) == Some(*v),
                None => RuntimeModel::lookup(self@.catmem_qts, qt) is None,
            },
    {
        self.catmem_qts.get(&qt.0)
    }

    /// Removes and returns the pending loopback operation `qt`.
    pub fn free_catloop_qt(&mut self, qt: QToken) -> (r: Option<(DemiOpcode, QDesc)>)
        ensures
            r == RuntimeModel::lookup(old(self)@.catloop_qts, qt),
            final(self)@ == (RuntimeModel {
                catloop_qts: old(self)@.catloop_qts.remove(qt.0),
                ..old(self)@
            }),
    {
        self.catloop_qts.remove(&qt.0)
    }

    /// Removes and returns the pending memory-queue operation `qt`.
    pub fn free_catmem_qt(&mut self, qt: QToken) -> (r: Option<(DemiOpcode, QDesc)>)
        ensures
            r == RuntimeModel::lookup(old(self)@.catmem_qts, qt),
            final(self)@ == (RuntimeModel {
                catmem_qts: old(self)@.catmem_qts.remove(qt.0),
                ..old(self)@
            }),
    {
        self.catmem_qts.remove(&qt.0)
    }

    /// True when no open queue is bound to `local`, false when one is.
    pub fn is_bound_to_addr(&self, local: Ipv4Endpoint) -> (r: bool)
        ensures
            r == !self@.bound_to(local),
    {
        let n = self.qtable.slot_count();
        let mut i: usize = 0;
        while i < n
            invariant
                n == self@.queues.len(),
                i <= n,
                forall|j: int|
                    0 <= j < i ==> !((#[trigger] self@.queues[j]) is Some && bound_endpoint(
                        self@.queues[j]->Some_0.socket,
                    ) == Some(local)),
            decreases n - i,
        {
            match self.qtable.slot(i) {
                Some(queue) => match queue.get_socket() {
                    Socket::Active(Some(addr)) => {
                        if addr == local {
                            return false;
                        }
                    },
                    Socket::Passive(addr) => {
                        if addr == local {
                            return false;
                        }
                    },
                    _ => {},
                },
                None => {},
            }
            i += 1;
        }
        true
    }

    /// Allocates `port` when one is given (returning `None`), else any free
    /// ephemeral port (returning it).
    pub fn alloc_ephemeral_port(&mut self, port: Option<u16>) -> (r: Result<Option<u16>, Fail>)
        requires
            old(self)@.wf(),
        ensures
            final(self)@.wf(),
            final(self)@.queues == old(self)@.queues,
            final(self)@.catloop_qts == old(self)@.catloop_qts,
            final(self)@.catmem_qts == old(self)@.catmem_qts,
            match port {
                Some(p) => {
                    &&& r == if !is_private_port(p) {
                        Err(Fail::PortOutOfRange)
                    } else if old(self)@.free_ports.count(p) == 0 {
                        Err(Fail::PortInUse)
                    } else {
                        Ok(None::<u16>)
                    }
                    &&& final(self)@.free_ports == if r is Ok {
                        old(self)@.free_ports.remove(p)
                    } else {
                        old(self)@.free_ports
                    }
                },
                None => {
                    &&& r is Err <==> old(self)@.free_ports.len() == 0
                    &&& match r {
                        Ok(Some(p)) => old(self)@.free_ports.count(p) == 1
                            && final(self)@.free_ports == old(self)@.free_ports.remove(p),
                        Ok(None) => false,
                        Err(e) => e == Fail::PortsExhausted && final(self)@.free_ports == old(
                            self,
                        )@.free_ports,
                    }
                },
            },
    {
        proof {
            self.lemma_ports_wf();
        }
        match port {
            Some(p) => match self.ephemeral_ports.alloc_port(p) {
                Ok(()) => Ok(None),
                Err(e) => Err(e),
            },
            None => match self.ephemeral_ports.alloc_any() {
                Ok(p) => Ok(Some(p)),
                Err(e) => Err(e),
            },
        }
    }

    /// Releases the ephemeral `port`.
    pub fn free_ephemeral_port(&mut self, port: u16) -> (r: Result<(), Fail>)
        requires
            old(self)@.wf(),
        ensures
            final(self)@.wf(),
            r == (if !is_private_port(port) {
                Err(Fail::PortOutOfRange)
            } else if old(self)@.free_ports.count(port) > 0 {
                Err(Fail::PortNotAllocated)
            } else {
                Ok(())
            }),
            final(self)@ == (RuntimeModel {
                free_ports: if r is Ok {
                    old(self)@.free_ports.insert(port)
                } else {
                    old(self)@.free_ports
                },
                ..old(self)@
            }),
    {
        self.ephemeral_ports.free(port)
    }

    /// Returns to the allocator the private port of every bound socket, as
    /// when the runtime is shut down.
    pub fn release_ports(&mut self)
        requires
            old(self)@.wf(),
        ensures
            final(self)@.wf(),
            final(self)@ == (RuntimeModel {
                free_ports: released_ports(old(self)@.free_ports, old(self)@.queues),
                ..old(self)@
            }),
    {
        let ghost orig = self@;
        proof {
            self.lemma_ports_wf();
        }
        let n = self.qtable.slot_count();
        let mut i: usize = 0;
        while i < n
            invariant
                n == orig.queues.len(),
                i <= n,
                self@.wf(),
                self.ephemeral_ports.wf(),
                self@ == (RuntimeModel {
                    free_ports: released_ports(orig.free_ports, orig.queues.take(i as int)),
                    ..orig
                }),
            decreases n - i,
        {
            proof {
                assert(orig.queues.take(i + 1).drop_last() == orig.queues.take(i as int));
            }
            match self.qtable.slot(i) {
                Some(queue) => match queue.get_socket() {
                    Socket::Active(Some(addr)) => {
                        if EphemeralPorts::is_private(addr.port) {
                            let _ = self.ephemeral_ports.free(addr.port);
                        }
                    },
                    Socket::Passive(addr) => {
                        if EphemeralPorts::is_private(addr.port) {
                            let _ = self.ephemeral_ports.free(addr.port);
                        }
                    },
                    _ => {},
                },
                None => {},
            }
            i += 1;
        }
        assert(orig.queues.take(n as int) == orig.queues);
    }
}

} // verus!
