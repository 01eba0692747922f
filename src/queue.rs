//! Queue descriptors, queue tokens and the table of open queues.

use vstd::prelude::*;

verus! {

/// A queue descriptor: the index of a slot of the queue table.
#[derive(Clone, Copy, Debug, PartialEq, Eq, Structural, Hash)]
pub struct QDesc(pub u32);

/// A token naming one pending asynchronous operation.
#[derive(Clone, Copy, Debug, PartialEq, Eq, Structural, Hash)]
pub struct QToken(pub u64);

/// What kind of queue a descriptor refers to.
#[derive(Clone, Copy, Debug, PartialEq, Eq, Structural)]
pub enum QType {
    TcpSocket,
    UdpSocket,
    MemoryQueue,
}

/// The operation behind a queue token.
#[derive(Clone, Copy, Debug, PartialEq, Eq, Structural)]
pub enum DemiOpcode {
    Invalid,
    Push,
    Pop,
    Accept,
    Connect,
    Close,
    Failed,
}

/// An IPv4 address and a port.
#[derive(Clone, Copy, Debug, PartialEq, Eq, Structural)]
pub struct Ipv4Endpoint {
    pub addr: u32,
    pub port: u16,
}

/// The binding of a queue's socket.
#[derive(Clone, Copy, Debug, PartialEq, Eq, Structural)]
pub enum Socket {
    /// A connecting or connected socket, bound once it has a local address.
    Active(Option<Ipv4Endpoint>),
    /// A listening socket, always bound.
    Passive(Ipv4Endpoint),
}

/// The local address a socket is bound to, if any.
pub open spec fn bound_endpoint(socket: Socket) -> Option<Ipv4Endpoint> {
    match socket {
        Socket::Active(local) => local,
        Socket::Passive(local) => Some(local),
    }
}

/// One open queue.
#[derive(Clone, Copy, Debug, PartialEq, Eq, Structural)]
pub struct CatloopQueue {
    pub qtype: QType,
    pub socket: Socket,
}

impl CatloopQueue {
    /// A queue of `qtype` whose socket is not bound yet.
    pub fn new(qtype: QType) -> (r: Self)
        ensures
            r == (CatloopQueue { qtype, socket: Socket::Active(None) }),
    {
        CatloopQueue { qtype, socket: Socket::Active(None) }
    }

    pub fn get_socket(&self) -> (r: Socket)
        ensures
            r == self.socket,
    {
        self.socket
    }
}

/// The slot a table allocates next: the first vacant one, else a new one.
pub open spec fn first_vacant(slots: Seq<Option<CatloopQueue>>) -> int {
    if exists|i: int| 0 <= i < slots.len() && slots[i] is None {
        choose|i: int|
            0 <= i < slots.len() && slots[i] is None && forall|j: int| 0 <= j < i ==> slots[j] is Some
    } else {
        slots.len() as int
    }
}

/// Slots of open queues, indexed by descriptor; freed slots are reused.
pub struct IoQueueTable {
    slots: Vec<Option<CatloopQueue>>,
}

impl View for IoQueueTable {
    type V = Seq<Option<CatloopQueue>>;

    closed spec fn view(&self) -> Seq<Option<CatloopQueue>> {
        self.slots@
    }
}

impl IoQueueTable {
    pub fn new() -> (r: Self)
        ensures
            r@ == Seq::<Option<CatloopQueue>>::empty(),
    {
        IoQueueTable { slots: Vec::new() }
    }

    /// Stores `queue` in the first vacant slot and returns its descriptor.
    pub fn allocate(&mut self, queue: CatloopQueue) -> (r: QDesc)
        requires
            old(self)@.len() < u32::MAX,
        ensures
            r.0 == first_vacant(old(self)@),
            final(self)@ == if r.0 < old(self)@.len() {
                old(self)@.update(r.0 as int, Some(queue))
            } else {
                old(self)@.push(Some(queue))
            },
    {
        let n = self.slots.len();
        let mut i: usize = 0;
        while i < n
            invariant
                self.slots@ == old(self)@,
                n == self.slots@.len(),
                n < u32::MAX,
                i <= n,
                forall|j: int| 0 <= j < i ==> self.slots@[j] is Some,
            decreases n - i,
        {
            if self.slots[i].is_none() {
                self.slots.set(i, Some(queue));
                proof {
                    let s = old(self)@;
                    assert(0 <= i < s.len() && s[i as int] is None && forall|j: int|
                        0 <= j < i ==> s[j] is Some);
                    let k = first_vacant(s);
                    if k < i {
                        assert(old(self)@[k] is Some);
                    }
                    if i < k {
                        assert(old(self)@[i as int] is Some);
                    }
                }
                return QDesc(i as u32);
            }
            i += 1;
        }
        assert(!exists|j: int| 0 <= j < n && old(self)@[j] is None);
        self.slots.push(Some(queue));
        QDesc(n as u32)
    }

    /// Vacates the slot of `qd`, returning the queue that was there.
    pub fn free(&mut self, qd: &QDesc) -> (r: Option<CatloopQueue>)
        ensures
            r == (if qd.0 < old(self)@.len() {
                old(self)@[qd.0 as int]
            } else {
                None
            }),
            final(self)@ == if qd.0 < old(self)@.len() {
                old(self)@.update(qd.0 as int, None)
            } else {
                old(self)@
            },
    {
        let i = qd.0 as usize;
        if i < self.slots.len() {
            let r = self.slots[i];
            self.slots.set(i, None);
            r
        } else {
            None
        }
    }

    /// The queue of `qd`, if it is open.
    pub fn get(&self, qd: &QDesc) -> (r: Option<&CatloopQueue>)
        ensures
            match r {
                Some(q) => qd.0 < self@.len() && self@[qd.0 as int] == Some(*q),
                None => qd.0 >= self@.len() || self@[qd.0 as int] is None,
            },
    {
        let i = qd.0 as usize;
        if i < self.slots.len() {
            match &self.slots[i] {
                Some(q) => Some(q),
                None => None,
            }
        } else {
            None
        }
    }

    /// Replaces the socket of the queue of `qd`; false if it is not open.
    pub fn set_socket(&mut self, qd: &QDesc, socket: Socket) -> (r: bool)
        ensures
            r == (qd.0 < old(self)@.len() && old(self)@[qd.0 as int] is Some),
            final(self)@ == if r {
                old(self)@.update(
                    qd.0 as int,
                    Some(CatloopQueue { socket, ..old(self)@[qd.0 as int]->Some_0 }),
                )
            } else {
                old(self)@
            },
    {
        let i = qd.0 as usize;
        if i < self.slots.len() {
            match self.slots[i] {
                Some(q) => {
                    self.slots.set(i, Some(CatloopQueue { qtype: q.qtype, socket }));
                    true
                },
                None => false,
            }
        } else {
            false
        }
    }

    /// The number of slots, open or vacant.
    pub fn slot_count(&self) -> (r: usize)
        ensures
            r == self@.len(),
    {
        self.slots.len()
    }

    /// The content of slot `i`.
    pub fn slot(&self, i: usize) -> (r: Option<CatloopQueue>)
        requires
            i < self@.len(),
        ensures
            r == self@[i as int],
    {
        self.slots[i]
    }
}

} // verus!
