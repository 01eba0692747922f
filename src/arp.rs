//! Address-resolution engine: a cache of learned link addresses, a table of
//! outstanding queries, re-pollable handles and a FIFO of outbound packets.
//! All timing is driven by a logical clock handed in by the caller.

use std::collections::HashMap;
use std::collections::VecDeque;
use vstd::prelude::*;

verus! {

broadcast use vstd::std_specs::hash::group_hash_axioms;

/// Timing and retry policy of address resolution.
#[derive(Clone, Copy, Debug, PartialEq, Eq, Structural)]
pub struct ArpConfig {
    /// Logical time between an attempt and its deadline.
    pub request_timeout: u64,
    /// Retransmissions permitted after the initial attempt.
    pub retry_count: u32,
}

#[derive(Clone, Copy, Debug, PartialEq, Eq, Structural)]
pub enum ArpOperation {
    Request,
    Reply,
}

/// A decoded resolution packet.
#[derive(Clone, Copy, Debug, PartialEq, Eq, Structural)]
pub struct ArpPacket {
    pub operation: ArpOperation,
    pub sender_link_addr: u64,
    pub sender_ip_addr: u32,
    pub target_link_addr: u64,
    pub target_ip_addr: u32,
}

/// An outbound action produced by the engine and performed by the host.
#[derive(Clone, Copy, Debug, PartialEq, Eq, Structural)]
pub enum Effect {
    Transmit(ArpPacket),
}

/// What a handle observes when it is driven.
#[derive(Clone, Copy, Debug, PartialEq, Eq, Structural)]
pub enum Resolution {
    /// Not concluded yet: drive again with a later time.
    TryAgain,
    /// Every permitted retransmission went unanswered.
    Timeout,
    /// The target's link address.
    Resolved(u64),
}

/// Why an inbound packet was not acted upon.
#[derive(Clone, Copy, Debug, PartialEq, Eq, Structural)]
pub enum ArpError {
    Ignored,
}

/// An outstanding resolution attempt for one target.
#[derive(Clone, Copy, Debug, PartialEq, Eq, Structural)]
pub struct PendingQuery {
    pub retries_used: u32,
    pub deadline: u64,
}

/// The state of one issued handle.
#[derive(Clone, Copy, Debug, PartialEq, Eq, Structural)]
pub enum WaiterState {
    Waiting(u32),
    Resolved(u64),
    TimedOut,
}

/// Abstract state of an engine.
pub struct ArpModel {
    pub local_ip_addr: u32,
    pub local_link_addr: u64,
    pub config: ArpConfig,
    pub links: Map<u32, u64>,
    pub learned_at: Map<u32, u64>,
    pub pending: Map<u32, PendingQuery>,
    pub waiters: Seq<WaiterState>,
    pub effects: Seq<Effect>,
}

/// `now + timeout`, held at the largest representable time.
pub open spec fn deadline_after(now: u64, timeout: u64) -> u64 {
    if now as int + timeout as int > u64::MAX as int {
        u64::MAX
    } else {
        (now + timeout) as u64
    }
}

impl ArpModel {
    /// The cache keeps a learning time for each entry, no outstanding query
    /// has used more retransmissions than permitted, and every handle still
    /// waiting has an outstanding query for its target.
    pub open spec fn wf(self) -> bool {
        &&& self.links.dom() == self.learned_at.dom()
        &&& forall|t: u32| #[trigger]
            self.pending.contains_key(t) ==> self.pending[t].retries_used
                <= self.config.retry_count
        &&& forall|i: int|
            0 <= i < self.waiters.len() && (#[trigger] self.waiters[i]) is Waiting
                ==> self.pending.contains_key(self.waiters[i]->Waiting_0)
    }

    pub open spec fn request_for(self, target: u32) -> ArpPacket {
        ArpPacket {
            operation: ArpOperation::Request,
            sender_link_addr: self.local_link_addr,
            sender_ip_addr: self.local_ip_addr,
            target_link_addr: 0,
            target_ip_addr: target,
        }
    }

    pub open spec fn reply_to(self, request: ArpPacket) -> ArpPacket {
        ArpPacket {
            operation: ArpOperation::Reply,
            sender_link_addr: self.local_link_addr,
            sender_ip_addr: self.local_ip_addr,
            target_link_addr: request.sender_link_addr,
            target_ip_addr: request.sender_ip_addr,
        }
    }

    /// Records `ip -> link`, learned at `now`, overwriting any older entry.
    pub open spec fn learn(self, ip: u32, link: u64, now: u64) -> ArpModel {
        ArpModel {
            links: self.links.insert(ip, link),
            learned_at: self.learned_at.insert(ip, now),
            ..self
        }
    }

    /// Every handle waiting on `target` takes `outcome`; the others are kept.
    pub open spec fn settle(self, target: u32, outcome: WaiterState) -> Seq<WaiterState> {
        self.waiters.map_values(
            |w: WaiterState|
                if w == WaiterState::Waiting(target) {
                    outcome
                } else {
                    w
                },
        )
    }

    /// State after a query for `target`; its handle is the last waiter.
    pub open spec fn query(self, target: u32, now: u64) -> ArpModel {
        if self.links.contains_key(target) {
            ArpModel { waiters: self.waiters.push(WaiterState::Resolved(self.links[target])), ..self }
        } else if self.pending.contains_key(target) {
            ArpModel { waiters: self.waiters.push(WaiterState::Waiting(target)), ..self }
        } else {
            ArpModel {
                pending: self.pending.insert(
                    target,
                    PendingQuery {
                        retries_used: 0,
                        deadline: deadline_after(now, self.config.request_timeout),
                    },
                ),
                waiters: self.waiters.push(WaiterState::Waiting(target)),
                effects: self.effects.push(Effect::Transmit(self.request_for(target))),
                ..self
            }
        }
    }

    /// State and outcome after handle `id` is driven at `now`.
    pub open spec fn advance(self, id: int, now: u64) -> (ArpModel, Resolution) {
        match self.waiters[id] {
            WaiterState::Resolved(link) => (self, Resolution::Resolved(link)),
            WaiterState::TimedOut => (self, Resolution::Timeout),
            WaiterState::Waiting(target) => {
                let entry = self.pending[target];
                if now < entry.deadline {
                    (self, Resolution::TryAgain)
                } else if entry.retries_used < self.config.retry_count {
                    (
                        ArpModel {
                            pending: self.pending.insert(
                                target,
                                PendingQuery {
                                    retries_used: (entry.retries_used + 1) as u32,
                                    deadline: deadline_after(now, self.config.request_timeout),
                                },
                            ),
                            effects: self.effects.push(Effect::Transmit(self.request_for(target))),
                            ..self
                        },
                        Resolution::TryAgain,
                    )
                } else {
                    (
                        ArpModel {
                            pending: self.pending.remove(target),
                            waiters: self.settle(target, WaiterState::TimedOut),
                            ..self
                        },
                        Resolution::Timeout,
                    )
                }
            },
        }
    }

    /// State and outcome after `packet` arrives at `now`.
    ///
    /// A request addressed to this engine teaches it the sender and queues a
    /// reply. A reply from a target with an outstanding query teaches it the
    /// sender and resolves every handle waiting on that target. Any other
    /// packet (a request for another host, or a reply with no outstanding
    /// query) refreshes the sender's entry when the sender is already cached
    /// or, for a reply, when it is addressed to this engine; else it is
    /// ignored and changes nothing.
    pub open spec fn receive(self, packet: ArpPacket, now: u64) -> (ArpModel, Result<(), ArpError>) {
        let sender = packet.sender_ip_addr;
        let learned = self.learn(sender, packet.sender_link_addr, now);
        match packet.operation {
            ArpOperation::Request => {
                if packet.target_ip_addr == self.local_ip_addr {
                    (
                        ArpModel {
                            effects: self.effects.push(Effect::Transmit(self.reply_to(packet))),
                            ..learned
                        },
                        Ok(()),
                    )
                } else if self.links.contains_key(sender) {
                    (learned, Ok(()))
                } else {
                    (self, Err(ArpError::Ignored))
                }
            },
            ArpOperation::Reply => {
                if self.pending.contains_key(sender) {
                    (
                        ArpModel {
                            pending: self.pending.remove(sender),
                            waiters: self.settle(
                                sender,
                                WaiterState::Resolved(packet.sender_link_addr),
                            ),
                            ..learned
                        },
                        Ok(()),
                    )
                } else if packet.target_ip_addr == self.local_ip_addr || self.links.contains_key(
                    sender,
                ) {
                    (learned, Ok(()))
                } else {
                    (self, Err(ArpError::Ignored))
                }
            },
        }
    }

    /// State and effect after the oldest queued effect is taken.
    pub open spec fn drain(self) -> (ArpModel, Option<Effect>) {
        if self.effects.len() == 0 {
            (self, None)
        } else {
            (ArpModel { effects: self.effects.drop_first(), ..self }, Some(self.effects[0]))
        }
    }
}


/// Each step of the engine keeps its state well formed.
pub proof fn lemma_steps_preserve_wf(s: ArpModel, target: u32, id: int, packet: ArpPacket, now: u64)
    requires
        s.wf(),
    ensures
        s.query(target, now).wf(),
        0 <= id < s.waiters.len() ==> s.advance(id, now).0.wf(),
        s.receive(packet, now).0.wf(),
        s.drain().0.wf(),
{
    let q = s.query(target, now);
    assert forall|i: int| 0 <= i < q.waiters.len() && (#[trigger] q.waiters[i]) is Waiting implies q.pending.contains_key(q.waiters[i]->Waiting_0) by {
        if i < s.waiters.len() {
            assert(q.waiters[i] == s.waiters[i]);
        }
    }
    lemma_settle_wf(s, target, WaiterState::TimedOut);
    lemma_settle_wf(s, packet.sender_ip_addr, WaiterState::Resolved(packet.sender_link_addr));
    let l = s.learn(packet.sender_ip_addr, packet.sender_link_addr, now);
    assert(l.links.dom() == l.learned_at.dom());
    if 0 <= id < s.waiters.len() && s.waiters[id] is Waiting {
        lemma_settle_wf(s, s.waiters[id]->Waiting_0, WaiterState::TimedOut);
    }
}

proof fn lemma_settle_wf(s: ArpModel, target: u32, outcome: WaiterState)
    requires
        s.wf(),
        !(outcome is Waiting),
    ensures
        ({
            let w = s.settle(target, outcome);
            forall|i: int|
                0 <= i < w.len() && (#[trigger] w[i]) is Waiting ==> s.pending.remove(
                    target,
                ).contains_key(w[i]->Waiting_0)
        }),
        s.settle(target, outcome).len() == s.waiters.len(),
{
    let w = s.settle(target, outcome);
    assert forall|i: int| 0 <= i < w.len() && (#[trigger] w[i]) is Waiting implies s.pending.remove(target).contains_key(w[i]->Waiting_0) by {
        assert(s.waiters[i] is Waiting);
    }
}


/// A query for a target that is already cached resolves, on the first drive of
/// its handle, to the cached link address, and queues no packet.
pub proof fn law_cache_hit_short_circuit(s: ArpModel, target: u32, now: u64, later: u64)
    requires
        s.wf(),
        s.links.contains_key(target),
    ensures
        ({
            let q = s.query(target, now);
            let (a, r) = q.advance(s.waiters.len() as int, later);
            &&& r == Resolution::Resolved(s.links[target])
            &&& q.effects == s.effects
            &&& a.effects == s.effects
        }),
{
}

/// Two queries for a target that is neither cached nor outstanding queue one
/// request between them, and a reply from that target resolves both handles
/// to the link address it carries.
pub proof fn law_single_in_flight_entry(
    s: ArpModel,
    target: u32,
    first: u64,
    second: u64,
    reply: ArpPacket,
    arrival: u64,
    poll_first: u64,
    poll_second: u64,
)
    requires
        s.wf(),
        !s.links.contains_key(target),
        !s.pending.contains_key(target),
        reply.operation == ArpOperation::Reply,
        reply.sender_ip_addr == target,
    ensures
        ({
            let q = s.query(target, first).query(target, second);
            let (r, received) = q.receive(reply, arrival);
            let h = s.waiters.len() as int;
            &&& q.effects == s.effects.push(Effect::Transmit(s.request_for(target)))
            &&& received == Ok::<(), ArpError>(())
            &&& r.effects == q.effects
            &&& r.advance(h, poll_first).1 == Resolution::Resolved(reply.sender_link_addr)
            &&& r.advance(h + 1, poll_second).1 == Resolution::Resolved(reply.sender_link_addr)
        }),
{
    let q = s.query(target, first).query(target, second);
    let h = s.waiters.len() as int;
    assert(q.waiters[h] == WaiterState::Waiting(target));
    assert(q.waiters[h + 1] == WaiterState::Waiting(target));
}

/// A request that is not addressed to this engine, from a sender it has not
/// cached, is ignored and changes nothing.
pub proof fn law_irrelevant_request_ignored(s: ArpModel, packet: ArpPacket, now: u64)
    requires
        s.wf(),
        packet.operation == ArpOperation::Request,
        packet.target_ip_addr != s.local_ip_addr,
        !s.links.contains_key(packet.sender_ip_addr),
    ensures
        s.receive(packet, now) == (s, Err::<(), ArpError>(ArpError::Ignored)),
{
}

/// Once a handle has observed `Resolved` or `Timeout`, driving it again at any
/// time yields the same outcome and leaves the engine as it was.
pub proof fn law_terminal_polling_idempotent(s: ArpModel, id: int, now: u64, later: u64)
    requires
        s.wf(),
        0 <= id < s.waiters.len(),
        s.advance(id, now).1 is Resolved || s.advance(id, now).1 is Timeout,
    ensures
        ({
            let (a, r) = s.advance(id, now);
            a.advance(id, later) == (a, r)
        }),
{
    let (a, r) = s.advance(id, now);
    if s.waiters[id] is Waiting {
        assert(a.waiters[id] == WaiterState::TimedOut);
    }
}

/// A drive reports `Timeout` exactly when the handle's query has used every
/// retransmission and its deadline has passed; the query is then gone, and a
/// later query for the same uncached target starts afresh with one request.
pub proof fn law_timeout_after_retries(s: ArpModel, id: int, now: u64, later: u64)
    requires
        s.wf(),
        0 <= id < s.waiters.len(),
        s.waiters[id] is Waiting,
        !s.links.contains_key(s.waiters[id]->Waiting_0),
    ensures
        ({
            let target = s.waiters[id]->Waiting_0;
            let entry = s.pending[target];
            let (a, r) = s.advance(id, now);
            let q = a.query(target, later);
            &&& (r == Resolution::Timeout) == (now >= entry.deadline && entry.retries_used
                == s.config.retry_count)
            &&& r == Resolution::Timeout ==> {
                &&& !a.pending.contains_key(target)
                &&& a.effects == s.effects
                &&& q.pending[target] == PendingQuery {
                    retries_used: 0,
                    deadline: deadline_after(later, s.config.request_timeout),
                }
                &&& q.effects == a.effects.push(Effect::Transmit(s.request_for(target)))
            }
        }),
{
}

/// Computes `deadline_after(now, timeout)`.
fn deadline_from(now: u64, timeout: u64) -> (r: u64)
    ensures
        r == deadline_after(now, timeout),
{
    if timeout <= u64::MAX - now {
        now + timeout
    } else {
        u64::MAX
    }
}

/// A re-pollable handle on the outcome of one query.
pub struct PendingResolution {
    id: usize,
}

impl PendingResolution {
    /// Position of this handle among the engine's waiters.
    pub closed spec fn index(self) -> int {
        self.id as int
    }

    /// Drives the query behind this handle at logical time `now`. The handle
    /// must have been issued by `engine`.
    pub fn advance(&self, engine: &mut ArpEngine, now: u64) -> (r: Resolution)
        requires
            old(engine)@.wf(),
            0 <= self.index() < old(engine)@.waiters.len(),
        ensures
            (final(engine)@, r) == old(engine)@.advance(self.index(), now),
            final(engine)@.wf(),
    {
        proof {
            lemma_steps_preserve_wf(engine@, 0, self.index(), engine@.request_for(0), now);
        }
        engine.advance_waiter(self.id, now)
    }
}

/// An address-resolution engine for one network participant.
pub struct ArpEngine {
    local_ip_addr: u32,
    local_link_addr: u64,
    config: ArpConfig,
    links: HashMap<u32, u64>,
    learned_at: HashMap<u32, u64>,
    pending: HashMap<u32, PendingQuery>,
    waiters: Vec<WaiterState>,
    effects: VecDeque<Effect>,
}

impl View for ArpEngine {
    type V = ArpModel;

    closed spec fn view(&self) -> ArpModel {
        ArpModel {
            local_ip_addr: self.local_ip_addr,
            local_link_addr: self.local_link_addr,
            config: self.config,
            links: self.links@,
            learned_at: self.learned_at@,
            pending: self.pending@,
            waiters: self.waiters@,
            effects: self.effects@,
        }
    }
}

impl ArpEngine {
    /// An engine with an empty cache, no outstanding query and no effect.
    pub fn new(local_ip_addr: u32, local_link_addr: u64, config: ArpConfig) -> (r: Self)
        ensures
            r@.wf(),
            r@.local_ip_addr == local_ip_addr,
            r@.local_link_addr == local_link_addr,
            r@.config == config,
            r@.links == Map::<u32, u64>::empty(),
            r@.learned_at == Map::<u32, u64>::empty(),
            r@.pending == Map::<u32, PendingQuery>::empty(),
            r@.waiters == Seq::<WaiterState>::empty(),
            r@.effects == Seq::<Effect>::empty(),
    {
        ArpEngine {
            local_ip_addr,
            local_link_addr,
            config,
            links: HashMap::new(),
            learned_at: HashMap::new(),
            pending: HashMap::new(),
            waiters: Vec::new(),
            effects: VecDeque::new(),
        }
    }

    pub fn local_ip_addr(&self) -> (r: u32)
        ensures
            r == self@.local_ip_addr,
    {
        self.local_ip_addr
    }

    pub fn local_link_addr(&self) -> (r: u64)
        ensures
            r == self@.local_link_addr,
    {
        self.local_link_addr
    }

    pub fn options(&self) -> (r: ArpConfig)
        ensures
            r == self@.config,
    {
        self.config
    }

    fn request_for(&self, target: u32) -> (r: ArpPacket)
        ensures
            r == self@.request_for(target),
    {
        ArpPacket {
            operation: ArpOperation::Request,
            sender_link_addr: self.local_link_addr,
            sender_ip_addr: self.local_ip_addr,
            target_link_addr: 0,
            target_ip_addr: target,
        }
    }

    fn reply_to(&self, request: &ArpPacket) -> (r: ArpPacket)
        ensures
            r == self@.reply_to(*request),
    {
        ArpPacket {
            operation: ArpOperation::Reply,
            sender_link_addr: self.local_link_addr,
            sender_ip_addr: self.local_ip_addr,
            target_link_addr: request.sender_link_addr,
            target_ip_addr: request.sender_ip_addr,
        }
    }

    /// The link address cached for `ip`, if any.
    pub fn lookup(&self, ip: u32) -> (r: Option<u64>)
        ensures
            r == (if self@.links.contains_key(ip) {
                Some(self@.links[ip])
            } else {
                None
            }),
    {
        match self.links.get(&ip) {
            Some(link) => Some(*link),
            None => None,
        }
    }

    /// A snapshot of the cache: network address to link address.
    pub fn export_arp_cache(&self) -> (r: HashMap<u32, u64>)
        ensures
            r@ == self@.links,
    {
        self.links.clone()
    }

    fn learn(&mut self, ip: u32, link: u64, now: u64)
        ensures
            final(self)@ == old(self)@.learn(ip, link, now),
    {
        self.links.insert(ip, link);
        self.learned_at.insert(ip, now);
    }

    fn settle(&mut self, target: u32, outcome: WaiterState)
        ensures
            final(self)@ == (ArpModel { waiters: old(self)@.settle(target, outcome), ..old(self)@ }),
    {
        let ghost orig = self@;
        let n = self.waiters.len();
        let mut i: usize = 0;
        while i < n
            invariant
                n == self.waiters@.len(),
                n == orig.waiters.len(),
                i <= n,
                self@ == (ArpModel { waiters: self.waiters@, ..orig }),
                forall|j: int| 0 <= j < i ==> self.waiters@[j] == orig.settle(target, outcome)[j],
                forall|j: int| i <= j < n ==> self.waiters@[j] == orig.waiters[j],
            decreases n - i,
        {
            match self.waiters[i] {
                WaiterState::Waiting(t) => {
                    if t == target {
                        self.waiters.set(i, outcome);
                    }
                },
                _ => {},
            }
            i += 1;
        }
        assert(self.waiters@ =~= orig.settle(target, outcome));
    }

    fn advance_waiter(&mut self, id: usize, now: u64) -> (r: Resolution)
        requires
            old(self)@.wf(),
            id < old(self)@.waiters.len(),
        ensures
            (final(self)@, r) == old(self)@.advance(id as int, now),
    {
        match self.waiters[id] {
            WaiterState::Resolved(link) => Resolution::Resolved(link),
            WaiterState::TimedOut => Resolution::Timeout,
            WaiterState::Waiting(target) => {
                let entry = *self.pending.get(&target).unwrap();
                if now < entry.deadline {
                    Resolution::TryAgain
                } else if entry.retries_used < self.config.retry_count {
                    let deadline = deadline_from(now, self.config.request_timeout);
                    self.pending.insert(
                        target,
                        PendingQuery { retries_used: entry.retries_used + 1, deadline },
                    );
                    let packet = self.request_for(target);
                    self.effects.push_back(Effect::Transmit(packet));
                    Resolution::TryAgain
                } else {
                    self.pending.remove(&target);
                    self.settle(target, WaiterState::TimedOut);
                    Resolution::Timeout
                }
            },
        }
    }

    /// Starts, or joins, resolution of `target` and returns a handle on it.
    pub fn query(&mut self, target: u32, now: u64) -> (r: PendingResolution)
        requires
            old(self)@.wf(),
        ensures
            final(self)@ == old(self)@.query(target, now),
            r.index() == old(self)@.waiters.len(),
            final(self)@.wf(),
    {
        proof {
            lemma_steps_preserve_wf(self@, target, 0, self@.request_for(target), now);
        }
        let id = self.waiters.len();
        match self.links.get(&target) {
            Some(link) => {
                self.waiters.push(WaiterState::Resolved(*link));
            },
            None => {
                if !self.pending.contains_key(&target) {
                    let deadline = deadline_from(now, self.config.request_timeout);
                    self.pending.insert(target, PendingQuery { retries_used: 0, deadline });
                    let packet = self.request_for(target);
                    self.effects.push_back(Effect::Transmit(packet));
                }
                self.waiters.push(WaiterState::Waiting(target));
            },
        }
        PendingResolution { id }
    }

    /// Handles an inbound resolution packet received at `now`.
    ///
    /// Requests addressed to this engine are learned from and answered; a
    /// reply resolves the outstanding query of its sender. The sender of a
    /// request for another host, or of a reply nobody waits for, is learned
    /// only when it is already cached (a refresh of a known peer) or, for a
    /// reply, when the reply is addressed to this engine; otherwise the packet
    /// is `Ignored` and nothing changes. At most one reply is queued per call.
    pub fn receive(&mut self, packet: &ArpPacket, now: u64) -> (r: Result<(), ArpError>)
        requires
            old(self)@.wf(),
        ensures
            (final(self)@, r) == old(self)@.receive(*packet, now),
            final(self)@.wf(),
    {
        proof {
            lemma_steps_preserve_wf(self@, 0, 0, *packet, now);
        }
        let sender = packet.sender_ip_addr;
        match packet.operation {
            ArpOperation::Request => {
                if packet.target_ip_addr == self.local_ip_addr {
                    self.learn(sender, packet.sender_link_addr, now);
                    let reply = self.reply_to(packet);
                    self.effects.push_back(Effect::Transmit(reply));
                    Ok(())
                } else if self.links.contains_key(&sender) {
                    self.learn(sender, packet.sender_link_addr, now);
                    Ok(())
                } else {
                    Err(ArpError::Ignored)
                }
            },
            ArpOperation::Reply => {
                if self.pending.contains_key(&sender) {
                    self.learn(sender, packet.sender_link_addr, now);
                    self.pending.remove(&sender);
                    self.settle(sender, WaiterState::Resolved(packet.sender_link_addr));
                    Ok(())
                } else if packet.target_ip_addr == self.local_ip_addr || self.links.contains_key(
                    &sender,
                ) {
                    self.learn(sender, packet.sender_link_addr, now);
                    Ok(())
                } else {
                    Err(ArpError::Ignored)
                }
            },
        }
    }

    /// Takes the oldest queued effect, if any.
    pub fn drain_one(&mut self) -> (r: Option<Effect>)
        requires
            old(self)@.wf(),
        ensures
            (final(self)@, r) == old(self)@.drain(),
            final(self)@.wf(),
    {
        proof {
            lemma_steps_preserve_wf(self@, 0, 0, self@.request_for(0), 0);
        }
        let r = self.effects.pop_front();
        proof {
            if r is Some {
                assert(self.effects@ =~= old(self)@.effects.drop_first());
            }
        }
        r
    }
}

} // verus!
