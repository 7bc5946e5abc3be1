//! The live event bus: one producer, any number of subscribers, a bounded
//! buffer of the newest events, and an explicit signal when a subscriber has
//! fallen behind it.
//!
//! Every published event gets the next sequence number, starting at zero. The
//! bus keeps the newest `capacity` events. A subscriber is a cursor: the
//! sequence number it will read next.

use std::collections::VecDeque;
use vstd::prelude::*;
use crate::live::LiveEvent;

verus! {

/// Number of events that the gateway's bus retains.
pub const DEFAULT_CAPACITY: usize = 256;

/// Sequence number of the oldest event still retained, for a bus that has
/// published `published` events and keeps `capacity` of them.
pub open spec fn oldest_retained(published: nat, capacity: nat) -> nat {
    if published > capacity {
        (published - capacity) as nat
    } else {
        0
    }
}

/// What one receive attempt yields.
#[derive(Debug, Clone, PartialEq, Eq)]
pub enum RecvOutcome {
    /// The next event in emission order.
    Event(LiveEvent),
    /// The subscriber fell behind the buffer: this many events were dropped
    /// for it, and it now stands at the oldest event still retained.
    Lagged(u64),
    /// Nothing new yet; the bus is still open.
    Empty,
    /// Nothing new, and the producer has closed the bus.
    Closed,
}

/// A receive handle: the sequence number that it reads next.
#[derive(Debug, PartialEq, Eq)]
pub struct Subscriber {
    next: u64,
}

impl Subscriber {
    /// Sequence number of the event that this subscriber reads next.
    pub closed spec fn position(&self) -> nat {
        self.next as nat
    }

    /// The position, as a number.
    pub fn cursor(&self) -> (p: u64)
        ensures
            p as nat == self.position(),
    {
        self.next
    }
}

/// Result of a receive attempt at position `pos`, with the position after it.
pub open spec fn recv_result(
    log: Seq<LiveEvent>,
    capacity: nat,
    closed: bool,
    pos: nat,
) -> (RecvOutcome, nat) {
    let oldest = oldest_retained(log.len(), capacity);
    if pos < oldest {
        (RecvOutcome::Lagged((oldest - pos) as u64), oldest)
    } else if pos < log.len() {
        (RecvOutcome::Event(log[pos as int]), pos + 1)
    } else if closed {
        (RecvOutcome::Closed, pos)
    } else {
        (RecvOutcome::Empty, pos)
    }
}

/// The bus. Its state is the log of everything published, the number of
/// events it retains, and whether the producer has closed it.
pub struct EventBus {
    retained: VecDeque<LiveEvent>,
    base: u64,
    capacity: usize,
    closed: bool,
    log: Ghost<Seq<LiveEvent>>,
}

impl EventBus {
    /// The buffer holds exactly the newest events of the log, at most
    /// `capacity` of them. Every bus that this module hands out is well formed.
    pub closed spec fn wf(&self) -> bool {
        &&& self.capacity >= 1
        &&& self.log@.len() <= u64::MAX
        &&& self.base as nat == oldest_retained(self.log@.len(), self.capacity as nat)
        &&& self.retained@ == self.log@.subrange(self.base as int, self.log@.len() as int)
    }

    /// Every event published so far, in emission order; the index of an
    /// event is its sequence number.
    pub closed spec fn log(&self) -> Seq<LiveEvent> {
        self.log@
    }

    /// Number of events that the bus retains.
    pub closed spec fn capacity(&self) -> nat {
        self.capacity as nat
    }

    /// Whether the producer has closed the bus.
    pub closed spec fn is_closed(&self) -> bool {
        self.closed
    }

    /// Sequence number of the oldest event still retained.
    pub open spec fn oldest(&self) -> nat {
        oldest_retained(self.log().len(), self.capacity())
    }

    /// Sequence numbers fit in 64 bits.
    pub proof fn lemma_log_bounded(&self)
        requires
            self.wf(),
        ensures
            self.log().len() <= u64::MAX,
            self.capacity() >= 1,
    {
    }

    /// An open bus that has published nothing and retains `capacity` events.
    pub fn new(capacity: usize) -> (bus: EventBus)
        requires
            capacity >= 1,
        ensures
            bus.wf(),
            bus.log() == Seq::<LiveEvent>::empty(),
            bus.capacity() == capacity,
            !bus.is_closed(),
    {
        let bus = EventBus {
            retained: VecDeque::new(),
            base: 0,
            capacity,
            closed: false,
            log: Ghost(Seq::empty()),
        };
        assert(bus.retained@ =~= bus.log@.subrange(0, 0));
        bus
    }

    /// Number of events published so far.
    pub fn published(&self) -> (n: u64)
        requires
            self.wf(),
        ensures
            n as nat == self.log().len(),
    {
        self.base + self.retained.len() as u64
    }

    /// Whether the bus is closed.
    pub fn closed(&self) -> (c: bool)
        ensures
            c == self.is_closed(),
    {
        self.closed
    }

    /// Publishes an event: it gets the next sequence number, and the oldest
    /// retained event leaves the buffer when the buffer is full. A closed
    /// bus, or one whose sequence numbers are used up, refuses the event.
    pub fn publish(&mut self, event: LiveEvent) -> (accepted: bool)
        requires
            old(self).wf(),
        ensures
            final(self).wf(),
            accepted <==> !old(self).is_closed() && old(self).log().len() < u64::MAX,
            accepted ==> final(self).log() == old(self).log().push(event),
            !accepted ==> final(self).log() == old(self).log(),
            final(self).capacity() == old(self).capacity(),
            final(self).is_closed() == old(self).is_closed(),
    {
        if self.closed {
            return false;
        }
        let held: u64 = self.retained.len() as u64;
        if self.base > u64::MAX - held || self.base + held == u64::MAX {
            return false;
        }
        let ghost before = self.log@;
        if self.retained.len() >= self.capacity {
            let _ = self.retained.pop_front();
            self.base = self.base + 1;
        }
        self.retained.push_back(event);
        proof {
            self.log@ = before.push(event);
            assert(self.retained@ =~= self.log@.subrange(
                self.base as int,
                self.log@.len() as int,
            ));
        }
        true
    }

    /// Closes the bus. Events already published stay readable.
    pub fn close(&mut self)
        requires
            old(self).wf(),
        ensures
            final(self).wf(),
            final(self).is_closed(),
            final(self).log() == old(self).log(),
            final(self).capacity() == old(self).capacity(),
    {
        self.closed = true;
    }

    /// A new subscriber. It sees the events published from now on.
    pub fn subscribe(&self) -> (sub: Subscriber)
        requires
            self.wf(),
        ensures
            sub.position() == self.log().len(),
    {
        Subscriber { next: self.published() }
    }

    /// One receive attempt for `sub`.
    ///
    /// A subscriber that has fallen behind the buffer is told how many events
    /// it lost and is moved to the oldest event retained. Otherwise it gets
    /// the event at its position and advances by one. With nothing new it
    /// stays where it is and learns whether the bus is open or closed.
    pub fn recv(&self, sub: &mut Subscriber) -> (outcome: RecvOutcome)
        requires
            self.wf(),
        ensures
            (outcome, final(sub).position()) == recv_result(
                self.log(),
                self.capacity(),
                self.is_closed(),
                old(sub).position(),
            ),
    {
        let total: u64 = self.base + self.retained.len() as u64;
        if sub.next < self.base {
            let missed: u64 = self.base - sub.next;
            sub.next = self.base;
            RecvOutcome::Lagged(missed)
        } else if sub.next < total {
            let slot: usize = (sub.next - self.base) as usize;
            let event = self.retained[slot].duplicate();
            sub.next = sub.next + 1;
            RecvOutcome::Event(event)
        } else if self.closed {
            RecvOutcome::Closed
        } else {
            RecvOutcome::Empty
        }
    }
}

/// What a subscriber at `pos` gets when it receives until nothing new is
/// left: the events delivered, in order, and the number of events reported
/// to it as dropped.
pub open spec fn receive_all(log: Seq<LiveEvent>, capacity: nat, closed: bool, pos: nat) -> (
    Seq<LiveEvent>,
    nat,
)
    decreases log.len() - pos,
{
    if pos >= log.len() {
        (Seq::empty(), 0)
    } else {
        let (outcome, next) = recv_result(log, capacity, closed, pos);
        let (events, dropped) = receive_all(log, capacity, closed, next);
        match outcome {
            RecvOutcome::Event(e) => (seq![e] + events, dropped),
            RecvOutcome::Lagged(n) => (events, dropped + n as nat),
            _ => (events, dropped),
        }
    }
}

/// A subscriber that has fallen behind by more than the buffer is told so,
/// with the exact number of events it lost, instead of silently losing
/// them; and its next receive yields the oldest event still retained,
/// whether or not the bus has been closed meanwhile.
pub proof fn lemma_lagging_subscriber_is_told_and_resumes(
    log: Seq<LiveEvent>,
    capacity: nat,
    closed: bool,
    pos: nat,
)
    requires
        capacity >= 1,
        log.len() <= u64::MAX,
        pos + capacity < log.len(),
    ensures
        recv_result(log, capacity, closed, pos) == (
            RecvOutcome::Lagged((log.len() - capacity - pos) as u64),
            (log.len() - capacity) as nat,
        ),
        recv_result(log, capacity, closed, (log.len() - capacity) as nat) == (
            RecvOutcome::Event(log[log.len() - capacity]),
            (log.len() - capacity + 1) as nat,
        ),
{
}

/// No event is lost unnoticed and none is delivered twice: a subscriber
/// that receives until nothing new is left gets exactly the retained events
/// from its position on, each once and in emission order, and is told of
/// exactly as many dropped events as lay between its position and the
/// oldest retained one.
pub proof fn lemma_delivery_is_gapless(log: Seq<LiveEvent>, capacity: nat, closed: bool, pos: nat)
    requires
        capacity >= 1,
        log.len() <= u64::MAX,
        pos <= log.len(),
    ensures
        pos >= oldest_retained(log.len(), capacity) ==> receive_all(log, capacity, closed, pos)
            == (log.subrange(pos as int, log.len() as int), 0nat),
        pos < oldest_retained(log.len(), capacity) ==> receive_all(log, capacity, closed, pos)
            == (
            log.subrange(oldest_retained(log.len(), capacity) as int, log.len() as int),
            (oldest_retained(log.len(), capacity) - pos) as nat,
        ),
        receive_all(log, capacity, closed, pos).0.len() + receive_all(
            log,
            capacity,
            closed,
            pos,
        ).1 == log.len() - pos,
    decreases log.len() - pos,
{
    let oldest = oldest_retained(log.len(), capacity);
    if pos >= log.len() {
        assert(log.subrange(pos as int, log.len() as int) =~= Seq::<LiveEvent>::empty());
    } else if pos < oldest {
        lemma_delivery_is_gapless(log, capacity, closed, oldest);
    } else {
        lemma_delivery_is_gapless(log, capacity, closed, pos + 1);
        assert(seq![log[pos as int]] + log.subrange(pos as int + 1, log.len() as int)
            =~= log.subrange(pos as int, log.len() as int));
    }
}

} // verus!
