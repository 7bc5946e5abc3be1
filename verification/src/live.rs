//! Live events and the chain-tip poller's decisions.

use vstd::prelude::*;
use crate::bus::EventBus;
use crate::cache::{no_entries, AppCache};
use crate::rpc::types::{NodeNumber, RpcBlock};

verus! {

/// What the poller tells subscribers. Immutable once built.
#[derive(Debug, Clone, PartialEq, Eq)]
pub enum LiveEvent {
    /// A block was found at the tip.
    NewBlock {
        hash: String,
        height: u64,
        time: u64,
        n_tx: u32,
        chainlock: bool,
        credit_pool_balance: NodeNumber,
    },
    /// The size of the mempool changed.
    MempoolUpdate { size: u64, bytes: u64, total_fee: NodeNumber },
}

impl LiveEvent {
    /// Copy of the event.
    pub fn duplicate(&self) -> (r: LiveEvent)
        ensures
            r == *self,
    {
        match self {
            LiveEvent::NewBlock { hash, height, time, n_tx, chainlock, credit_pool_balance } => {
                LiveEvent::NewBlock {
                    hash: hash.clone(),
                    height: *height,
                    time: *time,
                    n_tx: *n_tx,
                    chainlock: *chainlock,
                    credit_pool_balance: *credit_pool_balance,
                }
            },
            LiveEvent::MempoolUpdate { size, bytes, total_fee } => LiveEvent::MempoolUpdate {
                size: *size,
                bytes: *bytes,
                total_fee: *total_fee,
            },
        }
    }
}

/// Seconds between two polls of the tip.
pub const POLL_INTERVAL_SECS: u64 = 2;

/// The mempool is sampled on every tick whose number is a multiple of this.
pub const MEMPOOL_EVERY: u8 = 5;

/// Heights that became known between two observations of the tip: every
/// height above the previous tip up to the current one, ascending. Nothing
/// while no tip has been recorded yet, whatever the current tip is, and
/// nothing when the tip did not advance.
pub open spec fn new_heights(previous: Option<u64>, current: u64) -> Seq<u64> {
    match previous {
        Some(p) => if current > p {
            Seq::new((current - p) as nat, |i: int| (p + 1 + i) as u64)
        } else {
            Seq::empty()
        },
        None => Seq::empty(),
    }
}

/// The heights to fetch after one observation of the tip.
#[derive(Debug, Clone, Copy, PartialEq, Eq)]
pub struct TipPlan {
    first: u64,
    count: u64,
}

impl TipPlan {
    #[verifier::type_invariant]
    spec fn inv(&self) -> bool {
        self.count > 0 ==> self.first + self.count - 1 <= u64::MAX
    }

    /// The heights to fetch, ascending.
    pub closed spec fn heights(&self) -> Seq<u64> {
        Seq::new(self.count as nat, |i: int| (self.first + i) as u64)
    }

    /// Number of heights to fetch.
    pub fn len(&self) -> (n: u64)
        ensures
            n as nat == self.heights().len(),
    {
        self.count
    }

    /// Whether new blocks were found, so that what was derived from the
    /// tip has to be invalidated.
    pub fn found_blocks(&self) -> (b: bool)
        ensures
            b == (self.heights().len() > 0),
    {
        self.count > 0
    }

    /// The `i`-th height to fetch.
    pub fn height_at(&self, i: u64) -> (h: u64)
        requires
            (i as nat) < self.heights().len(),
        ensures
            h == self.heights()[i as int],
    {
        proof {
            use_type_invariant(self);
        }
        self.first + i
    }
}

/// What the node says of its mempool, as far as the poller reads it.
#[derive(Debug, Clone, Copy, PartialEq, Eq, Structural)]
pub struct MempoolSample {
    pub size: u64,
    pub bytes: u64,
    pub total_fee: NodeNumber,
}

/// The poller's own state: the tip it saw last, if it has seen one, the
/// mempool size it saw last, and where it stands in its cycle of ticks.
/// Only the poller writes it.
#[derive(Debug)]
pub struct LiveUpdater {
    last_height: Option<u64>,
    last_mempool_size: u64,
    phase: u8,
}

impl LiveUpdater {
    #[verifier::type_invariant]
    spec fn inv(&self) -> bool {
        self.phase < MEMPOOL_EVERY
    }

    /// Tip height recorded last; none until a tick has observed the tip. A
    /// recorded height of zero is a tip like any other.
    pub closed spec fn tip(&self) -> Option<u64> {
        self.last_height
    }

    /// Mempool size recorded last.
    pub closed spec fn mempool_size(&self) -> u64 {
        self.last_mempool_size
    }

    /// Number of ticks so far, modulo `MEMPOOL_EVERY`.
    pub closed spec fn phase(&self) -> int {
        self.phase as int
    }

    /// State at startup: nothing recorded, no tick yet.
    pub fn new() -> (u: LiveUpdater)
        ensures
            u.tip() is None,
            u.mempool_size() == 0,
            u.phase() == 0,
    {
        LiveUpdater { last_height: None, last_mempool_size: 0, phase: 0 }
    }

    /// Read-only snapshot of the recorded tip height.
    pub fn last_height(&self) -> (h: Option<u64>)
        ensures
            h == self.tip(),
    {
        self.last_height
    }

    /// Read-only snapshot of the recorded mempool size.
    pub fn last_mempool_size(&self) -> (n: u64)
        ensures
            n == self.mempool_size(),
    {
        self.last_mempool_size
    }

    /// Starts a tick and says whether the mempool is to be sampled on it:
    /// on every `MEMPOOL_EVERY`-th tick.
    pub fn begin_tick(&mut self) -> (mempool_due: bool)
        ensures
            final(self).phase() == (old(self).phase() + 1) % (MEMPOOL_EVERY as int),
            0 <= final(self).phase() < MEMPOOL_EVERY,
            mempool_due == (final(self).phase() == 0),
            final(self).tip() == old(self).tip(),
            final(self).mempool_size() == old(self).mempool_size(),
    {
        proof {
            use_type_invariant(&*self);
        }
        let next: u8 = if self.phase + 1 == MEMPOOL_EVERY {
            0
        } else {
            self.phase + 1
        };
        self.phase = next;
        next == 0
    }

    /// Records an observed tip height and plans the fetches: one per height
    /// above the previous tip. The first observation only sets the
    /// baseline, at whatever height it is. The recorded tip becomes the
    /// observed one in every case.
    pub fn observe_tip(&mut self, height: u64) -> (plan: TipPlan)
        ensures
            plan.heights() == new_heights(old(self).tip(), height),
            final(self).tip() == Some(height),
            final(self).mempool_size() == old(self).mempool_size(),
            final(self).phase() == old(self).phase(),
    {
        proof {
            use_type_invariant(&*self);
        }
        let previous = self.last_height;
        self.last_height = Some(height);
        let plan = match previous {
            Some(p) => if height > p {
                TipPlan { first: p + 1, count: height - p }
            } else {
                TipPlan { first: 0, count: 0 }
            },
            None => TipPlan { first: 0, count: 0 },
        };
        assert(plan.heights() =~= new_heights(previous, height));
        plan
    }

    /// Takes in what asking the node for its tip gave. A height is
    /// observed as by `observe_tip`; a query that failed plans nothing and
    /// leaves the state as it was, so that the next height observed is
    /// still held against the tip recorded before.
    pub fn on_tip_query(&mut self, tip: Option<u64>) -> (plan: TipPlan)
        ensures
            tip matches Some(height) ==> plan.heights() == new_heights(old(self).tip(), height)
                && final(self).tip() == Some(height),
            tip is None ==> plan.heights() == Seq::<u64>::empty() && final(self).tip() == old(
                self,
            ).tip(),
            final(self).mempool_size() == old(self).mempool_size(),
            final(self).phase() == old(self).phase(),
    {
        match tip {
            Some(height) => self.observe_tip(height),
            None => {
                let plan = TipPlan { first: 0, count: 0 };
                assert(plan.heights() =~= Seq::<u64>::empty());
                plan
            },
        }
    }

    /// Takes in what asking the node for its mempool gave. A sample is
    /// observed as by `observe_mempool`; a query that failed yields no
    /// event and leaves the state as it was.
    pub fn on_mempool_query(&mut self, sample: Option<MempoolSample>) -> (event: Option<
        LiveEvent,
    >)
        ensures
            sample matches Some(m) ==> {
                &&& m.size == old(self).mempool_size() ==> event is None
                &&& m.size != old(self).mempool_size() ==> event == Some(
                    LiveEvent::MempoolUpdate {
                        size: m.size,
                        bytes: m.bytes,
                        total_fee: m.total_fee,
                    },
                )
                &&& final(self).mempool_size() == m.size
            },
            sample is None ==> event is None && final(self).mempool_size() == old(
                self,
            ).mempool_size(),
            final(self).tip() == old(self).tip(),
            final(self).phase() == old(self).phase(),
    {
        match sample {
            Some(m) => self.observe_mempool(m.size, m.bytes, m.total_fee),
            None => None,
        }
    }

    /// Records a sampled mempool and returns the event to publish: one if
    /// the size differs from the recorded one, none otherwise.
    pub fn observe_mempool(&mut self, size: u64, bytes: u64, total_fee: NodeNumber) -> (event: Option<
        LiveEvent,
    >)
        ensures
            size == old(self).mempool_size() ==> event is None,
            size != old(self).mempool_size() ==> event == Some(
                LiveEvent::MempoolUpdate { size, bytes, total_fee },
            ),
            final(self).mempool_size() == size,
            final(self).tip() == old(self).tip(),
            final(self).phase() == old(self).phase(),
    {
        proof {
            use_type_invariant(&*self);
        }
        if size != self.last_mempool_size {
            self.last_mempool_size = size;
            Some(LiveEvent::MempoolUpdate { size, bytes, total_fee })
        } else {
            None
        }
    }
}

/// Phase of the poller after `ticks` ticks from startup.
pub open spec fn phase_after(ticks: nat) -> int {
    (ticks % (MEMPOOL_EVERY as nat)) as int
}

/// The mempool is sampled exactly on the ticks whose number is a multiple
/// of `MEMPOOL_EVERY`: a poller that is in the phase of tick `ticks` enters,
/// with its next tick, the phase of tick `ticks + 1`, and that tick samples
/// if and only if `ticks + 1` is such a multiple.
pub proof fn lemma_mempool_every_fifth_tick(ticks: nat)
    ensures
        phase_after(0) == 0,
        phase_after(ticks + 1) == (phase_after(ticks) + 1) % (MEMPOOL_EVERY as int),
        phase_after(ticks + 1) == 0 <==> (ticks + 1) % 5 == 0,
{
}

/// The event that announces a fetched block. A block without a coinbase
/// payload announces a credit pool balance of zero.
pub open spec fn block_event(block: RpcBlock) -> LiveEvent {
    LiveEvent::NewBlock {
        hash: block.hash,
        height: block.height,
        time: block.time,
        n_tx: block.n_tx,
        chainlock: block.chainlock,
        credit_pool_balance: match block.cb_tx {
            Some(cb) => cb.credit_pool_balance,
            None => NodeNumber { bits: 0 },
        },
    }
}

/// The events for a run of fetches, in the order of the fetches: one per
/// fetch that succeeded, none for one that failed.
pub open spec fn block_events(fetched: Seq<Option<RpcBlock>>) -> Seq<LiveEvent>
    decreases fetched.len(),
{
    if fetched.len() == 0 {
        Seq::empty()
    } else {
        let before = block_events(fetched.drop_last());
        match fetched.last() {
            Some(block) => before.push(block_event(block)),
            None => before,
        }
    }
}

/// The log of a bus after it was offered `events` in order: a closed bus
/// takes none, an open one takes them until its sequence numbers are used up.
pub open spec fn log_after(log: Seq<LiveEvent>, closed: bool, events: Seq<LiveEvent>) -> Seq<
    LiveEvent,
> {
    if closed {
        log
    } else if log.len() + events.len() <= u64::MAX {
        log + events
    } else {
        log + events.subrange(0, u64::MAX - log.len())
    }
}

/// Builds the event that announces a fetched block.
pub fn new_block_event(block: &RpcBlock) -> (event: LiveEvent)
    ensures
        event == block_event(*block),
{
    LiveEvent::NewBlock {
        hash: block.hash.clone(),
        height: block.height,
        time: block.time,
        n_tx: block.n_tx,
        chainlock: block.chainlock,
        credit_pool_balance: match &block.cb_tx {
            Some(cb) => cb.credit_pool_balance,
            None => NodeNumber { bits: 0 },
        },
    }
}

/// Publishes one event per fetched block, in the order of `fetched`; a
/// height whose fetch failed is skipped. Returns the number of events that
/// the bus took.
pub fn announce_blocks(bus: &mut EventBus, fetched: &Vec<Option<RpcBlock>>) -> (taken: u64)
    requires
        old(bus).wf(),
    ensures
        final(bus).wf(),
        final(bus).log() == log_after(
            old(bus).log(),
            old(bus).is_closed(),
            block_events(fetched@),
        ),
        taken as nat == final(bus).log().len() - old(bus).log().len(),
        final(bus).capacity() == old(bus).capacity(),
        final(bus).is_closed() == old(bus).is_closed(),
{
    let mut taken: u64 = 0;
    let mut i: usize = 0;
    proof {
        bus.lemma_log_bounded();
        assert(fetched@.take(0) =~= Seq::<Option<RpcBlock>>::empty());
        assert(bus.log() + Seq::<LiveEvent>::empty() =~= bus.log());
    }
    while i < fetched.len()
        invariant
            0 <= i <= fetched.len(),
            bus.wf(),
            bus.capacity() == old(bus).capacity(),
            bus.is_closed() == old(bus).is_closed(),
            bus.log() == log_after(
                old(bus).log(),
                old(bus).is_closed(),
                block_events(fetched@.take(i as int)),
            ),
            taken as nat == bus.log().len() - old(bus).log().len(),
            bus.log().len() <= u64::MAX,
        decreases fetched.len() - i,
    {
        let ghost before = fetched@.take(i as int);
        let ghost upto = fetched@.take(i as int + 1);
        assert(upto.drop_last() =~= before);
        assert(upto.last() == fetched@[i as int]);
        match &fetched[i] {
            Some(block) => {
                let event = new_block_event(block);
                let ghost log0 = bus.log();
                let accepted = bus.publish(event);
                proof {
                    bus.lemma_log_bounded();
                    let evs = block_events(before);
                    assert(block_events(upto) == evs.push(event));
                    if old(bus).is_closed() {
                    } else if old(bus).log().len() + evs.len() + 1 <= u64::MAX {
                        assert(old(bus).log() + evs.push(event) =~= (old(bus).log() + evs).push(
                            event,
                        ));
                    } else if old(bus).log().len() + evs.len() <= u64::MAX {
                        assert(evs.push(event).subrange(0, u64::MAX - old(bus).log().len())
                            =~= evs);
                    } else {
                        assert(evs.push(event).subrange(0, u64::MAX - old(bus).log().len())
                            =~= evs.subrange(0, u64::MAX - old(bus).log().len()));
                    }
                }
                if accepted {
                    taken = taken + 1;
                }
            },
            None => {
                assert(block_events(upto) == block_events(before));
            },
        }
        i = i + 1;
    }
    assert(fetched@.take(fetched.len() as int) =~= fetched@);
    taken
}

/// Concludes the handling of an observed tip: announces the fetched blocks
/// and, when the plan held any height, invalidates what was derived from
/// the tip, whether or not every fetch succeeded.
pub fn apply_tip(
    bus: &mut EventBus,
    cache: &mut AppCache,
    plan: &TipPlan,
    fetched: &Vec<Option<RpcBlock>>,
) -> (taken: u64)
    requires
        old(bus).wf(),
    ensures
        final(bus).wf(),
        final(bus).log() == log_after(
            old(bus).log(),
            old(bus).is_closed(),
            block_events(fetched@),
        ),
        taken as nat == final(bus).log().len() - old(bus).log().len(),
        final(bus).capacity() == old(bus).capacity(),
        final(bus).is_closed() == old(bus).is_closed(),
        plan.heights().len() > 0 ==> final(cache).latest_blocks.entries() == no_entries()
            && final(cache).status.entries() == no_entries(),
        plan.heights().len() == 0 ==> final(cache).latest_blocks == old(cache).latest_blocks
            && final(cache).status == old(cache).status,
        final(cache).blocks == old(cache).blocks,
        final(cache).block_hash_by_height == old(cache).block_hash_by_height,
        final(cache).transactions == old(cache).transactions,
        final(cache).masternode_list == old(cache).masternode_list,
{
    let taken = announce_blocks(bus, fetched);
    if plan.found_blocks() {
        cache.invalidate_tip();
    }
    taken
}

/// When the tip advances from a recorded `previous` to `current` and every
/// fetch succeeds, exactly one event per new height is announced, in
/// ascending order of height: `previous + 1`, `previous + 2`, up to
/// `current`. This holds for a recorded tip of zero as for any other.
pub proof fn lemma_one_event_per_new_height(
    previous: u64,
    current: u64,
    fetched: Seq<Option<RpcBlock>>,
)
    requires
        current > previous,
        fetched.len() == new_heights(Some(previous), current).len(),
        forall|i: int|
            0 <= i < fetched.len() ==> (#[trigger] fetched[i]) is Some && fetched[i]->0.height
                == new_heights(Some(previous), current)[i],
    ensures
        new_heights(Some(previous), current).len() == current - previous,
        block_events(fetched).len() == current - previous,
        forall|i: int|
            0 <= i < current - previous ==> (#[trigger] block_events(fetched)[i])
                == block_event(fetched[i]->0) && block_events(fetched)[i]->NewBlock_height
                == previous + 1 + i,
{
    lemma_events_of_successful_fetches(fetched);
}

/// Only the first observation sets a baseline without planning anything:
/// before any tip was recorded no height is new, and once one is recorded,
/// every later advance plans each height it passed.
pub proof fn lemma_only_the_first_observation_is_a_baseline(previous: u64, current: u64)
    ensures
        new_heights(None, current).len() == 0,
        current > previous ==> new_heights(Some(previous), current).len() == current - previous,
        current <= previous ==> new_heights(Some(previous), current).len() == 0,
{
}

/// A run of fetches that all succeeded yields one event per fetch, each at
/// the place of its fetch.
pub proof fn lemma_events_of_successful_fetches(fetched: Seq<Option<RpcBlock>>)
    requires
        forall|i: int| 0 <= i < fetched.len() ==> (#[trigger] fetched[i]) is Some,
    ensures
        block_events(fetched).len() == fetched.len(),
        forall|i: int|
            0 <= i < fetched.len() ==> (#[trigger] block_events(fetched)[i]) == block_event(
                fetched[i]->0,
            ),
    decreases fetched.len(),
{
    if fetched.len() > 0 {
        let front = fetched.drop_last();
        assert forall|i: int| 0 <= i < front.len() implies (#[trigger] front[i]) is Some by {
            assert(front[i] == fetched[i]);
        }
        lemma_events_of_successful_fetches(front);
        assert(fetched.last() == fetched[fetched.len() - 1]);
        assert forall|i: int| 0 <= i < fetched.len() implies (#[trigger] block_events(
            fetched,
        )[i]) == block_event(fetched[i]->0) by {
            if i < front.len() {
                assert(front[i] == fetched[i]);
                assert(block_events(fetched)[i] == block_events(front)[i]);
            }
        }
    }
}

} // verus!
