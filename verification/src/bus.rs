//! Bounded, multi-subscriber key-change event bus.
//!
//! Each subscriber owns a fixed-capacity queue plus a lag counter.  A
//! publish is non-blocking and best-effort: a full queue drops the event for
//! that subscriber and counts it, so sampling never waits on a slow USB
//! consumer.  A subscriber that fell behind is handed a single lag notice
//! covering the whole overflow window, after which its queue resumes with
//! the events that did fit.

use crate::keys::KeySignal;
use vstd::prelude::*;

verus! {

/// Capacity of each subscriber's queue.
pub const KEYCHANGE_BUS_CAP: usize = 32;

/// Largest number of subscribers the bus serves.
pub const KEYCHANGE_BUS_SUBS: usize = 5;

/// One subscriber's bounded queue plus its overflow accounting.
#[derive(Debug)]
pub struct SubQueue {
    /// Pending events, oldest first; never more than [`KEYCHANGE_BUS_CAP`].
    pub items: Vec<KeySignal>,
    /// Events dropped for this subscriber since its last lag notice
    /// (saturating, so the count is exact short of `u64::MAX` drops).
    pub lag: u64,
}

/// What a subscriber's poll yields: the next event in emission order, or a
/// single notice of how many events it missed while its queue was full.
#[derive(Debug, Clone, Copy, PartialEq, Eq, Structural)]
pub enum BusWait {
    /// The next pending key-change event.
    Message(KeySignal),
    /// The subscriber missed this many events since it last polled.
    Lagged(u64),
}

/// A subscriber queue's pending items after one non-blocking publish:
/// appended when there is room, unchanged (the event is dropped) when full.
pub open spec fn spec_published_items(items: Seq<KeySignal>, sig: KeySignal) -> Seq<KeySignal> {
    if items.len() < KEYCHANGE_BUS_CAP {
        items.push(sig)
    } else {
        items
    }
}

/// A subscriber queue's lag counter after one non-blocking publish: bumped
/// (saturating) exactly when the queue was full and the event was dropped.
pub open spec fn spec_published_lag(items: Seq<KeySignal>, lag: u64) -> u64 {
    if items.len() < KEYCHANGE_BUS_CAP {
        lag
    } else if lag < u64::MAX {
        (lag + 1) as u64
    } else {
        lag
    }
}

/// A subscriber queue's (items, lag) state after publishing each event of
/// `evs` in order.
pub open spec fn spec_published_seq(items: Seq<KeySignal>, lag: u64, evs: Seq<KeySignal>) -> (
    Seq<KeySignal>,
    u64,
)
    decreases evs.len(),
{
    if evs.len() == 0 {
        (items, lag)
    } else {
        let prev = spec_published_seq(items, lag, evs.drop_last());
        (spec_published_items(prev.0, evs.last()), spec_published_lag(prev.0, prev.1))
    }
}

impl SubQueue {
    /// Well-formedness: the queue never exceeds its fixed capacity.
    pub open spec fn wf(self) -> bool {
        self.items@.len() <= KEYCHANGE_BUS_CAP
    }
}

/// How many of the queues are full, so that one publish drops the event for
/// exactly that many subscribers.
pub open spec fn spec_full_count(qs: Seq<SubQueue>) -> nat
    decreases qs.len(),
{
    if qs.len() == 0 {
        0
    } else {
        spec_full_count(qs.drop_last()) + (if qs.last().items@.len() >= KEYCHANGE_BUS_CAP {
            1nat
        } else {
            0nat
        })
    }
}

/// Law: publishing a concatenation of event streams is the same as
/// publishing the two parts one after the other.
pub proof fn lemma_published_seq_concat(
    items: Seq<KeySignal>,
    lag: u64,
    a: Seq<KeySignal>,
    b: Seq<KeySignal>,
)
    ensures
        spec_published_seq(items, lag, a + b) == spec_published_seq(
            spec_published_seq(items, lag, a).0,
            spec_published_seq(items, lag, a).1,
            b,
        ),
    decreases b.len(),
{
    if b.len() == 0 {
        assert(a + b =~= a);
    } else {
        lemma_published_seq_concat(items, lag, a, b.drop_last());
        assert((a + b).drop_last() =~= a + b.drop_last());
        assert((a + b).last() == b.last());
    }
}

/// The key-change event bus: one bounded queue per subscriber.
#[derive(Debug)]
pub struct KeyChangeBus {
    /// The subscribers' queues.
    pub queues: Vec<SubQueue>,
}

impl KeyChangeBus {
    /// Well-formedness: every subscriber queue is within capacity.
    pub open spec fn wf(self) -> bool {
        forall|i: int| 0 <= i < self.queues@.len() ==> (#[trigger] self.queues@[i]).wf()
    }

    /// A bus with `n_subs` subscribers, all queues empty.
    pub fn new(n_subs: usize) -> (r: KeyChangeBus)
        requires
            n_subs <= KEYCHANGE_BUS_SUBS,
        ensures
            r.wf(),
            r.queues@.len() == n_subs,
            forall|i: int|
                0 <= i < n_subs ==> (#[trigger] r.queues@[i]).items@.len() == 0
                    && r.queues@[i].lag == 0,
    {
        let mut queues: Vec<SubQueue> = Vec::new();
        let mut i: usize = 0;
        while i < n_subs
            invariant
                i <= n_subs,
                queues@.len() == i,
                forall|j: int|
                    0 <= j < i ==> (#[trigger] queues@[j]).items@.len() == 0 && queues@[j].lag
                        == 0,
            decreases n_subs - i,
        {
            queues.push(SubQueue { items: Vec::new(), lag: 0 });
            i = i + 1;
        }
        KeyChangeBus { queues }
    }

    /// Publish one event to every subscriber without blocking: each queue
    /// with room gets the event appended; each full queue drops it and
    /// counts the drop.  Returns for how many subscribers it was dropped.
    pub fn try_publish(&mut self, sig: KeySignal) -> (dropped: usize)
        requires
            old(self).wf(),
        ensures
            final(self).wf(),
            final(self).queues@.len() == old(self).queues@.len(),
            forall|i: int|
                0 <= i < old(self).queues@.len() ==> (#[trigger] final(self).queues@[i]).items@
                    == spec_published_items(old(self).queues@[i].items@, sig) && final(self).queues@[i].lag == spec_published_lag(
                    old(self).queues@[i].items@,
                    old(self).queues@[i].lag,
                ),
            dropped == spec_full_count(old(self).queues@),
            (dropped == 0) <==> (forall|i: int|
                0 <= i < old(self).queues@.len() ==> (#[trigger] old(self).queues@[i]).items@.len()
                    < KEYCHANGE_BUS_CAP),
    {
        let n = self.queues.len();
        let mut dropped: usize = 0;
        let mut i: usize = 0;
        while i < n
            invariant
                i <= n,
                n == old(self).queues@.len(),
                self.queues@.len() == n,
                dropped <= i,
                forall|j: int|
                    i <= j < n ==> #[trigger] self.queues@[j] == old(self).queues@[j],
                forall|j: int|
                    0 <= j < i ==> (#[trigger] self.queues@[j]).items@ == spec_published_items(
                        old(self).queues@[j].items@,
                        sig,
                    ) && self.queues@[j].lag == spec_published_lag(
                        old(self).queues@[j].items@,
                        old(self).queues@[j].lag,
                    ),
                dropped == spec_full_count(old(self).queues@.take(i as int)),
                (dropped == 0) <==> (forall|j: int|
                    0 <= j < i ==> (#[trigger] old(self).queues@[j]).items@.len()
                        < KEYCHANGE_BUS_CAP),
                old(self).wf(),
            decreases n - i,
        {
            proof {
                assert(old(self).queues@.take(i + 1).drop_last() =~= old(self).queues@.take(
                    i as int,
                ));
                assert(old(self).queues@.take(i + 1).last() == old(self).queues@[i as int]);
            }
            if self.queues[i].items.len() < KEYCHANGE_BUS_CAP {
                self.queues[i].items.push(sig);
            } else {
                if self.queues[i].lag < u64::MAX {
                    self.queues[i].lag = self.queues[i].lag + 1;
                }
                dropped = dropped + 1;
            }
            i = i + 1;
        }
        proof {
            assert(old(self).queues@.take(n as int) =~= old(self).queues@);
        }
        dropped
    }

    /// Poll subscriber `sub`: a pending lag is reported first (as a single
    /// notice, resetting the counter); otherwise the oldest pending event is
    /// handed out; `None` when the queue is idle.
    pub fn next_message(&mut self, sub: usize) -> (r: Option<BusWait>)
        requires
            old(self).wf(),
            sub < old(self).queues@.len(),
        ensures
            final(self).wf(),
            final(self).queues@.len() == old(self).queues@.len(),
            forall|i: int|
                0 <= i < old(self).queues@.len() && i != sub ==> #[trigger] final(self).queues@[i]
                    == old(self).queues@[i],
            old(self).queues@[sub as int].lag > 0 ==> r == Some(
                BusWait::Lagged(old(self).queues@[sub as int].lag),
            ) && final(self).queues@[sub as int].lag == 0 && final(self).queues@[sub as int].items@ == old(self).queues@[sub as int].items@,
            old(self).queues@[sub as int].lag == 0 && old(self).queues@[sub as int].items@.len()
                > 0 ==> r == Some(BusWait::Message(old(self).queues@[sub as int].items@[0]))
                && final(self).queues@[sub as int].items@ == old(self).queues@[sub as int].items@.drop_first() && final(self).queues@[sub as int].lag == 0,
            old(self).queues@[sub as int].lag == 0 && old(self).queues@[sub as int].items@.len()
                == 0 ==> r is None && final(self).queues@[sub as int] == old(self).queues@[sub as int],
    {
        if self.queues[sub].lag > 0 {
            let n = self.queues[sub].lag;
            self.queues[sub].lag = 0;
            Some(BusWait::Lagged(n))
        } else if self.queues[sub].items.len() > 0 {
            let sig = self.queues[sub].items.remove(0);
            proof {
                assert(final(self).queues@[sub as int].items@ =~= old(self).queues@[sub as int].items@.drop_first());
            }
            Some(BusWait::Message(sig))
        } else {
            None
        }
    }
}

/// Law: a publish into a full subscriber queue is a pure drop: the pending
/// items are unchanged (nothing blocks, nothing is displaced) and exactly
/// one missed event is added to the lag count.
pub proof fn lemma_publish_full_drops(items: Seq<KeySignal>, lag: u64, sig: KeySignal)
    requires
        items.len() >= KEYCHANGE_BUS_CAP,
        lag < u64::MAX,
    ensures
        spec_published_items(items, sig) == items,
        spec_published_lag(items, lag) == lag + 1,
{
}

/// Law: a subscriber that missed `n` events receives exactly one lag notice
/// for the whole overflow window: the notice reports `n` and resets the
/// counter, so the very next poll yields an event or `None`, never a second
/// notice.
pub proof fn lemma_single_lag_notice(items: Seq<KeySignal>, lag: u64, evs: Seq<KeySignal>)
    requires
        items.len() >= KEYCHANGE_BUS_CAP,
        lag == 0,
        evs.len() < u64::MAX,
    ensures
        spec_published_seq(items, lag, evs).0 == items,
        spec_published_seq(items, lag, evs).1 == evs.len(),
    decreases evs.len(),
{
    if evs.len() > 0 {
        lemma_single_lag_notice(items, lag, evs.drop_last());
    }
}

} // verus!
