//! The process-wide shutdown latch: a one-way signal shared by blocking
//! threads and asynchronous tasks.
//!
//! This module holds the latch's state and decisions. The outside work the
//! decisions prescribe — completing each drained subscription's stream,
//! waking blocked timers, reading the clock, sleeping — is carried out by the
//! caller around these functions.

use vstd::prelude::*;

verus! {

/// The subscription registry: the ids of the live cancellation
/// subscriptions, and the id the next subscription will get.
pub struct Inner {
    pub count: u64,
    pub senders: Vec<u64>,
}

/// The one-way shutdown latch together with its subscription registry.
pub struct Exit {
    pub exited: bool,
    pub inner: Inner,
}

/// What one trigger of the latch leaves, whatever state it was in: the latch
/// tripped and the registry drained.
pub open spec fn spec_exit(exited: bool, senders: Seq<u64>) -> (bool, Seq<u64>) {
    (true, Seq::empty())
}

/// The latch state after `n` triggers.
pub open spec fn spec_exit_n(exited: bool, senders: Seq<u64>, n: nat) -> (bool, Seq<u64>)
    decreases n,
{
    if n == 0 {
        (exited, senders)
    } else {
        let p = spec_exit_n(exited, senders, (n - 1) as nat);
        spec_exit(p.0, p.1)
    }
}

/// Triggering the latch any positive number of times leaves exactly the
/// state one trigger leaves: the latch is monotone and idempotent.
pub proof fn lemma_exit_idempotent(exited: bool, senders: Seq<u64>, n: nat)
    requires
        n >= 1,
    ensures
        spec_exit_n(exited, senders, n) == spec_exit_n(exited, senders, 1),
    decreases n,
{
    if n > 1 {
        lemma_exit_idempotent(exited, senders, (n - 1) as nat);
    }
}

impl Exit {
    /// Subscription ids are unique — strictly increasing, each below the
    /// counter — and a tripped latch holds no subscriptions: the first
    /// trigger drained them and no more can register.
    pub open spec fn wf(&self) -> bool {
        &&& forall|i: int, j: int|
            0 <= i < j < self.inner.senders@.len() ==> self.inner.senders@[i]
                < self.inner.senders@[j]
        &&& forall|i: int|
            0 <= i < self.inner.senders@.len() ==> self.inner.senders@[i] < self.inner.count
        &&& self.exited ==> self.inner.senders@.len() == 0
    }

    /// A fresh latch: not tripped, no subscriptions yet.
    pub fn new() -> (r: Self)
        ensures
            !r.exited,
            r.inner.count == 0,
            r.inner.senders@ == Seq::<u64>::empty(),
            r.wf(),
    {
        Exit { exited: false, inner: Inner { count: 0, senders: Vec::new() } }
    }

    /// Trips the latch and returns the subscriptions to notify. The first
    /// call flips the latch and drains every registered subscription; a later
    /// call finds the latch already flipped and does no further work, so any
    /// number of calls leaves the state of one.
    pub fn exit(&mut self) -> (notified: Vec<u64>)
        requires
            old(self).wf(),
        ensures
            final(self).wf(),
            final(self).inner.count == old(self).inner.count,
            (final(self).exited, final(self).inner.senders@) == spec_exit(
                old(self).exited,
                old(self).inner.senders@,
            ),
            old(self).exited ==> *final(self) == *old(self) && notified@.len() == 0,
            !old(self).exited ==> notified@ == old(self).inner.senders@,
    {
        if self.exited {
            return Vec::new();
        }
        self.exited = true;
        let mut notified: Vec<u64> = Vec::new();
        core::mem::swap(&mut notified, &mut self.inner.senders);
        notified
    }

    /// Admits a new subscription and returns its id, or refuses when the
    /// latch has already tripped — the caller then hands out a stream that
    /// completes at once instead of failing.
    pub fn from(&mut self) -> (r: Option<u64>)
        requires
            old(self).wf(),
            old(self).inner.count < u64::MAX,
        ensures
            final(self).wf(),
            final(self).exited == old(self).exited,
            old(self).exited ==> r is None && *final(self) == *old(self),
            !old(self).exited ==> {
                &&& r == Some(old(self).inner.count)
                &&& final(self).inner.count == old(self).inner.count + 1
                &&& final(self).inner.senders@ == old(self).inner.senders@.push(
                    old(self).inner.count,
                )
            },
    {
        if self.exited {
            return None;
        }
        let id = self.inner.count;
        self.inner.count = self.inner.count + 1;
        self.inner.senders.push(id);
        Some(id)
    }

    /// Releases a subscription: its owner unregisters it before the
    /// subscription's scope ends. The other subscriptions, the counter and
    /// the latch stay as they were.
    pub fn unregister(&mut self, id: u64)
        requires
            old(self).wf(),
        ensures
            final(self).wf(),
            final(self).exited == old(self).exited,
            final(self).inner.count == old(self).inner.count,
            final(self).inner.senders@ == old(self).inner.senders@.remove_value(id),
            forall|s: u64|
                final(self).inner.senders@.contains(s) <==> (old(self).inner.senders@.contains(s)
                    && s != id),
    {
        let ghost orig = self.inner.senders@;
        let mut i: usize = 0;
        while i < self.inner.senders.len()
            invariant
                old(self).wf(),
                orig == old(self).inner.senders@,
                self.inner.senders@ == orig,
                self.exited == old(self).exited,
                self.inner.count == old(self).inner.count,
                0 <= i <= orig.len(),
                forall|j: int| 0 <= j < i ==> orig[j] != id,
            decreases orig.len() - i,
        {
            if self.inner.senders[i] == id {
                self.inner.senders.remove(i);
                proof {
                    lemma_remove_found(orig, id, i as int, *old(self), *self);
                }
                return;
            }
            i = i + 1;
        }
        proof {
            assert(!orig.contains(id)) by {
                if orig.contains(id) {
                    let j = choose|j: int| 0 <= j < orig.len() && orig[j] == id;
                    assert(orig[j] != id);
                }
            }
            orig.index_of_first_ensures(id);
            assert(orig.remove_value(id) == orig);
        }
    }

    /// A repeatable timer bound to this latch, first due `duration` from
    /// `now`.
    pub fn interval(&self, now: u64, duration: u64) -> (r: Interval)
        requires
            now + duration <= u64::MAX,
        ensures
            r.next == now + duration,
            r.duration == duration,
    {
        Interval { next: now + duration, duration }
    }
}

impl Default for Exit {
    /// The same fresh latch `new` builds.
    fn default() -> (r: Self)
        ensures
            !r.exited,
            r.inner.count == 0,
            r.inner.senders@ == Seq::<u64>::empty(),
            r.wf(),
    {
        Exit::new()
    }
}

/// A repeatable timer for blocking callers: a monotonic deadline advanced by
/// a fixed period, stopped for good once the latch trips.
#[derive(Clone, Copy, Debug, PartialEq, Eq, Structural)]
pub struct Interval {
    pub next: u64,
    pub duration: u64,
}

/// What a blocked timer does next.
#[derive(Clone, Copy, Debug, PartialEq, Eq, Structural)]
pub enum IntervalStep {
    /// The latch tripped: report stopped, now and at every later poll.
    Stopped,
    /// The deadline passed: tick, and move the deadline one period on.
    Tick,
    /// Wait: block for the returned time, or until woken by the latch.
    Sleep(u64),
}

impl Interval {
    /// One polling decision, from the current monotonic time and the latch.
    /// Shutdown stops the timer whatever the clock says; otherwise it ticks
    /// exactly when the deadline has passed, and sleeps the remainder
    /// otherwise.
    pub fn next(&mut self, now: u64, exited: bool) -> (r: IntervalStep)
        requires
            now + old(self).duration <= u64::MAX,
        ensures
            exited ==> r == IntervalStep::Stopped && *final(self) == *old(self),
            !exited && now >= old(self).next ==> r == IntervalStep::Tick && final(self).next == now
                + old(self).duration && final(self).duration == old(self).duration,
            !exited && now < old(self).next ==> r == IntervalStep::Sleep(
                (old(self).next - now) as u64,
            ) && *final(self) == *old(self),
    {
        if exited {
            IntervalStep::Stopped
        } else if now >= self.next {
            self.next = now + self.duration;
            IntervalStep::Tick
        } else {
            IntervalStep::Sleep(self.next - now)
        }
    }
}

/// Removing the first occurrence of `id` from a strictly increasing registry
/// keeps it strictly increasing and drops exactly `id`.
proof fn lemma_remove_found(orig: Seq<u64>, id: u64, i: int, before: Exit, after: Exit)
    requires
        before.wf(),
        orig == before.inner.senders@,
        0 <= i < orig.len(),
        orig[i] == id,
        forall|j: int| 0 <= j < i ==> orig[j] != id,
        after.inner.senders@ == orig.remove(i),
        after.exited == before.exited,
        after.inner.count == before.inner.count,
    ensures
        after.wf(),
        after.inner.senders@ == orig.remove_value(id),
        forall|s: u64| after.inner.senders@.contains(s) <==> (orig.contains(s) && s != id),
{
    let rem = orig.remove(i);
    orig.remove_ensures(i);
    assert(orig.contains(id)) by {
        assert(orig[i] == id);
    }
    orig.index_of_first_ensures(id);
    match orig.index_of_first(id) {
        Some(index) => {
            assert(index == i) by {
                if index < i {
                    assert(orig[index] != id);
                } else if index > i {
                    assert(orig[i] != id);
                }
            }
            assert(orig.remove_value(id) == orig.remove(i));
        },
        None => {
            assert(false);
        },
    }
    assert forall|s: u64| rem.contains(s) implies (orig.contains(s) && s != id) by {
        let j = choose|j: int| 0 <= j < rem.len() && rem[j] == s;
        if j < i {
            assert(orig[j] == s);
        } else {
            assert(orig[j + 1] == s);
            assert(orig[i] < orig[j + 1]);
        }
    }
    assert forall|s: u64| orig.contains(s) && s != id implies rem.contains(s) by {
        let j = choose|j: int| 0 <= j < orig.len() && orig[j] == s;
        if j < i {
            assert(rem[j] == s);
        } else {
            assert(j != i);
            assert(rem[j - 1] == s);
        }
    }
}

} // verus!
