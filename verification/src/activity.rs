//! The activity availability broadcast: a process-wide single-slot,
//! possibly-absent shared activity reference, plus the waiters suspended on
//! it.
//!
//! The OS lifecycle publishes into the slot (a live reference on create,
//! nothing on destroy) and every publish wakes all current waiters. Waiting
//! is level-triggered: a caller that arrives while the slot is populated
//! resolves immediately, without a fresh notification, so no publish can be
//! lost; a caller that finds the slot empty subscribes and suspends until
//! the next publish.

use vstd::prelude::*;

verus! {

/// What one wait attempt produced: the published activity reference, or the
/// duty to suspend until the next publish.
#[derive(Clone, Copy, Debug, PartialEq, Eq, Structural)]
pub enum ActivityPoll {
    Ready(u64),
    Pending,
}

/// The mathematical face of the broadcast: the slot contents and the
/// identities of the waiters suspended on it.
pub struct BroadcastModel {
    pub slot: Option<u64>,
    pub waiters: Seq<u64>,
}

/// The broadcast primitive. Identities are opaque: activity references and
/// waiters are whatever identities the embedding assigns them.
pub struct ActivityBroadcast {
    pub slot: Option<u64>,
    pub waiters: Vec<u64>,
}

impl View for ActivityBroadcast {
    type V = BroadcastModel;

    open spec fn view(&self) -> BroadcastModel {
        BroadcastModel { slot: self.slot, waiters: self.waiters@ }
    }
}

/// The broadcast state after a publish: the slot replaced wholesale, every
/// waiter woken and removed.
pub open spec fn publish_state(m: BroadcastModel, value: Option<u64>) -> BroadcastModel {
    BroadcastModel { slot: value, waiters: Seq::empty() }
}

/// The waiters a publish wakes: all of them.
pub open spec fn publish_woken(m: BroadcastModel) -> Seq<u64> {
    m.waiters
}

/// The broadcast state after one wait attempt: unchanged when the slot is
/// populated, the caller subscribed when it is not.
pub open spec fn wait_state(m: BroadcastModel, waiter: u64) -> BroadcastModel {
    match m.slot {
        Some(_) => m,
        None => BroadcastModel { slot: m.slot, waiters: m.waiters.push(waiter) },
    }
}

/// What one wait attempt returns: the slot contents when populated,
/// otherwise the duty to suspend.
pub open spec fn wait_result(m: BroadcastModel, waiter: u64) -> ActivityPoll {
    match m.slot {
        Some(a) => ActivityPoll::Ready(a),
        None => ActivityPoll::Pending,
    }
}

impl ActivityBroadcast {
    /// Nobody stays suspended beside a populated slot: every publish of a
    /// value wakes all waiters, and a wait that sees the value never
    /// subscribes.
    pub open spec fn wf(self) -> bool {
        self@.slot is Some ==> self@.waiters.len() == 0
    }

    /// The broadcast before any lifecycle event: empty slot, no waiters.
    pub fn new() -> (b: ActivityBroadcast)
        ensures
            b.wf(),
            b@.slot is None,
            b@.waiters == Seq::<u64>::empty(),
    {
        ActivityBroadcast { slot: None, waiters: Vec::new() }
    }

    /// One lifecycle publish: replaces the slot wholesale (a live reference
    /// on activity create, `None` on destroy) and returns every waiter that
    /// was suspended at publish time; the embedding wakes each of them.
    pub fn publish(&mut self, value: Option<u64>) -> (woken: Vec<u64>)
        requires
            old(self).wf(),
        ensures
            final(self).wf(),
            final(self)@ == publish_state(old(self)@, value),
            woken@ == publish_woken(old(self)@),
    {
        self.slot = value;
        let mut woken: Vec<u64> = Vec::new();
        core::mem::swap(&mut woken, &mut self.waiters);
        woken
    }

    /// Withdraws a waiter that is being torn down: every subscription under
    /// its identity leaves the list, nothing else moves. No native resource
    /// can exist for it, since creation had not been attempted while it
    /// waited.
    pub fn cancel(&mut self, waiter: u64)
        requires
            old(self).wf(),
        ensures
            final(self).wf(),
            final(self)@.slot == old(self)@.slot,
            final(self)@.waiters == old(self)@.waiters.filter(|w: u64| w != waiter),
    {
        let ghost pred = |w: u64| w != waiter;
        let mut kept: Vec<u64> = Vec::new();
        let n = self.waiters.len();
        let mut i: usize = 0;
        while i < n
            invariant
                i <= n,
                n == self.waiters@.len(),
                self.waiters@ == old(self).waiters@,
                self.slot == old(self).slot,
                kept@ == self.waiters@.take(i as int).filter(pred),
                pred == (|w: u64| w != waiter),
            decreases n - i,
        {
            let w = self.waiters[i];
            proof {
                reveal(Seq::filter);
                assert(self.waiters@.take(i as int + 1).drop_last() =~= self.waiters@.take(
                    i as int,
                ));
                assert(self.waiters@.take(i as int + 1).last() == w);
            }
            if w != waiter {
                kept.push(w);
            }
            i += 1;
        }
        proof {
            assert(self.waiters@.take(n as int) =~= self.waiters@);
        }
        self.waiters = kept;
    }

    /// One wait attempt by `waiter`: resolves immediately with the slot
    /// contents while an activity is published — also for a caller that
    /// missed the publish itself — and otherwise subscribes the caller to
    /// the next publish and reports that it must suspend.
    pub fn await_activity(&mut self, waiter: u64) -> (r: ActivityPoll)
        requires
            old(self).wf(),
        ensures
            final(self).wf(),
            final(self)@ == wait_state(old(self)@, waiter),
            r == wait_result(old(self)@, waiter),
            r is Ready <==> old(self)@.slot is Some,
            r matches ActivityPoll::Ready(a) ==> old(self)@.slot == Some(a),
    {
        match self.slot {
            Some(a) => ActivityPoll::Ready(a),
            None => {
                self.waiters.push(waiter);
                ActivityPoll::Pending
            },
        }
    }
}

} // verus!
