use vstd::prelude::*;

use crate::entry::EntryView;

verus! {

/// What a periodic refresh loop does next.
#[derive(Clone, Copy, Debug, PartialEq, Eq, Structural)]
pub enum SchedulerAction {
    /// Sleep for this many time units, then ask again.
    Sleep(u64),
    /// Take the refresh token, compute, and report back with `record_attempt`.
    Refresh,
    /// The store was stopped: leave the loop.
    Exit,
}

pub struct SchedulerView {
    pub ttl: nat,
    pub next_due: nat,
}

/// `t + ttl`, held at the largest timestamp.
pub open spec fn due_after(t: nat, ttl: nat) -> nat {
    if t + ttl <= u64::MAX {
        t + ttl
    } else {
        u64::MAX as nat
    }
}

/// The decisions of the eager policy's background loop for one entry: sleep
/// `ttl` after each attempt, then recompute, whatever the outcome of the last attempt.
pub struct RefreshScheduler {
    ttl: u64,
    next_due: u64,
}

impl View for RefreshScheduler {
    type V = SchedulerView;

    closed spec fn view(&self) -> SchedulerView {
        SchedulerView { ttl: self.ttl as nat, next_due: self.next_due as nat }
    }
}

impl RefreshScheduler {
    /// A schedule whose first refresh is due `ttl` after the bootstrap at `computed_at`.
    pub fn new(ttl: u64, computed_at: u64) -> (r: Self)
        ensures
            r@ == (SchedulerView { ttl: ttl as nat, next_due: due_after(computed_at as nat, ttl as nat) }),
    {
        RefreshScheduler { ttl, next_due: computed_at.saturating_add(ttl) }
    }

    /// The time the next refresh is due.
    pub fn next_due(&self) -> (r: u64)
        ensures
            r == self@.next_due,
    {
        self.next_due
    }

    /// What the loop does at `now`, given whether the store still runs.
    pub fn poll(&self, now: u64, running: bool) -> (r: SchedulerAction)
        ensures
            !running ==> r == SchedulerAction::Exit,
            running && now < self@.next_due ==> r == SchedulerAction::Sleep(
                (self@.next_due - now) as u64,
            ),
            running && now >= self@.next_due ==> r == SchedulerAction::Refresh,
    {
        if !running {
            SchedulerAction::Exit
        } else if now < self.next_due {
            SchedulerAction::Sleep(self.next_due - now)
        } else {
            SchedulerAction::Refresh
        }
    }

    /// A refresh attempt ended at `now`, successful or not: the next one is due `ttl` later.
    pub fn record_attempt(&mut self, now: u64)
        ensures
            final(self)@ == (SchedulerView {
                ttl: old(self)@.ttl,
                next_due: due_after(now as nat, old(self)@.ttl),
            }),
    {
        self.next_due = now.saturating_add(self.ttl);
    }
}

/// The schedule is in step with the entry: the next refresh is due `ttl`
/// after the entry's value was computed, as after the bootstrap and after
/// every successful refresh.
pub open spec fn in_step<V>(s: SchedulerView, e: EntryView<V>) -> bool {
    s.next_due == e.computed_at + s.ttl && s.ttl == e.ttl
}

/// Staleness bound of the eager policy. While every scheduled computation
/// succeeds and takes at most `worst` time units, and the loop starts each
/// refresh when it is due, a read at any time `t` up to the end of the
/// running refresh sees a value computed at or after `t - (ttl + worst)`;
/// and the successful refresh, ending at `done`, puts the schedule back in
/// step with the entry, so that the bound holds again for the next round.
pub proof fn lemma_eager_staleness<V>(
    s: SchedulerView,
    e: EntryView<V>,
    started: nat,
    worst: nat,
    t: int,
    v: V,
    done: nat,
)
    requires
        in_step(s, e),
        started <= s.next_due,
        t <= started + worst,
        started <= done <= started + worst,
        done + s.ttl <= u64::MAX,
    ensures
        e.computed_at >= t - (s.ttl + worst),
        in_step(
            SchedulerView { ttl: s.ttl, next_due: due_after(done, s.ttl) },
            e.completed(v, done),
        ),
{
}

} // verus!
