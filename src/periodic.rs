//! A recurring timer that can be stopped and restarted.
use vstd::prelude::*;

use crate::time::{Duration, Instant};

verus! {

/// A timer that fires once every period while it is started.
///
/// A started timer waits for `next`; when it fires, `next` moves one period on.
/// Deadlines that have already passed fire one after another, without waiting,
/// until the timer has caught up with the clock. A stopped timer never fires.
#[derive(Clone, Copy, Debug, PartialEq, Eq, Structural)]
pub enum PeriodicTimer {
    Started { period: Duration, next: Instant },
    Stopped,
}

impl PeriodicTimer {
    /// The state of a timer started with `period` at `now`.
    pub open spec fn spec_started(period: Duration, now: Instant) -> PeriodicTimer {
        PeriodicTimer::Started { period, next: now.spec_add(period) }
    }

    /// The instant the timer waits for, or `None` while it is stopped.
    pub open spec fn spec_deadline(self) -> Option<Instant> {
        match self {
            PeriodicTimer::Started { next, .. } => Some(next),
            PeriodicTimer::Stopped => None,
        }
    }

    /// Whether the timer fires when it is woken at `now`.
    pub open spec fn fires_at(self, now: Instant) -> bool {
        self matches PeriodicTimer::Started { next, .. } && next.nanos <= now.nanos
    }

    /// Whether the deadline after the one due at `now` still lies within the clock's range.
    pub open spec fn tick_fits(self, now: Instant) -> bool {
        self.fires_at(now) ==> self->next.can_add(self->period)
    }

    /// The state of the timer after it is woken at `now`.
    pub open spec fn after_tick(self, now: Instant) -> PeriodicTimer {
        if self.fires_at(now) {
            PeriodicTimer::Started { period: self->period, next: self->next.spec_add(self->period) }
        } else {
            self
        }
    }

    /// What waking the timer at `now` reports: the deadline that fired, if any.
    pub open spec fn tick_result(self, now: Instant) -> Option<Instant> {
        if self.fires_at(now) {
            Some(self->next)
        } else {
            None
        }
    }

    /// A timer that first fires one `period` after `now`, and every `period` after that.
    pub fn started(period: Duration, now: Instant) -> (t: PeriodicTimer)
        requires
            now.can_add(period),
        ensures
            t == PeriodicTimer::spec_started(period, now),
    {
        PeriodicTimer::Started { period, next: now.add(period) }
    }

    /// A timer that does not fire until it is started.
    pub fn stopped() -> (t: PeriodicTimer)
        ensures
            t == PeriodicTimer::Stopped,
    {
        PeriodicTimer::Stopped
    }

    /// Starts the timer with `period` at `now`, whatever its state; the phase starts over.
    pub fn start(&mut self, period: Duration, now: Instant)
        requires
            now.can_add(period),
        ensures
            *final(self) == PeriodicTimer::spec_started(period, now),
    {
        *self = PeriodicTimer::started(period, now);
    }

    /// Stops the timer, whatever its state.
    pub fn stop(&mut self)
        ensures
            *final(self) == PeriodicTimer::Stopped,
    {
        *self = PeriodicTimer::stopped();
    }

    /// The instant the timer waits for, or `None` when it waits forever.
    pub fn deadline(&self) -> (r: Option<Instant>)
        ensures
            r == self.spec_deadline(),
    {
        match self {
            PeriodicTimer::Started { next, .. } => Some(*next),
            PeriodicTimer::Stopped => None,
        }
    }

    /// Wakes the timer at `now`.
    ///
    /// A started timer whose deadline has come returns that deadline and moves it one
    /// period on. Otherwise the timer is left as it was and `None` is returned: a
    /// stopped timer never fires.
    pub fn tick(&mut self, now: Instant) -> (r: Option<Instant>)
        requires
            old(self).tick_fits(now),
        ensures
            r == old(self).tick_result(now),
            *final(self) == old(self).after_tick(now),
    {
        match *self {
            PeriodicTimer::Started { period, next } => {
                if next.nanos <= now.nanos {
                    *self = PeriodicTimer::Started { period, next: next.add(period) };
                    Some(next)
                } else {
                    None
                }
            },
            PeriodicTimer::Stopped => None,
        }
    }
}

impl PeriodicTimer {
    /// The state after the timer fires `k` times in a row, each time woken exactly at
    /// its deadline.
    pub open spec fn fired_times(self, k: nat) -> PeriodicTimer
        decreases k,
    {
        if k == 0 {
            self
        } else {
            let before = self.fired_times((k - 1) as nat);
            before.after_tick(before->next)
        }
    }

    /// The state after the timer is woken at each instant of `wakes` in turn.
    pub open spec fn run(self, wakes: Seq<Instant>) -> PeriodicTimer
        decreases wakes.len(),
    {
        if wakes.len() == 0 {
            self
        } else {
            self.after_tick(wakes[0]).run(wakes.skip(1))
        }
    }

    /// How many of the wakes in `wakes` make the timer fire.
    pub open spec fn fire_count(self, wakes: Seq<Instant>) -> nat
        decreases wakes.len(),
    {
        if wakes.len() == 0 {
            0
        } else {
            (if self.fires_at(wakes[0]) { 1nat } else { 0nat }) + self.after_tick(
                wakes[0],
            ).fire_count(wakes.skip(1))
        }
    }
}

/// A timer started with `period` at `start` keeps firing, one period apart, for as
/// long as it stays started: after `k` fires it waits for `start + (k + 1) * period`,
/// does not fire at any instant before that, and fires when woken there.
pub proof fn lemma_started_fires_every_period(period: Duration, start: Instant, k: nat)
    requires
        start.nanos + (k + 1) * period.nanos <= u128::MAX,
    ensures
        ({
            let due = Instant { nanos: (start.nanos + (k + 1) * period.nanos) as u128 };
            let t = PeriodicTimer::spec_started(period, start).fired_times(k);
            &&& t == PeriodicTimer::Started { period, next: due }
            &&& forall|w: Instant| w.nanos < due.nanos ==> !(#[trigger] t.fires_at(w))
            &&& t.fires_at(due)
            &&& t.tick_result(due) == Some(due)
        }),
    decreases k,
{
    let p = period.nanos as int;
    assert(p <= (k + 1) * p && (k + 1) * p == k * p + p) by (nonlinear_arith)
        requires
            p >= 0,
            k >= 0,
    ;
    if k > 0 {
        let j = (k - 1) as nat;
        assert((j + 1) * p + p == (k + 1) * p && (j + 1) * p <= (k + 1) * p) by (nonlinear_arith)
            requires
                j + 1 == k,
                p >= 0,
        ;
        lemma_started_fires_every_period(period, start, j);
    } else {
        assert((k + 1) * p == p) by (nonlinear_arith)
            requires
                k == 0,
        ;
    }
}

/// A stopped timer never fires, however often and whenever it is woken, and stays
/// stopped.
pub proof fn lemma_stopped_never_fires(wakes: Seq<Instant>)
    ensures
        PeriodicTimer::Stopped.run(wakes) == PeriodicTimer::Stopped,
        PeriodicTimer::Stopped.fire_count(wakes) == 0,
    decreases wakes.len(),
{
    if wakes.len() > 0 {
        lemma_stopped_never_fires(wakes.skip(1));
    }
}

/// A wake at which the timer does not fire (a wait that lost a race and was
/// abandoned) reports nothing and changes nothing: every later wake behaves as if
/// it had never happened.
pub proof fn lemma_lost_wake_changes_nothing(t: PeriodicTimer, lost: Instant, wakes: Seq<Instant>)
    requires
        !t.fires_at(lost),
    ensures
        t.tick_result(lost) == None::<Instant>,
        t.after_tick(lost) == t,
        t.after_tick(lost).run(wakes) == t.run(wakes),
        t.after_tick(lost).fire_count(wakes) == t.fire_count(wakes),
{
}

impl Default for PeriodicTimer {
    fn default() -> (t: PeriodicTimer)
        ensures
            t == PeriodicTimer::Stopped,
    {
        PeriodicTimer::Stopped
    }
}

} // verus!
