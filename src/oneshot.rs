//! A single-fire timer that can be cancelled and rescheduled.
use vstd::prelude::*;

use crate::time::{Duration, Instant};

verus! {

/// A timer that fires once, at its deadline, and then rests until it is scheduled again.
///
/// Firing is what turns `Scheduled` into `Expired`: a deadline that has passed
/// without the timer being woken leaves it `Scheduled`.
#[derive(Clone, Copy, Debug, PartialEq, Eq, Structural)]
pub enum OneshotTimer {
    Scheduled(Instant),
    Expired,
}

impl OneshotTimer {
    /// The state of a timer scheduled at `now` to fire after `duration`.
    pub open spec fn spec_scheduled(duration: Duration, now: Instant) -> OneshotTimer {
        OneshotTimer::Scheduled(now.spec_add(duration))
    }

    /// The instant the timer waits for, or `None` once it has expired.
    pub open spec fn spec_deadline(self) -> Option<Instant> {
        match self {
            OneshotTimer::Scheduled(at) => Some(at),
            OneshotTimer::Expired => None,
        }
    }

    /// Whether the timer fires when it is woken at `now`.
    pub open spec fn fires_at(self, now: Instant) -> bool {
        self matches OneshotTimer::Scheduled(at) && at.nanos <= now.nanos
    }

    /// The state of the timer after it is woken at `now`.
    pub open spec fn after_tick(self, now: Instant) -> OneshotTimer {
        if self.fires_at(now) {
            OneshotTimer::Expired
        } else {
            self
        }
    }

    /// A timer that fires once, `duration` after `now`.
    pub fn scheduled(duration: Duration, now: Instant) -> (t: OneshotTimer)
        requires
            now.can_add(duration),
        ensures
            t == OneshotTimer::spec_scheduled(duration, now),
    {
        OneshotTimer::Scheduled(now.add(duration))
    }

    /// A timer that does not fire until it is scheduled.
    pub fn expired() -> (t: OneshotTimer)
        ensures
            t == OneshotTimer::Expired,
    {
        OneshotTimer::Expired
    }

    /// Schedules the timer to fire `duration` after `now`, replacing any pending deadline.
    pub fn schedule(&mut self, duration: Duration, now: Instant)
        requires
            now.can_add(duration),
        ensures
            *final(self) == OneshotTimer::spec_scheduled(duration, now),
    {
        *self = OneshotTimer::scheduled(duration, now);
    }

    /// Cancels the timer, whatever its state.
    pub fn cancel(&mut self)
        ensures
            *final(self) == OneshotTimer::Expired,
    {
        *self = OneshotTimer::expired();
    }

    /// The instant the timer waits for, or `None` when it waits forever.
    pub fn deadline(&self) -> (r: Option<Instant>)
        ensures
            r == self.spec_deadline(),
    {
        match self {
            OneshotTimer::Scheduled(at) => Some(*at),
            OneshotTimer::Expired => None,
        }
    }

    /// Wakes the timer at `now`.
    ///
    /// A scheduled timer whose deadline has come fires: it becomes `Expired` and
    /// `true` is returned. Otherwise the timer is left as it was and `false` is
    /// returned: an expired timer never fires.
    pub fn tick(&mut self, now: Instant) -> (fired: bool)
        ensures
            fired == old(self).fires_at(now),
            *final(self) == old(self).after_tick(now),
    {
        match *self {
            OneshotTimer::Scheduled(at) => {
                if at.nanos <= now.nanos {
                    *self = OneshotTimer::Expired;
                    true
                } else {
                    false
                }
            },
            OneshotTimer::Expired => false,
        }
    }
}

impl OneshotTimer {
    /// The state after the timer is woken at each instant of `wakes` in turn.
    pub open spec fn run(self, wakes: Seq<Instant>) -> OneshotTimer
        decreases wakes.len(),
    {
        if wakes.len() == 0 {
            self
        } else {
            self.after_tick(wakes[0]).run(wakes.skip(1))
        }
    }

    /// How many of the wakes in `wakes` make the timer fire.
    pub open spec fn fire_count(self, wakes: Seq<Instant>) -> nat
        decreases wakes.len(),
    {
        if wakes.len() == 0 {
            0
        } else {
            (if self.fires_at(wakes[0]) { 1nat } else { 0nat }) + self.after_tick(
                wakes[0],
            ).fire_count(wakes.skip(1))
        }
    }
}

/// An expired timer, whether it fired or was cancelled, never fires again until it
/// is scheduled, however often and whenever it is woken, and stays expired.
pub proof fn lemma_expired_never_fires(wakes: Seq<Instant>)
    ensures
        OneshotTimer::Expired.run(wakes) == OneshotTimer::Expired,
        OneshotTimer::Expired.fire_count(wakes) == 0,
    decreases wakes.len(),
{
    if wakes.len() > 0 {
        lemma_expired_never_fires(wakes.skip(1));
    }
}

/// Whatever the wakes, a timer fires at most once; a scheduled timer fires exactly
/// once as soon as it is woken at or after its deadline, and is expired from then on.
pub proof fn lemma_fires_exactly_once(t: OneshotTimer, wakes: Seq<Instant>)
    ensures
        t.fire_count(wakes) <= 1,
        (t matches OneshotTimer::Scheduled(at) && exists|i: int|
            0 <= i < wakes.len() && at.nanos <= (#[trigger] wakes[i]).nanos) ==> t.fire_count(
            wakes,
        ) == 1 && t.run(wakes) == OneshotTimer::Expired,
    decreases wakes.len(),
{
    if wakes.len() > 0 {
        let rest = wakes.skip(1);
        if t.fires_at(wakes[0]) {
            lemma_expired_never_fires(rest);
        } else {
            lemma_fires_exactly_once(t, rest);
            if let OneshotTimer::Scheduled(at) = t {
                if exists|i: int| 0 <= i < wakes.len() && at.nanos <= (#[trigger] wakes[i]).nanos {
                    let i = choose|i: int|
                        0 <= i < wakes.len() && at.nanos <= (#[trigger] wakes[i]).nanos;
                    assert(i > 0);
                    assert(rest[i - 1] == wakes[i]);
                }
            }
        }
    }
}

/// Scheduling measures from the moment of the call: whatever the timer was doing
/// before, and however long ago it was first scheduled, after `schedule(duration)` at
/// `now` it fires when woken at `wake` exactly when `wake` is `duration` or more
/// after `now`.
pub proof fn lemma_schedule_measures_from_call(duration: Duration, now: Instant, wake: Instant)
    requires
        now.can_add(duration),
    ensures
        OneshotTimer::spec_scheduled(duration, now).spec_deadline() == Some(
            now.spec_add(duration),
        ),
        OneshotTimer::spec_scheduled(duration, now).fires_at(wake) <==> wake.nanos >= now.nanos
            + duration.nanos,
{
}

impl Default for OneshotTimer {
    fn default() -> (t: OneshotTimer)
        ensures
            t == OneshotTimer::Expired,
    {
        OneshotTimer::Expired
    }
}

} // verus!
