use async_timers::{Duration, Instant, OneshotTimer, PeriodicTimer};

/// A timer taking part in a simulated two-way wait.
enum Branch<'a> {
    Periodic(&'a mut PeriodicTimer),
    Oneshot(&'a mut OneshotTimer),
}

impl Branch<'_> {
    fn deadline(&self) -> Option<Instant> {
        match self {
            Branch::Periodic(t) => t.deadline(),
            Branch::Oneshot(t) => t.deadline(),
        }
    }

    fn tick(&mut self, now: Instant) -> bool {
        match self {
            Branch::Periodic(t) => t.tick(now).is_some(),
            Branch::Oneshot(t) => t.tick(now),
        }
    }
}

/// Waits for whichever of two timers fires first, as a select over their ticks
/// does: the clock moves to the earliest deadline, the first branch that fires
/// there wins, and the other wait is abandoned. Returns whether the first branch
/// won, and moves `now` to the instant of the win.
fn race(now: &mut Instant, mut a: Branch, mut b: Branch) -> bool {
    let wake = match (a.deadline(), b.deadline()) {
        (Some(x), Some(y)) => if x.nanos <= y.nanos { x } else { y },
        (Some(x), None) => x,
        (None, Some(y)) => y,
        (None, None) => panic!("neither branch can ever fire"),
    };
    assert!(wake.nanos >= now.nanos);
    *now = wake;
    if a.tick(wake) {
        return true;
    }
    assert!(b.tick(wake));
    false
}

/// Waits on one timer for at most `limit`; returns whether it fired in time.
fn wait_at_most(now: &mut Instant, mut a: Branch, limit: Duration) -> bool {
    let give_up = now.add(limit);
    match a.deadline() {
        Some(d) if d.nanos <= give_up.nanos => {
            let wake = if d.nanos < now.nanos { *now } else { d };
            *now = wake;
            assert!(a.tick(wake));
            true
        }
        _ => {
            assert!(!a.tick(give_up));
            *now = give_up;
            false
        }
    }
}

fn at_secs(s: u64) -> Instant {
    Instant::from_nanos(Duration::from_secs(s).as_nanos())
}

fn at_millis(ms: u64) -> Instant {
    Instant::from_nanos(Duration::from_millis(ms).as_nanos())
}

#[test]
fn test_periodic_timer() {
    let mut now = at_secs(0);
    let mut timer1 = PeriodicTimer::stopped();
    let mut timer2 = PeriodicTimer::started(Duration::from_secs(2), now);

    let timer1_expired = race(&mut now, Branch::Periodic(&mut timer1), Branch::Periodic(&mut timer2));
    let timer2_expired = !timer1_expired;
    assert!(!timer1_expired, "timer1 should not have expired");
    assert!(timer2_expired, "timer1 should have expired");

    timer1.start(Duration::from_secs(1), now);
    timer2.stop();

    let timer1_expired = race(&mut now, Branch::Periodic(&mut timer1), Branch::Periodic(&mut timer2));
    let timer2_expired = !timer1_expired;
    assert!(timer1_expired, "timer1 should have expired");
    assert!(!timer2_expired, "timer2 should not have expired");
    assert_eq!(now, at_secs(3));
}

#[test]
fn test_oneshot_timer() {
    let mut now = at_secs(0);
    let mut timer1 = OneshotTimer::expired();
    let mut timer2 = OneshotTimer::scheduled(Duration::from_secs(2), now);

    let timer1_expired = race(&mut now, Branch::Oneshot(&mut timer1), Branch::Oneshot(&mut timer2));
    let timer2_expired = !timer1_expired;
    assert!(!timer1_expired, "timer1 should not have expired");
    assert!(timer2_expired, "timer1 should have expired");

    timer1.schedule(Duration::from_secs(1), now);

    let timer1_expired = race(&mut now, Branch::Oneshot(&mut timer1), Branch::Oneshot(&mut timer2));
    let timer2_expired = !timer1_expired;
    assert!(timer1_expired, "timer1 should have expired");
    assert!(!timer2_expired, "timer2 should not have expired");

    timer1.schedule(Duration::from_secs(1), now);
    timer2.schedule(Duration::from_secs(2), now);

    timer1.cancel();

    let timer1_expired = race(&mut now, Branch::Oneshot(&mut timer1), Branch::Oneshot(&mut timer2));
    let timer2_expired = !timer1_expired;
    assert!(!timer1_expired, "timer1 should not have expired");
    assert!(timer2_expired, "timer2 should have expired");
    assert_eq!(now, at_secs(5));
}

#[test]
fn test_oneshot_state() {
    let mut now = at_secs(0);
    let mut timer1 = OneshotTimer::scheduled(Duration::from_secs(1), now);
    let result = wait_at_most(&mut now, Branch::Oneshot(&mut timer1), Duration::from_millis(1500));
    assert!(result, "Should not timeout");

    let mut timer1 = OneshotTimer::scheduled(Duration::from_secs(5), now);
    let mut timer2 = OneshotTimer::scheduled(Duration::from_secs(2), now);

    race(&mut now, Branch::Oneshot(&mut timer1), Branch::Oneshot(&mut timer2));

    match timer1 {
        OneshotTimer::Scheduled(_) => {}
        OneshotTimer::Expired => assert!(false, "Should be in scheduled state"),
    }

    let result = wait_at_most(&mut now, Branch::Oneshot(&mut timer1), Duration::from_millis(3500));
    assert!(result, "Should not timeout");

    match timer1 {
        OneshotTimer::Scheduled(_) => assert!(false, "Timer should be in expired state"),
        OneshotTimer::Expired => {}
    }
}

#[test]
fn test_my_task() {
    let start = at_secs(0);
    let mut now = start;
    let mut period = PeriodicTimer::started(Duration::from_secs(1), now);
    let mut sleep = OneshotTimer::scheduled(Duration::from_secs(3), now);
    let mut work_done: u32 = 0;
    let mut sleeps: u32 = 0;

    for _ in 0..3 {
        if race(&mut now, Branch::Periodic(&mut period), Branch::Oneshot(&mut sleep)) {
            println!("here");
            work_done += 1;
            period.stop();
        } else {
            println!("sleep");
            sleeps += 1;
            period.start(Duration::from_secs(1), now);
        }
    }

    let result = now.saturating_duration_since(start).as_nanos() <= Duration::from_secs(10).as_nanos();
    assert!(result, "Should not timeout");
    assert_eq!((work_done, sleeps), (2, 1));
    assert_eq!(now, at_secs(4));
}
