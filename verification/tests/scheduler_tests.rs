use wl_clicker::profile::{Cps, Profile};
use wl_clicker::scheduler::{
    base_interval, boundary_delay, click_delay, window_quota, Scheduler, SchedulerError,
    SchedulerState, TimerNext,
};

fn gaussian_profile(target: u32, std_dev: u32) -> Profile {
    Profile::new(
        String::from("gauss"),
        vec![30],
        30,
        Cps::Gaussian { target, std_dev },
    )
}

fn range_profile(min: u32, max: u32) -> Profile {
    Profile::new(String::from("range"), vec![30], 30, Cps::Range { min, max })
}

#[test]
fn stop_on_stopped_scheduler_is_a_no_op() {
    let mut s = Scheduler::new();
    assert_eq!(s.state, SchedulerState::Stopped);
    let before = s;
    s.stop();
    assert_eq!(s, before);
    s.stop();
    assert_eq!(s, before);
}

#[test]
fn stop_after_start_stops_and_second_stop_changes_nothing() {
    let mut s = Scheduler::new();
    s.start(&range_profile(5, 5)).unwrap();
    assert!(s.is_running());
    s.stop();
    assert!(!s.is_running());
    let stopped = s;
    s.stop();
    assert_eq!(s, stopped);
}

#[test]
fn start_refuses_invalid_gaussian_rate() {
    let mut s = Scheduler::new();
    let r = s.start(&gaussian_profile(0, 0));
    assert_eq!(r, Err(SchedulerError::InvalidRate));
    assert!(!s.is_running());
}

#[test]
fn start_refuses_empty_range() {
    let mut s = Scheduler::new();
    let r = s.start(&range_profile(7, 3));
    assert_eq!(r, Err(SchedulerError::InvalidRate));
    let r = s.start(&range_profile(0, 4));
    assert_eq!(r, Err(SchedulerError::InvalidRate));
    assert!(!s.is_running());
}

#[test]
fn degenerate_range_gives_exact_period() {
    // Profile {cps: {min: 5, max: 5}}: every inter-click delay is exactly
    // 1000 / 5 = 200 milliseconds.
    let p = range_profile(5, 5);
    let mut s = Scheduler::new();
    s.start(&p).unwrap();
    for now in [0u64, 200, 400, 5000] {
        let act = s.on_fire(Some(&p), now, 0);
        assert!(act.click);
        assert_eq!(act.next, TimerNext::Reschedule(200));
    }
}

#[test]
fn range_delay_is_a_full_period_of_a_rate_within_bounds() {
    let p = range_profile(4, 10);
    let mut s = Scheduler::new();
    s.start(&p).unwrap();
    for _ in 0..200 {
        let act = s.on_fire(Some(&p), 0, 0);
        match act.next {
            TimerNext::Reschedule(d) => {
                assert!(d >= 100, "delay {d} under the fastest period");
                assert!(d <= 250, "delay {d} over the slowest period");
                assert_eq!(1000 / (1000 / d), d, "delay {d} is no whole period");
            }
            TimerNext::Cancel => panic!("a live firing must reschedule"),
        }
    }
}

#[test]
fn gaussian_first_firing_opens_window_with_given_count() {
    let p = gaussian_profile(10, 2);
    let mut s = Scheduler::new();
    s.start(&p).unwrap();
    assert!(s.needs_fresh_quota(123));
    let act = s.on_fire(Some(&p), 1000, 7);
    assert!(act.click);
    let w = s.window.expect("a window must be open");
    assert_eq!(w.start_ms, 1000);
    assert_eq!(w.window_target, 7);
    assert_eq!(w.clicks_emitted, 1);
    assert!(!s.needs_fresh_quota(1500));
    assert!(s.needs_fresh_quota(2000));
}

#[test]
fn gaussian_quota_met_waits_for_window_boundary() {
    let p = gaussian_profile(10, 2);
    let mut s = Scheduler::new();
    s.start(&p).unwrap();
    // A one-click quota: the first firing spends it and the next firing is
    // delayed onto the window boundary.
    let act = s.on_fire(Some(&p), 0, 1);
    assert!(act.click);
    assert_eq!(act.next, TimerNext::Reschedule(1000));
    // Near the boundary the wait is floored at 10 ms.
    let mut s2 = Scheduler::new();
    s2.start(&p).unwrap();
    s2.on_fire(Some(&p), 0, 2);
    let act = s2.on_fire(Some(&p), 995, 99);
    assert!(act.click);
    assert_eq!(act.next, TimerNext::Reschedule(10));
}

#[test]
fn gaussian_window_spends_its_quota_and_rolls() {
    let p = gaussian_profile(10, 2);
    let mut s = Scheduler::new();
    s.start(&p).unwrap();
    let mut now: u64 = 0;
    let mut clicks: u32 = 0;
    // Drive the timer as the event loop would: each firing lands exactly
    // at its scheduled delay. Count the clicks of the first window.
    loop {
        let act = s.on_fire(Some(&p), now, 5);
        let w = s.window.unwrap();
        if w.start_ms > 0 {
            break; // a fresh window has begun
        }
        if act.click {
            clicks += 1;
        }
        assert!(w.window_target == 5);
        assert!(w.clicks_emitted <= w.window_target);
        match act.next {
            TimerNext::Reschedule(d) => {
                assert!(d >= 1);
                now += d;
            }
            TimerNext::Cancel => panic!("a live firing must reschedule"),
        }
    }
    assert!(clicks >= 1 && clicks <= 5, "clicks {clicks} out of quota");
    assert!(now >= 1000, "the window must only roll at its boundary");
    assert!(now <= 1260, "the window overran its duration: {now}");
}

#[test]
fn firing_without_profile_cancels() {
    let p = gaussian_profile(10, 2);
    let mut s = Scheduler::new();
    s.start(&p).unwrap();
    let act = s.on_fire(None, 0, 3);
    assert!(!act.click);
    assert!(act.motion.is_none());
    assert_eq!(act.next, TimerNext::Cancel);
    assert!(!s.is_running());
}

#[test]
fn firing_on_stopped_scheduler_is_refused() {
    let p = gaussian_profile(10, 2);
    let mut s = Scheduler::new();
    let act = s.on_fire(Some(&p), 0, 3);
    assert!(!act.click);
    assert_eq!(act.next, TimerNext::Cancel);
}

#[test]
fn motion_jitter_is_emitted_within_bounds() {
    let base = range_profile(5, 5);
    let p = Profile { jitter: 3, ..base };
    let mut s = Scheduler::new();
    s.start(&p).unwrap();
    let mut seen_nonzero = false;
    for _ in 0..300 {
        let act = s.on_fire(Some(&p), 0, 0);
        let (dx, dy) = act.motion.expect("jitter asks for motion");
        assert!((-3..=3).contains(&dx));
        assert!((-3..=3).contains(&dy));
        if dx != 0 || dy != 0 {
            seen_nonzero = true;
        }
    }
    assert!(seen_nonzero, "uniform draws over -3..=3 cannot all be zero");
}

#[test]
fn no_jitter_no_motion() {
    let p = range_profile(5, 5);
    let mut s = Scheduler::new();
    s.start(&p).unwrap();
    let act = s.on_fire(Some(&p), 0, 0);
    assert!(act.motion.is_none());
}

#[test]
fn window_quota_floors_and_clamps() {
    assert_eq!(window_quota(0), 1);
    assert_eq!(window_quota(1), 1);
    assert_eq!(window_quota(17), 17);
    assert_eq!(window_quota(u32::MAX as u64), u32::MAX);
    assert_eq!(window_quota(u64::MAX), u32::MAX);
}

#[test]
fn delay_formulas_match_the_model() {
    assert_eq!(boundary_delay(0), 1000);
    assert_eq!(boundary_delay(400), 600);
    assert_eq!(boundary_delay(991), 10);
    assert_eq!(boundary_delay(2000), 10);
    assert_eq!(base_interval(0, 4), 250);
    assert_eq!(base_interval(600, 4), 100);
    assert_eq!(base_interval(1200, 4), 0);
    assert_eq!(click_delay(0, 4, 0), 250);
    assert_eq!(click_delay(0, 4, -62), 188);
    assert_eq!(click_delay(0, 4, 62), 312);
    // The floor: a perturbation that cancels the whole base interval still
    // leaves one millisecond.
    assert_eq!(click_delay(999, 1, 0), 1);
}
