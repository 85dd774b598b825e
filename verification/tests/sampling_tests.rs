use rand::Rng;
use rand_distr::Distribution;
use wl_clicker::profile::{Cps, Profile};
use wl_clicker::sampling::{
    accept_window_rate, sample_interval_jitter, sample_motion_offsets, sample_range_rate,
    MAX_NORMAL_DRAWS,
};
use wl_clicker::scheduler::{window_quota, Scheduler, TimerNext};

#[test]
fn accepted_rate_takes_first_positive_draw() {
    assert_eq!(accept_window_rate(&vec![7, 3, 9]), 7);
    assert_eq!(accept_window_rate(&vec![0, -2, 9]), 9);
    assert_eq!(accept_window_rate(&vec![0, 0, 0]), 1);
    assert_eq!(accept_window_rate(&vec![]), 1);
    assert_eq!(accept_window_rate(&vec![-5, i64::MAX]), u32::MAX);
}

#[test]
fn range_rate_stays_within_bounds() {
    for _ in 0..500 {
        let r = sample_range_rate(3, 9);
        assert!((3..=9).contains(&r));
    }
    assert_eq!(sample_range_rate(6, 6), 6);
}

#[test]
fn interval_jitter_stays_within_a_quarter() {
    for _ in 0..500 {
        let j = sample_interval_jitter(200);
        assert!((-50..=50).contains(&j));
    }
    assert_eq!(sample_interval_jitter(0), 0);
    assert_eq!(sample_interval_jitter(3), 0);
}

#[test]
fn motion_offsets_stay_within_radius() {
    for _ in 0..500 {
        let (dx, dy) = sample_motion_offsets(5);
        assert!((-5..=5).contains(&dx));
        assert!((-5..=5).contains(&dy));
    }
    assert_eq!(sample_motion_offsets(0), (0, 0));
}

#[test]
fn uniform_draws_are_not_pinned_to_an_endpoint() {
    // A sampler that handed one of its arguments back unchanged would fail
    // this: over many draws from a wide range both halves must occur.
    let mut low = 0u32;
    let mut high = 0u32;
    for _ in 0..400 {
        let r = sample_range_rate(1, 100);
        if r <= 50 {
            low += 1;
        } else {
            high += 1;
        }
    }
    assert!(low > 0 && high > 0);
}

/// The two-stage Gaussian window sampling, driven exactly as the daemon
/// drives it: rounded Normal draws, the library's rejection scan, a Poisson
/// count at the accepted rate, the library's quota floor.
fn simulated_window_target(
    rng: &mut impl Rng,
    normal: &rand_distr::Normal<f64>,
) -> u32 {
    let mut draws: Vec<i64> = Vec::with_capacity(MAX_NORMAL_DRAWS);
    for _ in 0..MAX_NORMAL_DRAWS {
        draws.push(normal.sample(rng).round() as i64);
    }
    let rate = accept_window_rate(&draws);
    let poisson = rand_distr::Poisson::new(rate as f64).unwrap();
    let count = poisson.sample(rng) as u64;
    window_quota(count)
}

#[test]
fn gaussian_window_target_mean_converges_to_target() {
    // Over many simulated windows with a fixed {target, std_dev} the
    // empirical mean of the window target approaches the target.
    let mut rng = rand::rng();
    let normal = rand_distr::Normal::new(10.0f64, 2.0).unwrap();
    let n: u64 = 2000;
    let mut sum: u64 = 0;
    for _ in 0..n {
        sum += simulated_window_target(&mut rng, &normal) as u64;
    }
    assert!(sum >= 9 * n, "mean fell below 9 cps: {sum}");
    assert!(sum <= 11 * n, "mean rose above 11 cps: {sum}");
}

#[test]
fn gaussian_window_target_is_at_least_one() {
    // Even a barely positive target never yields an empty window.
    let mut rng = rand::rng();
    let normal = rand_distr::Normal::new(1.0f64, 1.0).unwrap();
    for _ in 0..500 {
        assert!(simulated_window_target(&mut rng, &normal) >= 1);
    }
}

#[test]
fn window_quota_reaches_the_scheduler_unchanged() {
    // The quota handed to on_fire is installed as the fresh window's
    // target: a count pinned here must be visible there.
    let p = Profile::new(
        String::from("gauss"),
        vec![30],
        30,
        Cps::Gaussian {
            target: 10,
            std_dev: 2,
        },
    );
    let mut s = Scheduler::new();
    s.start(&p).unwrap();
    let act = s.on_fire(Some(&p), 0, 42);
    assert_eq!(s.window.unwrap().window_target, 42);
    assert!(act.click);
    match act.next {
        TimerNext::Reschedule(d) => assert!(d >= 1),
        TimerNext::Cancel => panic!("a live firing must reschedule"),
    }
}
