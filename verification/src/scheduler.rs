//! The click scheduler: a two-state machine that, while running, spends a
//! sampled click quota over each one-second window.
//!
//! On every timer firing the scheduler emits one click, then computes the
//! delay until the next firing. Under the Gaussian rate model a window is
//! given a quota when it opens; once the quota is spent the next firing is
//! pushed to the window boundary, and before that the remaining clicks are
//! spread evenly over the remaining window time, each interval perturbed by
//! up to a quarter of its base length. Under the bounded-range model each
//! firing draws a rate and waits one full period of it.

use crate::profile::{Cps, Profile};
use crate::sampling;
use vstd::prelude::*;

verus! {

/// Length of one accounting window, in milliseconds.
pub const WINDOW_MS: u64 = 1000;

/// Shortest wait onto a window boundary, in milliseconds.
pub const BOUNDARY_FLOOR_MS: u64 = 10;

/// Shortest inter-click interval, in milliseconds.
pub const INTERVAL_FLOOR_MS: u64 = 1;

/// Whether the scheduler owns a live timer registration.
#[derive(Clone, Copy, Debug, PartialEq, Eq, Structural)]
pub enum SchedulerState {
    Stopped,
    Running,
}

/// The accounting of the window currently being spent: when it opened, how
/// many clicks it has emitted, and its sampled quota.
#[derive(Clone, Copy, Debug, PartialEq, Eq, Structural)]
pub struct Window {
    pub start_ms: u64,
    pub clicks_emitted: u32,
    pub window_target: u32,
}

/// What a timer firing asks the driver to do next.
#[derive(Clone, Copy, Debug, PartialEq, Eq, Structural)]
pub enum TimerNext {
    /// Re-arm the timer after this many milliseconds.
    Reschedule(u64),
    /// Let the timer registration die.
    Cancel,
}

/// Everything one timer firing decided: whether to emit a click, the
/// positional offset to emit beside it, and when to fire again.
pub struct FireAction {
    pub click: bool,
    pub motion: Option<(i32, i32)>,
    pub next: TimerNext,
}

/// The error a scheduler start reports instead of clicking: the profile's
/// rate specification cannot be sampled from.
#[derive(Clone, Copy, Debug, PartialEq, Eq, Structural)]
pub enum SchedulerError {
    InvalidRate,
}

/// The self-rescheduling click source. Its presence in `Running` state is
/// the activation state; there is no paused state, and a fresh start always
/// resets the window accounting.
#[derive(Clone, Copy, Debug, PartialEq, Eq)]
pub struct Scheduler {
    pub state: SchedulerState,
    pub window: Option<Window>,
}

/// The wait from `elapsed` milliseconds into a window onto its boundary,
/// floored at `BOUNDARY_FLOOR_MS`.
pub open spec fn boundary_wait(elapsed: int) -> int {
    if WINDOW_MS - elapsed < BOUNDARY_FLOOR_MS {
        BOUNDARY_FLOOR_MS as int
    } else {
        WINDOW_MS - elapsed
    }
}

/// The base inter-click interval `elapsed` milliseconds into a window with
/// `remaining` clicks still owed: the remaining window time split evenly.
pub open spec fn spread_base(elapsed: int, remaining: int) -> int
    recommends
        remaining >= 1,
{
    if elapsed >= WINDOW_MS {
        0
    } else {
        (WINDOW_MS - elapsed) / remaining
    }
}

/// The base interval perturbed by `jitter`, floored at `INTERVAL_FLOOR_MS`.
pub open spec fn spread_interval(elapsed: int, remaining: int, jitter: int) -> int
    recommends
        remaining >= 1,
{
    if spread_base(elapsed, remaining) + jitter < INTERVAL_FLOOR_MS {
        INTERVAL_FLOOR_MS as int
    } else {
        spread_base(elapsed, remaining) + jitter
    }
}

/// The inter-click period of a fixed clicking rate: one window duration
/// split into `rate` equal waits.
pub open spec fn rate_period(rate: u32) -> u64
    recommends
        rate >= 1,
{
    WINDOW_MS / rate as u64
}

/// The quota a fresh window receives from a Poisson count: the count clamped
/// to `u32` and floored at one click.
pub open spec fn quota_from_count(count: u64) -> u32 {
    if count == 0 {
        1u32
    } else if count > u32::MAX {
        u32::MAX
    } else {
        count as u32
    }
}

/// The click quota a fresh one-second window is given: the Poisson count
/// the caller drew at the window's average rate, clamped to `u32` and
/// floored at one click, so that a window never goes entirely without
/// clicks.
pub fn window_quota(count: u64) -> (r: u32)
    ensures
        r == quota_from_count(count),
        r >= 1,
{
    if count == 0 {
        1
    } else if count > u32::MAX as u64 {
        u32::MAX
    } else {
        count as u32
    }
}

/// The wait onto the window boundary, as executable code.
pub fn boundary_delay(elapsed: u64) -> (r: u64)
    ensures
        r == boundary_wait(elapsed as int),
{
    if elapsed >= WINDOW_MS {
        BOUNDARY_FLOOR_MS
    } else {
        let rest: u64 = WINDOW_MS - elapsed;
        if rest < BOUNDARY_FLOOR_MS {
            BOUNDARY_FLOOR_MS
        } else {
            rest
        }
    }
}

/// The base inter-click interval, as executable code.
pub fn base_interval(elapsed: u64, remaining: u32) -> (r: u64)
    requires
        remaining >= 1,
    ensures
        r == spread_base(elapsed as int, remaining as int),
        r <= WINDOW_MS,
{
    if elapsed >= WINDOW_MS {
        0
    } else {
        proof {
            assert((WINDOW_MS - elapsed) as int / (remaining as int) <= (WINDOW_MS - elapsed) as int)
                by (nonlinear_arith)
                requires
                    remaining >= 1,
                    elapsed < WINDOW_MS,
            ;
        }
        (WINDOW_MS - elapsed) / (remaining as u64)
    }
}

/// One inter-click delay: the remaining window time split over the clicks
/// still owed, shifted by the given perturbation, floored at one
/// millisecond.
pub fn click_delay(elapsed: u64, remaining: u32, jitter: i64) -> (r: u64)
    requires
        remaining >= 1,
        -(spread_base(elapsed as int, remaining as int) / 4) <= jitter
            <= spread_base(elapsed as int, remaining as int) / 4,
    ensures
        r == spread_interval(elapsed as int, remaining as int, jitter as int),
{
    let base: u64 = base_interval(elapsed, remaining);
    let shifted: i64 = base as i64 + jitter;
    if shifted < INTERVAL_FLOOR_MS as i64 {
        INTERVAL_FLOOR_MS
    } else {
        shifted as u64
    }
}

/// The window model the delay bound speaks of: a window that opened
/// `elapsed` milliseconds ago and has emitted `emitted` of its `target`
/// clicks runs to its end, every firing arriving exactly at its scheduled
/// delay and the k-th spread interval perturbed by `jitters[k]` (zero once
/// the perturbations run out). The result is the window's total elapsed
/// time when its last delay lands: the sum of all delays it scheduled.
pub open spec fn window_run_end(target: int, jitters: Seq<int>, elapsed: int, emitted: int) -> int
    decreases target - emitted,
{
    if elapsed >= WINDOW_MS || emitted >= target {
        elapsed
    } else if emitted + 1 == target {
        elapsed + boundary_wait(elapsed)
    } else {
        let j = if jitters.len() > 0 {
            jitters[0]
        } else {
            0
        };
        let rest = if jitters.len() > 0 {
            jitters.drop_first()
        } else {
            jitters
        };
        let d = spread_interval(elapsed, target - emitted - 1, j);
        window_run_end(target, rest, elapsed + d, emitted + 1)
    }
}

proof fn lemma_window_run_bounded(target: int, jitters: Seq<int>, elapsed: int, emitted: int)
    requires
        1 <= target,
        0 <= emitted,
        0 <= elapsed <= WINDOW_MS,
        forall|k: int| 0 <= k < jitters.len() ==> jitters[k] <= 0,
    ensures
        window_run_end(target, jitters, elapsed, emitted) <= WINDOW_MS + BOUNDARY_FLOOR_MS,
    decreases target - emitted,
{
    if elapsed >= WINDOW_MS || emitted >= target {
    } else if emitted + 1 == target {
        assert(elapsed + boundary_wait(elapsed) <= WINDOW_MS + BOUNDARY_FLOOR_MS);
    } else {
        let j = if jitters.len() > 0 {
            jitters[0]
        } else {
            0
        };
        assert(j <= 0);
        let rest = if jitters.len() > 0 {
            jitters.drop_first()
        } else {
            jitters
        };
        let rem = target - emitted - 1;
        let d = spread_interval(elapsed, rem, j);
        assert((WINDOW_MS - elapsed) / rem <= WINDOW_MS - elapsed) by (nonlinear_arith)
            requires
                rem >= 1,
                elapsed < WINDOW_MS,
        ;
        assert(1 <= d);
        assert(elapsed + d <= WINDOW_MS);
        assert forall|k: int| 0 <= k < rest.len() implies rest[k] <= 0 by {
            if jitters.len() > 0 {
                assert(rest[k] == jitters[k + 1]);
            }
        }
        lemma_window_run_bounded(target, rest, elapsed + d, emitted + 1);
    }
}

/// Law: the sum of the delays one window schedules never exceeds the window
/// duration by more than the final boundary floor, for every quota and
/// every run of non-positive timing perturbations. (A positive
/// perturbation can push the last spread interval past the boundary by up
/// to a quarter of the remaining window time, which is why the law asks
/// for non-positive ones.)
pub proof fn lemma_window_delays_bounded(target: int, jitters: Seq<int>)
    requires
        1 <= target,
        forall|k: int| 0 <= k < jitters.len() ==> jitters[k] <= 0,
    ensures
        window_run_end(target, jitters, 0, 0) <= WINDOW_MS + BOUNDARY_FLOOR_MS,
{
    lemma_window_run_bounded(target, jitters, 0, 0);
}

impl Scheduler {
    /// The window accounting is sound: a window never owes fewer clicks than
    /// it has emitted, and never has a quota below one click.
    pub open spec fn wf(self) -> bool {
        match self.window {
            Some(w) => w.window_target >= 1 && w.clicks_emitted <= w.window_target,
            None => true,
        }
    }

    pub open spec fn running(self) -> bool {
        self.state == SchedulerState::Running
    }

    /// Whether a firing at `now_ms` opens a fresh window.
    pub open spec fn rolls_window(self, now_ms: u64) -> bool {
        match self.window {
            None => true,
            Some(w) => now_ms - w.start_ms >= WINDOW_MS,
        }
    }

    /// A scheduler that has never run.
    pub fn new() -> (r: Scheduler)
        ensures
            r.state == SchedulerState::Stopped,
            r.window is None,
            r.wf(),
    {
        Scheduler { state: SchedulerState::Stopped, window: None }
    }

    /// Start clicking under the given profile. A profile whose rate
    /// specification is invalid is refused: the scheduler reports the error
    /// and stays exactly as it was. A successful start resets the window
    /// accounting, so the first firing always opens a fresh window.
    pub fn start(&mut self, profile: &Profile) -> (r: Result<(), SchedulerError>)
        ensures
            profile.cps.valid() ==> r is Ok && final(self).state == SchedulerState::Running
                && final(self).window is None,
            !profile.cps.valid() ==> r is Err && *final(self) == *old(self)
                && r == Result::<(), SchedulerError>::Err(SchedulerError::InvalidRate),
            old(self).wf() ==> final(self).wf(),
    {
        if profile.cps.is_valid() {
            self.state = SchedulerState::Running;
            self.window = None;
            Ok(())
        } else {
            Err(SchedulerError::InvalidRate)
        }
    }

    /// Stop clicking. Stopping an already stopped scheduler changes
    /// nothing: the call is idempotent. The window accounting is left in
    /// place; the next start discards it.
    pub fn stop(&mut self)
        ensures
            final(self).state == SchedulerState::Stopped,
            final(self).window == old(self).window,
            old(self).state == SchedulerState::Stopped ==> *final(self) == *old(self),
    {
        self.state = SchedulerState::Stopped;
    }

    /// One timer firing at `now_ms` under the given profile.
    ///
    /// Decides whether a click is emitted, draws the positional offset
    /// emitted beside it, updates the window accounting and computes the
    /// wait until the next firing. With no profile set the scheduler
    /// cancels itself; a firing that reaches a stopped scheduler is refused
    /// without a click. `gaussian_count` is the Poisson count the caller
    /// drew for the case that this firing opens a fresh window under the
    /// Gaussian rate model; it is ignored otherwise.
    pub fn on_fire(&mut self, profile: Option<&Profile>, now_ms: u64, gaussian_count: u64) -> (r:
        FireAction)
        requires
            old(self).wf(),
            old(self).window is Some ==> old(self).window->0.start_ms <= now_ms,
        ensures
            final(self).wf(),
            !old(self).running() ==> *final(self) == *old(self) && !r.click && r.motion is None
                && r.next == TimerNext::Cancel,
            old(self).running() && profile is None ==> final(self).state
                == SchedulerState::Stopped && final(self).window == old(self).window && !r.click
                && r.motion is None && r.next == TimerNext::Cancel,
            old(self).running() && profile is Some ==> {
                let p = *profile->0;
                &&& final(self).state == SchedulerState::Running
                &&& (r.click && p.jitter > 0 ==> r.motion is Some && {
                    let m = r.motion->0;
                    -(p.jitter as int) <= m.0 <= p.jitter as int && -(p.jitter as int) <= m.1
                        <= p.jitter as int
                })
                &&& (!(r.click && p.jitter > 0) ==> r.motion is None)
                &&& match p.cps {
                    Cps::Range { min, max } => {
                        &&& final(self).window == old(self).window
                        &&& r.click
                        &&& r.next is Reschedule
                        &&& (1 <= min <= max ==> exists|rate: u32|
                            min <= rate <= max && r.next == TimerNext::Reschedule(
                                #[trigger] rate_period(rate),
                            ))
                        &&& (1 <= min && min == max ==> r.next == TimerNext::Reschedule(
                            rate_period(min),
                        ))
                    },
                    Cps::Gaussian { target: _, std_dev: _ } => {
                        &&& final(self).window is Some
                        &&& {
                            let w = final(self).window->0;
                            &&& (old(self).rolls_window(now_ms) ==> w.start_ms == now_ms
                                && w.window_target == quota_from_count(gaussian_count)
                                && w.clicks_emitted == 1 && r.click)
                            &&& (!old(self).rolls_window(now_ms) ==> {
                                let ow = old(self).window->0;
                                &&& w.start_ms == ow.start_ms
                                &&& w.window_target == ow.window_target
                                &&& (ow.clicks_emitted < ow.window_target ==> w.clicks_emitted
                                    == ow.clicks_emitted + 1 && r.click)
                                &&& (ow.clicks_emitted == ow.window_target ==> w.clicks_emitted
                                    == ow.clicks_emitted && !r.click)
                            })
                            &&& (w.clicks_emitted == w.window_target ==> r.next
                                == TimerNext::Reschedule(
                                boundary_wait((now_ms - w.start_ms) as int) as u64,
                            ))
                            &&& (w.clicks_emitted < w.window_target ==> exists|j: int|
                                -(spread_base(
                                    (now_ms - w.start_ms) as int,
                                    w.window_target - w.clicks_emitted,
                                ) / 4) <= j <= spread_base(
                                    (now_ms - w.start_ms) as int,
                                    w.window_target - w.clicks_emitted,
                                ) / 4 && r.next == TimerNext::Reschedule(
                                    #[trigger] spread_interval(
                                        (now_ms - w.start_ms) as int,
                                        w.window_target - w.clicks_emitted,
                                        j,
                                    ) as u64,
                                ))
                        }
                    },
                }
            },
    {
        if !matches!(self.state, SchedulerState::Running) {
            return FireAction { click: false, motion: None, next: TimerNext::Cancel };
        }
        let p: &Profile = match profile {
            None => {
                self.state = SchedulerState::Stopped;
                return FireAction { click: false, motion: None, next: TimerNext::Cancel };
            },
            Some(p) => p,
        };
        match p.cps {
            Cps::Range { min, max } => {
                let lo: u32 = if min < 1 {
                    1
                } else {
                    min
                };
                let hi: u32 = if max < lo {
                    lo
                } else {
                    max
                };
                let rate: u32 = sampling::sample_range_rate(lo, hi);
                let delay: u64 = WINDOW_MS / (rate as u64);
                proof {
                    if 1 <= min <= max {
                        assert(min <= rate <= max);
                        assert(delay == rate_period(rate));
                    }
                }
                let motion: Option<(i32, i32)> = if p.jitter > 0 {
                    Some(sampling::sample_motion_offsets(p.jitter))
                } else {
                    None
                };
                FireAction { click: true, motion, next: TimerNext::Reschedule(delay) }
            },
            Cps::Gaussian { target: _, std_dev: _ } => {
                let roll: bool = match self.window {
                    None => true,
                    Some(w) => now_ms - w.start_ms >= WINDOW_MS,
                };
                if roll {
                    let quota: u32 = window_quota(gaussian_count);
                    self.window = Some(
                        Window { start_ms: now_ms, clicks_emitted: 0, window_target: quota },
                    );
                }
                let mut w: Window = self.window.unwrap();
                let click: bool = w.clicks_emitted < w.window_target;
                if click {
                    w.clicks_emitted = w.clicks_emitted + 1;
                }
                self.window = Some(w);
                let elapsed: u64 = now_ms - w.start_ms;
                let remaining: u32 = w.window_target - w.clicks_emitted;
                let next: TimerNext = if remaining == 0 {
                    TimerNext::Reschedule(boundary_delay(elapsed))
                } else {
                    let base: u64 = base_interval(elapsed, remaining);
                    let j: i64 = sampling::sample_interval_jitter(base);
                    let d: u64 = click_delay(elapsed, remaining, j);
                    TimerNext::Reschedule(d)
                };
                let motion: Option<(i32, i32)> = if click && p.jitter > 0 {
                    Some(sampling::sample_motion_offsets(p.jitter))
                } else {
                    None
                };
                FireAction { click, motion, next }
            },
        }
    }

    /// Whether the scheduler currently owns a live timer registration.
    pub fn is_running(&self) -> (r: bool)
        ensures
            r == self.running(),
    {
        matches!(self.state, SchedulerState::Running)
    }

    /// Whether the next firing at `now_ms` will open a fresh window and
    /// therefore consume fresh Gaussian sampling material.
    pub fn needs_fresh_quota(&self, now_ms: u64) -> (r: bool)
        requires
            self.window is Some ==> self.window->0.start_ms <= now_ms,
        ensures
            r == (self.running() && self.rolls_window(now_ms)),
    {
        if !matches!(self.state, SchedulerState::Running) {
            return false;
        }
        match self.window {
            None => true,
            Some(w) => now_ms - w.start_ms >= WINDOW_MS,
        }
    }
}

} // verus!
