//! The random material the scheduler consumes.
//!
//! Uniform integer draws are taken here, behind one narrow trusted sampler.
//! The Gaussian rate model needs floating-point draws, which this library
//! does not touch: the caller hands in each Normal draw already rounded to a
//! whole number of clicks per second, and the Poisson count as a plain
//! integer, and everything decided about them — rejection, clamping, the
//! floor of one click per window — is verified code in this module.

use rand::Rng;
use vstd::prelude::*;

verus! {

/// How many rejected Gaussian draws a window considers before it falls back
/// to one click per second, so that a degenerate profile cannot stall the
/// event loop.
pub const MAX_NORMAL_DRAWS: usize = 16;

/// Relies on rand's `Rng::random_range`: a draw from the non-empty range
/// `lo..=hi` lies within it and is uniformly distributed over it.
#[verifier::external_body]
fn sample_uniform_i64(lo: i64, hi: i64) -> (r: i64)
    requires
        lo <= hi,
    ensures
        lo <= r <= hi,
{
    rand::rng().random_range(lo..=hi)
}

/// The window's average rate read off a run of rounded Gaussian draws: the
/// first draw of at least one click per second, clamped to `u32`; one click
/// per second when every draw was rejected.
pub open spec fn accepted_rate(draws: Seq<i64>) -> u32
    decreases draws.len(),
{
    if draws.len() == 0 {
        1u32
    } else if draws[0] >= 1 {
        if draws[0] > u32::MAX {
            u32::MAX
        } else {
            draws[0] as u32
        }
    } else {
        accepted_rate(draws.drop_first())
    }
}

/// Rejecting a prefix of draws leaves the accepted rate unchanged.
proof fn lemma_accepted_rate_skip(draws: Seq<i64>, i: int)
    requires
        0 <= i < draws.len(),
        forall|k: int| 0 <= k < i ==> draws[k] < 1,
    ensures
        accepted_rate(draws) == accepted_rate(draws.skip(i)),
    decreases i,
{
    if i == 0 {
        assert(draws.skip(0) =~= draws);
    }
    if i > 0 {
        assert(draws[0] < 1);
        assert(draws.drop_first() =~= draws.skip(1));
        assert(forall|k: int| 0 <= k < i - 1 ==> draws.skip(1)[k] == draws[k + 1]);
        lemma_accepted_rate_skip(draws.skip(1), i - 1);
        assert(draws.skip(1).skip(i - 1) =~= draws.skip(i));
    }
}

/// Scan a run of rounded Gaussian draws for the window's average rate: a
/// draw below one click per second is rejected and the next is considered;
/// when every draw was rejected the rate falls back to one click per second.
pub fn accept_window_rate(draws: &Vec<i64>) -> (r: u32)
    ensures
        r == accepted_rate(draws@),
        r >= 1,
{
    let mut i: usize = 0;
    while i < draws.len()
        invariant
            i <= draws@.len(),
            forall|k: int| 0 <= k < i ==> draws@[k] < 1,
        decreases draws@.len() - i,
    {
        let d: i64 = draws[i];
        if d >= 1 {
            proof {
                lemma_accepted_rate_skip(draws@, i as int);
                assert(draws@.skip(i as int)[0] == draws@[i as int]);
            }
            if d > u32::MAX as i64 {
                return u32::MAX;
            }
            return d as u32;
        }
        i = i + 1;
    }
    proof {
        let n = draws@.len() as int;
        if n > 0 {
            lemma_accepted_rate_skip(draws@, n - 1);
            let tail = draws@.skip(n - 1);
            assert(tail.len() == 1);
            assert(tail[0] == draws@[n - 1]);
            assert(tail[0] < 1);
            assert(tail.drop_first().len() == 0);
            assert(accepted_rate(tail.drop_first()) == 1);
            assert(accepted_rate(tail) == 1);
        }
        assert(accepted_rate(draws@) == 1);
    }
    1
}

/// A clicking rate for the bounded-range model: drawn uniformly from
/// `min..=max`, so a degenerate range pins the rate exactly.
pub fn sample_range_rate(min: u32, max: u32) -> (r: u32)
    requires
        1 <= min <= max,
    ensures
        min <= r <= max,
{
    let s: i64 = sample_uniform_i64(min as i64, max as i64);
    s as u32
}

/// A timing perturbation for one inter-click interval: uniform over plus or
/// minus a quarter of the base interval.
pub fn sample_interval_jitter(base: u64) -> (r: i64)
    ensures
        -((base / 4) as int) <= r <= (base / 4) as int,
{
    let quarter: i64 = (base / 4) as i64;
    sample_uniform_i64(-quarter, quarter)
}

/// A positional offset for one click: each axis drawn uniformly from plus or
/// minus the profile's jitter radius.
pub fn sample_motion_offsets(jitter: u16) -> (r: (i32, i32))
    ensures
        -(jitter as int) <= r.0 <= jitter as int,
        -(jitter as int) <= r.1 <= jitter as int,
{
    let radius: i64 = jitter as i64;
    let dx: i64 = sample_uniform_i64(-radius, radius);
    let dy: i64 = sample_uniform_i64(-radius, radius);
    (dx as i32, dy as i32)
}

} // verus!
