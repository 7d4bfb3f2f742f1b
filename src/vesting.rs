//! The unlock engine: how much of a stream is vested at a given time.
use vstd::prelude::*;
use vstd::arithmetic::div_mod::{
    lemma_div_denominator, lemma_div_is_ordered, lemma_div_multiples_vanish,
    lemma_div_pos_is_pos, lemma_fundamental_div_mod, lemma_hoist_over_denominator,
};
use crate::ledger::StellarStreamContract;
use crate::types::{CurveType, Stream};

verus! {

/// `total * elapsed / duration`, rounded down.
pub open spec fn linear_amount(total: int, elapsed: int, duration: int) -> int {
    total * elapsed / duration
}

/// Whether the exponential formula's numerator fits in an `i128`.
pub open spec fn exponential_fits(total: int, elapsed: int) -> bool {
    total * elapsed * elapsed <= i128::MAX
}

/// `total * (elapsed / duration)^2`, rounded down.
pub open spec fn exponential_amount(total: int, elapsed: int, duration: int) -> int {
    total * elapsed * elapsed / (duration * duration)
}

/// The curve's value after `elapsed` of `duration`; an exponential curve whose
/// arithmetic would overflow falls back to the linear value.
pub open spec fn curve_amount(curve: CurveType, total: int, elapsed: int, duration: int) -> int {
    match curve {
        CurveType::Linear => linear_amount(total, elapsed, duration),
        CurveType::Exponential => if exponential_fits(total, elapsed) {
            exponential_amount(total, elapsed, duration)
        } else {
            linear_amount(total, elapsed, duration)
        },
    }
}

/// The clock the stream runs on: frozen at the pause instant while paused.
pub open spec fn effective_time(s: Stream, now: u64) -> int {
    if s.is_paused { s.paused_time as int } else { now as int }
}

/// The amount the receiver is entitled to at `now`.
pub open spec fn unlocked(s: Stream, now: u64) -> int {
    if now <= s.start_time {
        0
    } else if effective_time(s, now) >= s.end_time + s.total_paused_duration {
        s.total_amount as int
    } else {
        let elapsed = effective_time(s, now) - s.start_time - s.total_paused_duration;
        if elapsed <= 0 {
            0
        } else {
            curve_amount(s.curve_type, s.total_amount as int, elapsed, s.end_time - s.start_time)
        }
    }
}

proof fn lemma_linear_bounds(t: int, e: int, d: int)
    requires
        t >= 0,
        0 <= e <= d,
        d > 0,
    ensures
        0 <= linear_amount(t, e, d) <= t,
{
    assert(0 <= t * e <= t * d) by (nonlinear_arith)
        requires t >= 0, 0 <= e <= d;
    lemma_div_pos_is_pos(t * e, d);
    lemma_div_is_ordered(t * e, t * d, d);
    assert(t * d == d * t) by (nonlinear_arith);
    lemma_div_multiples_vanish(t, d);
}

proof fn lemma_linear_monotone(t: int, e1: int, e2: int, d: int)
    requires
        t >= 0,
        e1 <= e2,
        d > 0,
    ensures
        linear_amount(t, e1, d) <= linear_amount(t, e2, d),
{
    assert(t * e1 <= t * e2) by (nonlinear_arith)
        requires t >= 0, e1 <= e2;
    lemma_div_is_ordered(t * e1, t * e2, d);
}

proof fn lemma_exponential_below_linear(t: int, e: int, d: int)
    requires
        t >= 0,
        0 <= e <= d,
        d > 0,
    ensures
        0 <= exponential_amount(t, e, d) <= linear_amount(t, e, d),
{
    let a = t * e;
    assert(0 <= a * e <= a * d) by (nonlinear_arith)
        requires a == t * e, t >= 0, 0 <= e <= d;
    assert(t * e * e == a * e);
    assert(d * d > 0) by (nonlinear_arith) requires d > 0;
    lemma_div_pos_is_pos(a * e, d * d);
    lemma_div_is_ordered(a * e, a * d, d * d);
    lemma_div_denominator(a * d, d, d);
    assert(a * d == d * a) by (nonlinear_arith);
    lemma_div_multiples_vanish(a, d);
}

proof fn lemma_exponential_monotone(t: int, e1: int, e2: int, d: int)
    requires
        t >= 0,
        0 <= e1 <= e2,
        d > 0,
    ensures
        exponential_amount(t, e1, d) <= exponential_amount(t, e2, d),
        t * e1 * e1 <= t * e2 * e2,
{
    assert(t * e1 * e1 <= t * e2 * e2) by (nonlinear_arith)
        requires t >= 0, 0 <= e1 <= e2;
    assert(d * d > 0) by (nonlinear_arith) requires d > 0;
    lemma_div_is_ordered(t * e1 * e1, t * e2 * e2, d * d);
}

proof fn lemma_curve_bounds(curve: CurveType, t: int, e: int, d: int)
    requires
        t >= 0,
        0 <= e <= d,
        d > 0,
    ensures
        0 <= curve_amount(curve, t, e, d) <= t,
{
    lemma_linear_bounds(t, e, d);
    lemma_exponential_below_linear(t, e, d);
}

proof fn lemma_curve_monotone(curve: CurveType, t: int, e1: int, e2: int, d: int)
    requires
        t >= 0,
        0 <= e1 <= e2 <= d,
        d > 0,
    ensures
        curve_amount(curve, t, e1, d) <= curve_amount(curve, t, e2, d),
{
    lemma_linear_monotone(t, e1, e2, d);
    lemma_exponential_monotone(t, e1, e2, d);
    lemma_exponential_below_linear(t, e1, d);
}

/// The unlocked amount never goes below zero nor above the stream's total.
pub proof fn lemma_unlocked_bounds(s: Stream, now: u64)
    requires
        s.wf(),
    ensures
        0 <= unlocked(s, now) <= s.total_amount,
{
    let t = effective_time(s, now);
    let e = t - s.start_time - s.total_paused_duration;
    if now > s.start_time && t < s.end_time + s.total_paused_duration && e > 0 {
        lemma_curve_bounds(s.curve_type, s.total_amount as int, e, s.end_time - s.start_time);
    }
}

/// For a fixed stream state, the unlocked amount never decreases as time
/// moves forward, whatever the curve and whether or not the stream is paused.
pub proof fn unlocked_is_monotone(s: Stream, now1: u64, now2: u64)
    requires
        s.wf(),
        now1 <= now2,
    ensures
        unlocked(s, now1) <= unlocked(s, now2),
{
    lemma_unlocked_bounds(s, now1);
    lemma_unlocked_bounds(s, now2);
    let t1 = effective_time(s, now1);
    let t2 = effective_time(s, now2);
    let e1 = t1 - s.start_time - s.total_paused_duration;
    let e2 = t2 - s.start_time - s.total_paused_duration;
    let d = s.end_time - s.start_time;
    if now1 > s.start_time && t2 < s.end_time + s.total_paused_duration && e1 > 0 {
        lemma_curve_monotone(s.curve_type, s.total_amount as int, e1, e2, d);
    }
}

/// Once the end time, pushed back by the time spent paused, is reached, a
/// running stream has unlocked its whole amount, whatever its curve.
pub proof fn unlocked_at_adjusted_end(s: Stream)
    requires
        s.wf(),
        !s.is_paused,
        s.end_time + s.total_paused_duration <= u64::MAX,
    ensures
        unlocked(s, (s.end_time + s.total_paused_duration) as u64) == s.total_amount,
{
}

/// Exact `total * elapsed / duration` without an intermediate overflow.
fn linear_exec(total: i128, elapsed: i128, duration: i128) -> (r: i128)
    requires
        total > 0,
        0 < elapsed < duration,
        duration <= u64::MAX,
    ensures
        r == linear_amount(total as int, elapsed as int, duration as int),
{
    let t = total as u128;
    let e = elapsed as u128;
    let d = duration as u128;
    let q = t / d;
    let rem = t % d;
    proof {
        lemma_fundamental_div_mod(t as int, d as int);
        assert(q * e <= t) by (nonlinear_arith)
            requires t == d * q + rem, 0 <= rem, q >= 0, 0 < e < d;
        assert(rem * e < d * d) by (nonlinear_arith)
            requires 0 <= rem < d, 0 < e < d;
        assert(d * d <= u64::MAX * u64::MAX) by (nonlinear_arith)
            requires 0 < d <= u64::MAX;
    }
    let part1 = q * e;
    let part2 = rem * e / d;
    proof {
        lemma_hoist_over_denominator((rem * e) as int, (q * e) as int, d as nat);
        assert(rem * e + (q * e) * d == t * e) by (nonlinear_arith)
            requires t == d * q + rem;
        lemma_linear_bounds(t as int, e as int, d as int);
    }
    (part1 + part2) as i128
}

impl StellarStreamContract {
    /// `total_amount * (elapsed / duration)^2` with overflow-checked
    /// arithmetic; `None` where the numerator does not fit in an `i128`.
    pub fn calculate_exponential_unlocked(
        total_amount: i128,
        start_time: u64,
        end_time: u64,
        current_time: u64,
    ) -> (r: Option<i128>)
        requires
            total_amount > 0,
            start_time <= current_time <= end_time,
            start_time < end_time,
        ensures
            ({
                let e = current_time - start_time;
                let d = end_time - start_time;
                r == if exponential_fits(total_amount as int, e) {
                    Some(exponential_amount(total_amount as int, e, d) as i128)
                } else {
                    None::<i128>
                }
            }),
            r is Some ==> 0 <= r->0 <= total_amount,
    {
        let e = (current_time - start_time) as i128;
        let d = (end_time - start_time) as u128;
        proof {
            lemma_exponential_below_linear(total_amount as int, e as int, d as int);
            lemma_linear_bounds(total_amount as int, e as int, d as int);
            assert(total_amount * e <= total_amount * e * e || e == 0) by (nonlinear_arith)
                requires total_amount > 0, e >= 0;
            assert(0 <= total_amount * e) by (nonlinear_arith)
                requires total_amount > 0, e >= 0;
            assert(0 <= total_amount * e * e) by (nonlinear_arith)
                requires total_amount > 0, e >= 0;
            assert(d * d <= u64::MAX * u64::MAX) by (nonlinear_arith)
                requires 0 < d <= u64::MAX;
            assert(d * d > 0) by (nonlinear_arith) requires d > 0;
        }
        match total_amount.checked_mul(e) {
            None => None,
            Some(te) => match te.checked_mul(e) {
                None => None,
                Some(tee) => {
                    let dd = d * d;
                    Some(((tee as u128) / dd) as i128)
                },
            },
        }
    }

    /// The amount of `stream` unlocked at `current_time`.
    pub fn calculate_unlocked(stream: &Stream, current_time: u64) -> (r: i128)
        requires
            stream.wf(),
        ensures
            r == unlocked(*stream, current_time),
            0 <= r <= stream.total_amount,
    {
        proof {
            lemma_unlocked_bounds(*stream, current_time);
        }
        if current_time <= stream.start_time {
            return 0;
        }
        let effective_time: u64 = if stream.is_paused { stream.paused_time } else { current_time };
        let adjusted_end = stream.end_time as i128 + stream.total_paused_duration as i128;
        if effective_time as i128 >= adjusted_end {
            return stream.total_amount;
        }
        let effective_elapsed = effective_time as i128 - stream.start_time as i128
            - stream.total_paused_duration as i128;
        if effective_elapsed <= 0 {
            return 0;
        }
        let duration = (stream.end_time - stream.start_time) as i128;
        match stream.curve_type {
            CurveType::Linear => linear_exec(stream.total_amount, effective_elapsed, duration),
            CurveType::Exponential => {
                let adjusted_current = stream.start_time + effective_elapsed as u64;
                match Self::calculate_exponential_unlocked(
                    stream.total_amount,
                    stream.start_time,
                    stream.end_time,
                    adjusted_current,
                ) {
                    Some(v) => v,
                    None => linear_exec(stream.total_amount, effective_elapsed, duration),
                }
            },
        }
    }
}

} // verus!
