//! The decisions of the loop that drives the timer from a monotonic clock.
//!
//! Clock readings are nanoseconds since a fixed origin. The loop keeps a mark,
//! the reading up to which time has been handed to the timer. Each round hands
//! over the whole seconds since the mark and moves the mark by exactly those
//! seconds, so the fraction of a second left over is carried to the next round
//! and the timer does not drift.
use vstd::prelude::*;
use crate::timer::{Timer, TimerEvent};
use vstd::arithmetic::div_mod::{
    lemma_div_is_ordered, lemma_fundamental_div_mod, lemma_fundamental_div_mod_converse_div,
    lemma_mod_bound,
};

verus! {

/// Nanoseconds in one second.
pub const NANOS_PER_SEC: u64 = 1_000_000_000;

/// Nanoseconds from `mark` to `now`; none when the clock reads earlier than the mark.
pub open spec fn gap_nanos(mark: u64, now: u64) -> nat {
    if now > mark { (now - mark) as nat } else { 0 }
}

/// The whole seconds from `mark` to `now`, saturated to `u32::MAX` (after a
/// long sleep the gap can exceed it).
pub open spec fn whole_secs(mark: u64, now: u64) -> u32 {
    let whole = gap_nanos(mark, now) / (NANOS_PER_SEC as nat);
    if whole > u32::MAX { u32::MAX } else { whole as u32 }
}

/// Splits the time since `mark` into whole seconds and the new mark: the mark
/// moves by exactly the seconds handed over, so what is left of a second
/// stays between the new mark and `now`.
pub fn advance_mark(mark: u64, now: u64) -> (r: (u32, u64))
    ensures
        r.0 == whole_secs(mark, now),
        r.1 == mark + r.0 * NANOS_PER_SEC,
        now >= mark ==> r.1 <= now,
        now >= mark && r.0 < u32::MAX ==> now - r.1 < NANOS_PER_SEC,
{
    let gap: u64 = if now > mark { now - mark } else { 0 };
    let whole: u64 = gap / NANOS_PER_SEC;
    assert(whole * NANOS_PER_SEC <= gap && gap - whole * NANOS_PER_SEC < NANOS_PER_SEC)
        by (nonlinear_arith)
        requires
            whole == gap / NANOS_PER_SEC,
            NANOS_PER_SEC == 1_000_000_000u64,
    ;
    let secs: u32 = if whole > u32::MAX as u64 { u32::MAX } else { whole as u32 };
    assert(secs * NANOS_PER_SEC <= whole * NANOS_PER_SEC) by (nonlinear_arith)
        requires
            secs <= whole,
            NANOS_PER_SEC == 1_000_000_000u64,
    ;
    let new_mark = mark + (secs as u64) * NANOS_PER_SEC;
    (secs, new_mark)
}

proof fn div_after_whole_seconds(a: int, s: int, n: int)
    requires
        n > 0,
    ensures
        (a - s * n) / n == a / n - s,
        (a / n) * n <= a,
{
    let q = a / n;
    let r = a % n;
    lemma_fundamental_div_mod(a, n);
    lemma_mod_bound(a, n);
    assert(a - s * n == (q - s) * n + r) by (nonlinear_arith)
        requires
            a == n * q + r,
    ;
    assert(q * n <= a) by (nonlinear_arith)
        requires
            a == n * q + r,
            0 <= r,
    ;
    lemma_fundamental_div_mod_converse_div(a - s * n, n, q - s, r);
}

/// No drift: two rounds hand over, together, the whole seconds from the first
/// mark to the second reading, and leave the mark where one round over the
/// whole span would (readings in order, no saturation).
pub proof fn rounds_do_not_drift(mark: u64, first: u64, second: u64)
    requires
        mark <= first <= second,
        whole_secs(mark, second) < u32::MAX,
    ensures
        ({
            let s1 = whole_secs(mark, first);
            let m1 = mark + s1 * NANOS_PER_SEC;
            let s2 = whole_secs(m1 as u64, second);
            &&& s1 + s2 == whole_secs(mark, second)
            &&& m1 + s2 * NANOS_PER_SEC == mark + whole_secs(mark, second) * NANOS_PER_SEC
        }),
{
    let n = NANOS_PER_SEC as int;
    let g1 = (first - mark) as int;
    let g = (second - mark) as int;
    let s1 = whole_secs(mark, first);
    assert(g1 / n <= g / n) by {
        lemma_div_is_ordered(g1, g, n);
    }
    assert(s1 == g1 / n);
    div_after_whole_seconds(g1, 0, n);
    assert(s1 * n <= g1);
    let m1 = mark + s1 * NANOS_PER_SEC;
    div_after_whole_seconds(g, s1 as int, n);
    assert(gap_nanos(m1 as u64, second) == g - s1 * n);
    assert(m1 + whole_secs(m1 as u64, second) * NANOS_PER_SEC == mark + whole_secs(mark, second)
        * NANOS_PER_SEC) by (nonlinear_arith)
        requires
            whole_secs(m1 as u64, second) == whole_secs(mark, second) - s1,
            m1 == mark + s1 * NANOS_PER_SEC,
    ;
}

/// One round of the loop for a running timer: hands the whole seconds since
/// `mark` to the timer and returns them, the new mark, and the boundary events
/// crossed. When no whole second has passed the timer is left as it is.
pub fn tick_elapsed(timer: &mut Timer, mark: u64, now: u64) -> (r: (u32, u64, Vec<TimerEvent>))
    ensures
        r.0 == whole_secs(mark, now),
        r.1 == mark + r.0 * NANOS_PER_SEC,
        now >= mark ==> r.1 <= now,
        now >= mark && r.0 < u32::MAX ==> now - r.1 < NANOS_PER_SEC,
        (final(timer)@, r.2@) == old(timer)@.tick_model(r.0 as nat),
        final(timer)@.wf(),
{
    let (secs, new_mark) = advance_mark(mark, now);
    if secs == 0 {
        proof {
            use_type_invariant(&*timer);
            assert(timer@.tick_model(0) == (timer@, Seq::<TimerEvent>::empty()));
        }
        return (0, new_mark, Vec::new());
    }
    let events = timer.tick(secs);
    (secs, new_mark, events)
}

} // verus!
