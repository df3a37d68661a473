//! Properties of the timer that span operations or hold of every state.
use vstd::prelude::*;
use crate::timer::{
    Config, CycleSetting, Phase, Status, TimerEvent, TimerModel, config_ok, is_last_set_of,
    new_model, next_set_index, sanitized_config, target_sets_of,
};

verus! {

/// The state at the head of set `k` of a running session.
pub open spec fn set_head(c: Config, k: u32) -> TimerModel {
    TimerModel {
        config: c,
        phase: Phase::Work,
        status: Status::Running,
        remaining: c.work_secs,
        set_index: k,
    }
}

/// The length of one whole set, work and break.
pub open spec fn set_secs(c: Config) -> nat {
    (c.work_secs + c.break_secs) as nat
}

/// The events of `j` whole sets: a work end and a break end for each.
pub open spec fn sets_events(j: nat) -> Seq<TimerEvent>
    decreases j,
{
    if j == 0 {
        Seq::empty()
    } else {
        seq![TimerEvent::WorkEnded, TimerEvent::BreakEnded] + sets_events((j - 1) as nat)
    }
}

/// The same state under another cycle setting.
pub open spec fn with_cycles(m: TimerModel, c: CycleSetting) -> TimerModel {
    TimerModel { config: Config { cycles: c, ..m.config }, ..m }
}

/// The end of a phase of a running or paused timer keeps the invariant.
pub proof fn complete_keeps_wf(m: TimerModel)
    requires
        m.wf(),
        m.status != Status::Idle,
    ensures
        m.complete_model().0.wf(),
{
}

/// Every tick keeps the invariant.
pub proof fn tick_keeps_wf(m: TimerModel, secs: nat)
    requires
        m.wf(),
    ensures
        m.tick_model(secs).0.wf(),
    decreases secs,
{
    if m.status == Status::Running && secs > 0 && secs >= m.remaining {
        let after = m.complete_model().0;
        complete_keeps_wf(m);
        tick_keeps_wf(after, (secs - m.remaining) as nat);
    }
}

/// Every operation of the timer keeps its invariant.
pub proof fn operations_keep_wf(m: TimerModel, c: Config, secs: nat)
    requires
        m.wf(),
    ensures
        m.start_model().wf(),
        m.pause_model().wf(),
        m.reset_model().wf(),
        m.skip_model().0.wf(),
        m.set_config_model(c).wf(),
        m.tick_model(secs).0.wf(),
        new_model(c).wf(),
{
    if m.status != Status::Idle {
        complete_keeps_wf(m);
    }
    tick_keeps_wf(m, secs);
}

/// Time handed over in one batch has the same effect as the same time handed
/// over in two parts: the same final state, and the events of the batch are
/// those of the first part followed by those of the second.
pub proof fn tick_splits(m: TimerModel, a: nat, b: nat)
    requires
        m.wf(),
    ensures
        m.tick_model(a + b) == (
            m.tick_model(a).0.tick_model(b).0,
            m.tick_model(a).1 + m.tick_model(a).0.tick_model(b).1,
        ),
    decreases a,
{
    let first = m.tick_model(a);
    let second = first.0.tick_model(b);
    if m.status != Status::Running || a == 0 {
        assert(first.1 + second.1 =~= second.1);
    } else if a < m.remaining {
        let m1 = first.0;
        assert(m1.complete_model() == m.complete_model());
        assert(first.1 + second.1 =~= second.1);
    } else {
        let (after, e1) = m.complete_model();
        complete_keeps_wf(m);
        tick_splits(after, (a - m.remaining) as nat, b);
        assert((a + b - m.remaining) as nat == (a - m.remaining) as nat + b);
        let (m3, e2) = after.tick_model((a - m.remaining) as nat);
        assert(e1 + (e2 + m3.tick_model(b).1) =~= (e1 + e2) + m3.tick_model(b).1);
    }
}

/// Time does not pass for a timer that is not running.
pub proof fn tick_needs_running(m: TimerModel, secs: nat)
    requires
        m.status != Status::Running,
    ensures
        m.tick_model(secs) == (m, Seq::<TimerEvent>::empty()),
{
}

/// Skipping a running phase is the same as letting its remaining time pass.
pub proof fn skip_is_running_out_the_phase(m: TimerModel)
    requires
        m.wf(),
        m.status == Status::Running,
    ensures
        m.skip_model() == m.tick_model(m.remaining as nat),
{
    let (after, e) = m.complete_model();
    assert(after.tick_model(0) == (after, Seq::<TimerEvent>::empty()));
    assert(e + Seq::<TimerEvent>::empty() =~= e);
}

/// A pause followed by a start resumes exactly where the timer stood.
pub proof fn pause_then_start_resumes(m: TimerModel)
    requires
        m.status == Status::Running,
    ensures
        m.pause_model().start_model() == m,
{
}

/// Starting a running timer changes nothing.
pub proof fn start_while_running_is_noop(m: TimerModel)
    requires
        m.status == Status::Running,
    ensures
        m.start_model() == m,
{
}

/// The config with each zero-second phase raised to one second.
pub open spec fn raised(c: Config) -> Config {
    Config {
        work_secs: if c.work_secs == 0 { 1 } else { c.work_secs },
        break_secs: if c.break_secs == 0 { 1 } else { c.break_secs },
        cycles: c.cycles,
    }
}

/// The state of a stopped timer at the head of a session.
pub open spec fn idle_head(c: Config) -> TimerModel {
    TimerModel {
        config: c,
        phase: Phase::Work,
        status: Status::Idle,
        remaining: c.work_secs,
        set_index: 0,
    }
}

/// The set after `k`, saturating at `u32::MAX`.
pub open spec fn set_after(k: u32) -> u32 {
    if k < u32::MAX { (k + 1) as u32 } else { u32::MAX }
}

/// Whether a session under `cycles` goes on after `completed` whole sets: it
/// always does under `Infinite`; under `Finite(n)` while fewer than `n` sets
/// are done (one set at least is always run, so `Finite(0)` stops after one).
pub open spec fn goes_on_after(cycles: CycleSetting, completed: int) -> bool {
    match cycles {
        CycleSetting::Infinite => true,
        CycleSetting::Finite(n) => completed < n,
    }
}

/// A fresh timer holds the config with zero-second phases raised to one
/// second, and waits, stopped, at the head of a session.
pub proof fn fresh_timer(c: Config)
    ensures
        new_model(c) == idle_head(raised(c)),
        new_model(c).wf(),
{
}

/// Reset leads to the state of a fresh timer under the same config.
pub proof fn reset_is_fresh(m: TimerModel)
    requires
        m.wf(),
    ensures
        m.reset_model() == new_model(m.config),
        m.reset_model() == idle_head(m.config),
{
}

/// Start begins a new session from idle (running at the head of the first
/// set), and resumes a paused timer where it stood.
pub proof fn start_begins_or_resumes(m: TimerModel)
    requires
        m.wf(),
    ensures
        m.status == Status::Idle ==> m.start_model() == (TimerModel {
            status: Status::Running,
            ..idle_head(m.config)
        }),
        m.status == Status::Paused ==> m.start_model() == (TimerModel {
            status: Status::Running,
            ..m
        }),
{
}

/// A new config reaches an idle timer at once, as if it were a fresh timer
/// under it; a running or paused timer keeps its phase, time left, set and
/// status, and only its config changes.
pub proof fn set_config_keeps_a_session(m: TimerModel, c: Config)
    requires
        m.wf(),
    ensures
        m.status == Status::Idle ==> m.set_config_model(c) == new_model(c),
        m.status == Status::Idle ==> m.set_config_model(c) == idle_head(raised(c)),
        m.status != Status::Idle ==> m.set_config_model(c) == (TimerModel {
            config: raised(c),
            ..m
        }),
{
}

/// The display shows the state as it is, and the number of sets that the
/// cycle setting runs: `n` for `Finite(n)`, one for `Finite(0)`, none for
/// `Infinite`.
pub proof fn snapshot_shows_the_state(m: TimerModel)
    ensures
        m.snapshot_model().phase == m.phase,
        m.snapshot_model().status == m.status,
        m.snapshot_model().remaining_secs == m.remaining,
        m.snapshot_model().set_index == m.set_index,
        m.snapshot_model().work_secs == m.config.work_secs,
        m.snapshot_model().break_secs == m.config.break_secs,
        m.snapshot_model().total_sets == match m.config.cycles {
            CycleSetting::Finite(n) => Some(if n == 0 { 1u32 } else { n }),
            CycleSetting::Infinite => None::<u32>,
        },
{
}

/// Skipping ends the current phase of a timer that is not idle and keeps it
/// running or paused: work goes to a break of the break length; a break goes
/// to the next set's work of the work length while the session goes on, and
/// otherwise ends the session, back to the stopped head.
pub proof fn skip_ends_the_phase(m: TimerModel)
    requires
        m.wf(),
        m.status != Status::Idle,
    ensures
        m.phase == Phase::Work ==> m.skip_model() == (
            TimerModel { phase: Phase::Break, remaining: m.config.break_secs, ..m },
            seq![TimerEvent::WorkEnded],
        ),
        m.phase == Phase::Break && goes_on_after(m.config.cycles, m.set_index + 1)
            ==> m.skip_model() == (
            TimerModel {
                phase: Phase::Work,
                remaining: m.config.work_secs,
                set_index: set_after(m.set_index),
                ..m
            },
            seq![TimerEvent::BreakEnded],
        ),
        m.phase == Phase::Break && !goes_on_after(m.config.cycles, m.set_index + 1)
            ==> m.skip_model() == (
            idle_head(m.config),
            seq![TimerEvent::BreakEnded, TimerEvent::SessionFinished],
        ),
        m.skip_model().0.status == m.status
            || (m.skip_model().0.status == Status::Idle
                && m.skip_model().1.contains(TimerEvent::SessionFinished)),
{
    let e = m.skip_model().1;
    if m.phase == Phase::Break && !goes_on_after(m.config.cycles, m.set_index + 1) {
        assert(e[1] == TimerEvent::SessionFinished);
    }
}

/// A phase counts down: fewer seconds than are left only lower the time left.
pub proof fn tick_counts_down(m: TimerModel, secs: nat)
    requires
        m.wf(),
        m.status == Status::Running,
        0 < secs < m.remaining,
    ensures
        m.tick_model(secs) == (
            TimerModel { remaining: (m.remaining - secs) as u32, ..m },
            Seq::<TimerEvent>::empty(),
        ),
{
}

/// When the time of a break runs out in the last set, whatever cycle
/// setting brought the session there (it may have been lowered during the
/// session), the session finishes: `SessionFinished` follows the break end and
/// the timer stops at the head.
pub proof fn last_break_running_out_finishes(m: TimerModel)
    requires
        m.wf(),
        m.status == Status::Running,
        m.phase == Phase::Break,
        !goes_on_after(m.config.cycles, m.set_index + 1),
    ensures
        m.tick_model(m.remaining as nat) == (
            idle_head(m.config),
            seq![TimerEvent::BreakEnded, TimerEvent::SessionFinished],
        ),
{
    skip_is_running_out_the_phase(m);
    skip_ends_the_phase(m);
}

/// Under `Infinite` the session never finishes: no tick reports
/// `SessionFinished`, and a running timer keeps running.
pub proof fn infinite_never_finishes(m: TimerModel, secs: nat)
    requires
        m.wf(),
        m.config.cycles == CycleSetting::Infinite,
    ensures
        !m.tick_model(secs).1.contains(TimerEvent::SessionFinished),
        m.status == Status::Running ==> m.tick_model(secs).0.status == Status::Running,
        m.tick_model(secs).0.config == m.config,
    decreases secs,
{
    if m.status == Status::Running && secs > 0 && secs >= m.remaining {
        let (after, e1) = m.complete_model();
        complete_keeps_wf(m);
        infinite_never_finishes(after, (secs - m.remaining) as nat);
        let (last, e2) = after.tick_model((secs - m.remaining) as nat);
        assert(!e1.contains(TimerEvent::SessionFinished));
        assert(!(e1 + e2).contains(TimerEvent::SessionFinished)) by {
            if (e1 + e2).contains(TimerEvent::SessionFinished) {
                let i = choose|i: int|
                    0 <= i < (e1 + e2).len() && (e1 + e2)[i] == TimerEvent::SessionFinished;
                if i < e1.len() {
                    assert(e1[i] == TimerEvent::SessionFinished);
                } else {
                    assert(e2[i - e1.len()] == TimerEvent::SessionFinished);
                }
            }
        }
    }
}

/// Two cycle settings that run the same number of sets (such as `Finite(0)`
/// and `Finite(1)`) make the timer behave the same: the same events, and the
/// same state but for the setting itself.
pub proof fn same_target_same_ticks(m: TimerModel, c: CycleSetting, secs: nat)
    requires
        m.wf(),
        target_sets_of(c) == target_sets_of(m.config.cycles),
    ensures
        with_cycles(m, c).tick_model(secs) == (
            with_cycles(m.tick_model(secs).0, c),
            m.tick_model(secs).1,
        ),
        m.tick_model(secs).0.config.cycles == m.config.cycles,
    decreases secs,
{
    let n = with_cycles(m, c);
    if m.status == Status::Running && secs > 0 && secs >= m.remaining {
        let (after, e1) = m.complete_model();
        complete_keeps_wf(m);
        assert(is_last_set_of(c, next_set_index(m.set_index)) == is_last_set_of(
            m.config.cycles,
            next_set_index(m.set_index),
        ));
        assert(n.complete_model() == (with_cycles(after, c), e1));
        same_target_same_ticks(after, c, (secs - m.remaining) as nat);
    }
}

/// `Finite(0)` and `Finite(1)` are the same setting in effect.
pub proof fn zero_and_one_cycles_agree(m: TimerModel, secs: nat)
    requires
        m.wf(),
        m.config.cycles == CycleSetting::Finite(0),
    ensures
        with_cycles(m, CycleSetting::Finite(1)).tick_model(secs) == (
            with_cycles(m.tick_model(secs).0, CycleSetting::Finite(1)),
            m.tick_model(secs).1,
        ),
        with_cycles(m, CycleSetting::Finite(1)).snapshot_model() == m.snapshot_model(),
{
    same_target_same_ticks(m, CycleSetting::Finite(1), secs);
}

/// Pause stops a running timer where it stands and changes nothing else;
/// an idle or paused timer is left as it is.
pub proof fn pause_only_stops_a_running_timer(m: TimerModel)
    ensures
        m.status == Status::Running ==> m.pause_model() == (TimerModel {
            status: Status::Paused,
            ..m
        }),
        m.status != Status::Running ==> m.pause_model() == m,
{
}

/// Time left over once the session has finished is dropped: a batch that
/// runs past the end of the last break ends the session and nothing more.
pub proof fn time_after_the_session_end_is_dropped(m: TimerModel, extra: nat)
    requires
        m.wf(),
        m.status == Status::Running,
        m.phase == Phase::Break,
        !goes_on_after(m.config.cycles, m.set_index + 1),
    ensures
        m.tick_model(m.remaining as nat + extra) == (
            idle_head(m.config),
            seq![TimerEvent::BreakEnded, TimerEvent::SessionFinished],
        ),
{
    last_break_running_out_finishes(m);
    tick_splits(m, m.remaining as nat, extra);
    let after = idle_head(m.config);
    assert(after.tick_model(extra) == (after, Seq::<TimerEvent>::empty()));
    assert(seq![TimerEvent::BreakEnded, TimerEvent::SessionFinished] + Seq::<TimerEvent>::empty()
        =~= seq![TimerEvent::BreakEnded, TimerEvent::SessionFinished]);
}

/// One whole set of time from the head of a running set: a work end and a
/// break end, then the head of the next set while the session goes on (always
/// under `Infinite`), or the stopped head after the last set.
pub proof fn one_whole_set(c: Config, k: u32)
    requires
        config_ok(c),
    ensures
        goes_on_after(c.cycles, k + 1) ==> set_head(c, k).tick_model(set_secs(c)) == (
            set_head(c, set_after(k)),
            seq![TimerEvent::WorkEnded, TimerEvent::BreakEnded],
        ),
        !goes_on_after(c.cycles, k + 1) ==> set_head(c, k).tick_model(set_secs(c)) == (
            idle_head(c),
            seq![TimerEvent::WorkEnded, TimerEvent::BreakEnded, TimerEvent::SessionFinished],
        ),
{
    let m = set_head(c, k);
    let (brk, e1) = m.complete_model();
    assert(brk.phase == Phase::Break && brk.remaining == c.break_secs);
    let (nxt, e2) = brk.complete_model();
    assert(nxt.tick_model(0) == (nxt, Seq::<TimerEvent>::empty()));
    assert(brk.tick_model(c.break_secs as nat) == (nxt, e2 + Seq::<TimerEvent>::empty()));
    assert(m.tick_model(set_secs(c)) == (nxt, e1 + (e2 + Seq::<TimerEvent>::empty())));
    if goes_on_after(c.cycles, k + 1) {
        assert(e1 + (e2 + Seq::<TimerEvent>::empty()) =~= seq![
            TimerEvent::WorkEnded,
            TimerEvent::BreakEnded,
        ]);
    } else {
        assert(e1 + (e2 + Seq::<TimerEvent>::empty()) =~= seq![
            TimerEvent::WorkEnded,
            TimerEvent::BreakEnded,
            TimerEvent::SessionFinished,
        ]);
    }
}

proof fn sets_length_step(j: nat, w: nat, b: nat)
    requires
        j >= 1,
    ensures
        j * (w + b) == (w + b) + (j - 1) * (w + b),
{
    assert(j * (w + b) == (w + b) + (j - 1) * (w + b)) by (nonlinear_arith)
        requires
            j >= 1,
    ;
}

/// From the head of set `k`, `j` whole sets of time lead to the head of set
/// `k + j` while the session goes on after each of them, and to the stopped
/// head when the last of them ends the session.
pub proof fn sets_from(c: Config, k: u32, j: nat)
    requires
        config_ok(c),
        k + j <= u32::MAX,
        forall|i: int| k < i < k + j ==> goes_on_after(c.cycles, i),
    ensures
        goes_on_after(c.cycles, k + j) ==> set_head(c, k).tick_model(j * set_secs(c)) == (
            set_head(c, (k + j) as u32),
            sets_events(j),
        ),
        j >= 1 && !goes_on_after(c.cycles, k + j) ==> set_head(c, k).tick_model(
            j * set_secs(c),
        ) == (idle_head(c), sets_events(j) + seq![TimerEvent::SessionFinished]),
    decreases j,
{
    let w = c.work_secs as nat;
    let b = c.break_secs as nat;
    let m = set_head(c, k);
    if j == 0 {
        assert(j * (w + b) == 0) by (nonlinear_arith)
            requires
                j == 0,
        ;
        assert(sets_events(0) =~= Seq::<TimerEvent>::empty());
    } else {
        sets_length_step(j, w, b);
        tick_splits(m, w + b, ((j - 1) * (w + b)) as nat);
        one_whole_set(c, k);
        assert(sets_events(j) == seq![TimerEvent::WorkEnded, TimerEvent::BreakEnded]
            + sets_events((j - 1) as nat));
        if j > 1 {
            assert(goes_on_after(c.cycles, k + 1));
            assert(set_after(k) == k + 1);
            sets_from(c, (k + 1) as u32, (j - 1) as nat);
            assert(seq![TimerEvent::WorkEnded, TimerEvent::BreakEnded] + (sets_events(
                (j - 1) as nat,
            ) + seq![TimerEvent::SessionFinished]) =~= sets_events(j) + seq![
                TimerEvent::SessionFinished,
            ]);
        } else {
            assert((j - 1) * (w + b) == 0) by (nonlinear_arith)
                requires
                    j == 1,
            ;
            assert(set_after(k) == k + 1);
            let next = set_head(c, (k + 1) as u32);
            assert(next.tick_model(0) == (next, Seq::<TimerEvent>::empty()));
            let fresh = idle_head(c);
            assert(fresh.tick_model(0) == (fresh, Seq::<TimerEvent>::empty()));
            assert(sets_events(0) =~= Seq::<TimerEvent>::empty());
            assert(seq![TimerEvent::WorkEnded, TimerEvent::BreakEnded] + Seq::<
                TimerEvent,
            >::empty() =~= sets_events(j));
            assert(seq![
                TimerEvent::WorkEnded,
                TimerEvent::BreakEnded,
                TimerEvent::SessionFinished,
            ] + Seq::<TimerEvent>::empty() =~= sets_events(j) + seq![
                TimerEvent::SessionFinished,
            ]);
        }
    }
}

/// A session under `Finite(n)` runs exactly `n` sets (one for `n == 0`) and
/// then stops: after `j` whole sets of time, fewer than that, the timer runs at
/// the head of set `j` with a work end and a break end reported per set; after
/// all of them it is back to the fresh idle state, with `SessionFinished`
/// reported last.
pub proof fn finite_runs_its_sets(c: Config, n: u32, j: nat)
    requires
        c.cycles == CycleSetting::Finite(n),
        j <= (if n == 0 { 1 } else { n }),
    ensures
        ({
            let s = raised(c);
            let t: nat = if n == 0 { 1 } else { n as nat };
            let run = new_model(c).start_model().tick_model(j * set_secs(s));
            &&& j < t ==> run == (set_head(s, j as u32), sets_events(j))
            &&& j == t ==> run == (idle_head(s), sets_events(j) + seq![TimerEvent::SessionFinished])
        }),
{
    let s = raised(c);
    assert(new_model(c).start_model() == set_head(s, 0));
    if j == 0 {
        assert(0 * set_secs(s) == 0);
        assert(sets_events(0) =~= Seq::<TimerEvent>::empty());
        assert(set_head(s, 0).tick_model(0) == (set_head(s, 0), Seq::<TimerEvent>::empty()));
    } else {
        assert forall|i: int| 0 < i < 0 + j implies goes_on_after(s.cycles, i) by {}
        sets_from(s, 0, j);
    }
}

/// Under `Infinite` the sets follow one another without end: `j` whole sets
/// of time from the head of set `k` lead to the head of set `k + j`, each set
/// of the configured work and break lengths, with a work end and a break end
/// reported per set.
pub proof fn infinite_runs_set_after_set(c: Config, k: u32, j: nat)
    requires
        config_ok(c),
        c.cycles == CycleSetting::Infinite,
        k + j <= u32::MAX,
    ensures
        set_head(c, k).tick_model(j * set_secs(c)) == (set_head(c, (k + j) as u32), sets_events(j)),
{
    sets_from(c, k, j);
}

} // verus!
