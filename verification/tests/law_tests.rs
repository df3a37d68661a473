use simpomo::driver::{advance_mark, tick_elapsed, NANOS_PER_SEC};
use simpomo::layout::{Corner, SizePreset};
use simpomo::settings::{AppSettings, MAX_CYCLES, MAX_PHASE_SECS, MIN_PHASE_SECS};
use simpomo::timer::{Config, CycleSetting, Phase, Status, Timer, TimerEvent};

fn cfg(work: u32, brk: u32, cycles: CycleSetting) -> Config {
    Config { work_secs: work, break_secs: brk, cycles }
}

fn running(work: u32, brk: u32, cycles: CycleSetting) -> Timer {
    let mut t = Timer::new(cfg(work, brk, cycles));
    t.start();
    t
}

#[test]
fn one_batch_equals_two_parts() {
    for split in 0..=13u32 {
        let mut whole = running(5, 3, CycleSetting::Finite(3));
        let mut parts = running(5, 3, CycleSetting::Finite(3));
        let batch = whole.tick(13);
        let mut pieces = parts.tick(split);
        pieces.extend(parts.tick(13 - split));
        assert_eq!(batch, pieces, "split at {split}");
        assert_eq!(whole.snapshot(), parts.snapshot(), "split at {split}");
    }
}

#[test]
fn one_batch_past_the_session_end_equals_parts() {
    let mut whole = running(2, 1, CycleSetting::Finite(1));
    let mut parts = running(2, 1, CycleSetting::Finite(1));
    let batch = whole.tick(100);
    let mut pieces = parts.tick(3);
    pieces.extend(parts.tick(97));
    assert_eq!(batch, pieces);
    assert_eq!(batch, vec![TimerEvent::WorkEnded, TimerEvent::BreakEnded, TimerEvent::SessionFinished]);
    assert_eq!(whole.snapshot(), parts.snapshot());
    assert_eq!(whole.snapshot().status, Status::Idle);
}

#[test]
fn skip_equals_running_out_the_phase() {
    let mut a = running(10, 5, CycleSetting::Infinite);
    let mut b = running(10, 5, CycleSetting::Infinite);
    a.tick(4);
    b.tick(4);
    let skipped = a.skip();
    let ticked = b.tick(6);
    assert_eq!(skipped, ticked);
    assert_eq!(a.snapshot(), b.snapshot());
}

#[test]
fn pause_then_start_resumes_exactly() {
    let mut t = running(10, 5, CycleSetting::Finite(2));
    t.tick(12);
    let before = t.snapshot();
    t.pause();
    assert_eq!(t.snapshot().status, Status::Paused);
    t.start();
    assert_eq!(t.snapshot(), before);
}

#[test]
fn reset_equals_a_fresh_timer() {
    let c = cfg(0, 7, CycleSetting::Finite(2));
    let mut t = running(0, 7, CycleSetting::Finite(2));
    t.tick(5);
    t.reset();
    assert_eq!(t.snapshot(), Timer::new(c).snapshot());
    assert_eq!(t.config(), Timer::new(c).config());
}

#[test]
fn set_config_while_idle_equals_a_fresh_timer() {
    let mut t = Timer::new(cfg(10, 5, CycleSetting::Infinite));
    let c = cfg(0, 40, CycleSetting::Finite(7));
    t.set_config(c);
    assert_eq!(t.snapshot(), Timer::new(c).snapshot());
    assert_eq!(t.config(), cfg(1, 40, CycleSetting::Finite(7)));
}

#[test]
fn set_config_while_paused_keeps_the_session() {
    let mut t = running(10, 5, CycleSetting::Infinite);
    t.tick(13);
    t.pause();
    t.set_config(cfg(20, 0, CycleSetting::Finite(0)));
    let s = t.snapshot();
    assert_eq!(s.status, Status::Paused);
    assert_eq!(s.phase, Phase::Break);
    assert_eq!(s.remaining_secs, 2);
    assert_eq!(s.work_secs, 20);
    assert_eq!(s.break_secs, 1);
    assert_eq!(s.total_sets, Some(1));
}

#[test]
fn tick_does_nothing_unless_running() {
    let mut t = running(10, 5, CycleSetting::Infinite);
    t.tick(3);
    t.pause();
    let before = t.snapshot();
    assert!(t.tick(u32::MAX).is_empty());
    assert_eq!(t.snapshot(), before);
}

#[test]
fn infinite_long_batch_never_finishes() {
    let mut t = running(1, 1, CycleSetting::Infinite);
    let events = t.tick(10_000);
    assert_eq!(events.len(), 10_000);
    assert!(!events.contains(&TimerEvent::SessionFinished));
    assert_eq!(t.snapshot().status, Status::Running);
    assert_eq!(t.snapshot().set_index, 5_000);
}

#[test]
fn finite_runs_its_sets_and_stops() {
    let mut t = running(2, 3, CycleSetting::Finite(3));
    let two_sets = t.tick(2 * 5);
    assert_eq!(
        two_sets,
        vec![
            TimerEvent::WorkEnded,
            TimerEvent::BreakEnded,
            TimerEvent::WorkEnded,
            TimerEvent::BreakEnded,
        ]
    );
    let s = t.snapshot();
    assert_eq!((s.status, s.phase, s.set_index, s.remaining_secs), (Status::Running, Phase::Work, 2, 2));
    let last = t.tick(5);
    assert_eq!(last, vec![TimerEvent::WorkEnded, TimerEvent::BreakEnded, TimerEvent::SessionFinished]);
    assert_eq!(t.snapshot(), Timer::new(cfg(2, 3, CycleSetting::Finite(3))).snapshot());
}

#[test]
fn zero_and_one_cycles_give_the_same_run() {
    let mut zero = running(3, 2, CycleSetting::Finite(0));
    let mut one = running(3, 2, CycleSetting::Finite(1));
    for secs in [1u32, 2, 3, 4, 0, 7] {
        assert_eq!(zero.tick(secs), one.tick(secs));
        assert_eq!(zero.snapshot(), one.snapshot());
    }
}

#[test]
fn start_begins_a_new_session_from_idle() {
    let mut t = Timer::new(cfg(4, 2, CycleSetting::Finite(2)));
    t.start();
    let s = t.snapshot();
    assert_eq!((s.status, s.phase, s.set_index, s.remaining_secs), (Status::Running, Phase::Work, 0, 4));
}

#[test]
fn tick_elapsed_with_no_whole_second_changes_nothing() {
    let mut t = running(10, 5, CycleSetting::Infinite);
    let before = t.snapshot();
    let (used, mark, events) = tick_elapsed(&mut t, 1_000, 1_000 + NANOS_PER_SEC - 1);
    assert_eq!(used, 0);
    assert_eq!(mark, 1_000);
    assert!(events.is_empty());
    assert_eq!(t.snapshot(), before);
}

#[test]
fn tick_elapsed_hands_over_whole_seconds_and_carries_the_fraction() {
    let mut t = running(10, 5, CycleSetting::Infinite);
    let (used, mark, events) = tick_elapsed(&mut t, 7, 7 + 12 * NANOS_PER_SEC + 999);
    assert_eq!(used, 12);
    assert_eq!(mark, 7 + 12 * NANOS_PER_SEC);
    assert_eq!(events, vec![TimerEvent::WorkEnded]);
    assert_eq!(t.snapshot().remaining_secs, 3);
}

#[test]
fn tick_elapsed_saturates_a_huge_gap() {
    let mut t = running(10, 5, CycleSetting::Finite(1));
    let (used, mark, events) = tick_elapsed(&mut t, 0, u64::MAX);
    assert_eq!(used, u32::MAX);
    assert_eq!(mark, (u32::MAX as u64) * NANOS_PER_SEC);
    assert_eq!(events, vec![TimerEvent::WorkEnded, TimerEvent::BreakEnded, TimerEvent::SessionFinished]);
    assert_eq!(t.snapshot().status, Status::Idle);
}

#[test]
fn advance_mark_ignores_a_clock_reading_before_the_mark() {
    assert_eq!(advance_mark(5_000_000_000, 3), (0, 5_000_000_000));
    assert_eq!(advance_mark(5, 2_500_000_007), (2, 2_000_000_005));
}

#[test]
fn rounds_of_the_clock_do_not_drift() {
    let mut mark = 0u64;
    let mut total = 0u64;
    for now in [300_000_000u64, 1_200_000_000, 1_900_000_000, 2_000_000_000, 5_700_000_001] {
        let (secs, next) = advance_mark(mark, now);
        total += secs as u64;
        mark = next;
    }
    assert_eq!(total, 5);
    assert_eq!(mark, 5 * NANOS_PER_SEC);
}

#[test]
fn sanitized_twice_is_sanitized_once() {
    let s = AppSettings {
        work_secs: 5,
        break_secs: 1_000_000,
        cycles_infinite: false,
        cycles_count: 500,
        size: SizePreset::Small,
        corner: Corner::BottomRight,
    };
    let once = s.sanitized();
    assert_eq!(once.sanitized(), once);
    assert_eq!(once.work_secs, MIN_PHASE_SECS);
    assert_eq!(once.break_secs, MAX_PHASE_SECS);
    assert_eq!(once.cycles_count, MAX_CYCLES);
    assert_eq!(once.size, SizePreset::Small);
    assert_eq!(once.corner, Corner::BottomRight);
}

#[test]
fn sanitized_keeps_settings_in_bounds() {
    let s = AppSettings {
        work_secs: 1800,
        break_secs: 600,
        cycles_infinite: false,
        cycles_count: 4,
        size: SizePreset::Large,
        corner: Corner::BottomLeft,
    };
    assert_eq!(s.sanitized(), s);
    let edge = AppSettings { work_secs: MIN_PHASE_SECS, break_secs: MAX_PHASE_SECS, cycles_count: MAX_CYCLES, ..s };
    assert_eq!(edge.sanitized(), edge);
}

#[test]
fn sanitized_settings_reach_the_timer_unchanged() {
    let s = AppSettings { work_secs: 0, break_secs: 0, cycles_count: 3, ..Default::default() }.sanitized();
    let c = s.to_config();
    assert_eq!(Timer::new(c).config(), c);
    assert_eq!(c, Config { work_secs: 60, break_secs: 60, cycles: CycleSetting::Finite(3) });
}

#[test]
fn default_settings_stand_for_the_default_config() {
    assert_eq!(AppSettings::default().to_config(), Config::default());
}

#[test]
fn snapshot_shows_zero_cycles_as_one_set() {
    let t = Timer::new(cfg(1, 1, CycleSetting::Finite(0)));
    assert_eq!(t.snapshot().total_sets, Some(1));
    assert_eq!(t.config().cycles, CycleSetting::Finite(0));
}
