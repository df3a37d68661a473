use simpomo::layout::{Corner, SizePreset};
use simpomo::settings::{AppSettings, MAX_CYCLES, MAX_PHASE_SECS, MIN_PHASE_SECS};
use simpomo::timer::CycleSetting;

#[test]
fn default_is_25_5_and_finite_zero() {
    let s = AppSettings::default();
    assert_eq!(s.work_secs, 1500);
    assert_eq!(s.break_secs, 300);
    assert!(!s.cycles_infinite);
    assert_eq!(s.cycles_count, 0);
    assert_eq!(s.size, SizePreset::Medium);
    assert_eq!(s.corner, Corner::TopRight);
}

#[test]
fn to_config_maps_finite_cycles() {
    let s = AppSettings {
        cycles_infinite: false,
        cycles_count: 4,
        ..Default::default()
    };
    assert_eq!(s.to_config().cycles, CycleSetting::Finite(4));
}

#[test]
fn to_config_infinite_ignores_count() {
    let s = AppSettings {
        cycles_infinite: true,
        cycles_count: 9,
        ..Default::default()
    };
    assert_eq!(s.to_config().cycles, CycleSetting::Infinite);
}

#[test]
fn sanitized_clamps_phase_and_normalizes_infinite() {
    let s = AppSettings {
        work_secs: 0,
        break_secs: 999_999,
        cycles_infinite: true,
        cycles_count: 50,
        ..Default::default()
    }
    .sanitized();
    assert_eq!(s.work_secs, MIN_PHASE_SECS);
    assert_eq!(s.break_secs, MAX_PHASE_SECS);
    assert_eq!(s.cycles_count, 0); // 無限のとき 0 に正規化
}

#[test]
fn sanitized_caps_cycles_count() {
    let s = AppSettings {
        cycles_infinite: false,
        cycles_count: 1000,
        ..Default::default()
    }
    .sanitized();
    assert_eq!(s.cycles_count, MAX_CYCLES);
}
