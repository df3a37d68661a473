//! The persisted application settings and the rules that their values obey.
//!
//! Values are checked here, not by the front end: `sanitized` bounds every
//! field and makes the fields agree, and it runs before a save and before the
//! settings are applied.
use vstd::prelude::*;
use crate::layout::{Corner, SizePreset};
use crate::timer::{Config, CycleSetting, default_config, sanitized_config};

verus! {

/// Shortest phase that the settings allow (1 minute).
pub const MIN_PHASE_SECS: u32 = 60;

/// Longest phase that the settings allow (180 minutes).
pub const MAX_PHASE_SECS: u32 = 180 * 60;

/// Largest number of sets that the settings allow.
pub const MAX_CYCLES: u32 = 99;

/// The persisted application settings.
#[derive(Debug, Clone, Copy, PartialEq, Eq, Structural)]
pub struct AppSettings {
    /// Work phase length in seconds (shown in minutes).
    pub work_secs: u32,
    /// Break phase length in seconds.
    pub break_secs: u32,
    /// Repeat without end. When set, `cycles_count` is ignored and saved as 0.
    pub cycles_infinite: bool,
    /// Sets to run back to back; 0 runs one set (the default). Used when
    /// `cycles_infinite` is not set.
    pub cycles_count: u32,
    pub size: SizePreset,
    pub corner: Corner,
}

/// The default settings: the timer's default lengths, one set, medium size,
/// top right corner.
pub open spec fn default_settings() -> AppSettings {
    AppSettings {
        work_secs: default_config().work_secs,
        break_secs: default_config().break_secs,
        cycles_infinite: false,
        cycles_count: 0,
        size: SizePreset::Medium,
        corner: Corner::TopRight,
    }
}

impl Default for AppSettings {
    fn default() -> (s: Self)
        ensures
            s == default_settings(),
    {
        let c = Config::default();
        AppSettings {
            work_secs: c.work_secs,
            break_secs: c.break_secs,
            cycles_infinite: false,
            cycles_count: 0,
            size: SizePreset::Medium,
            corner: Corner::TopRight,
        }
    }
}

/// `x` brought into `[lo, hi]`.
pub open spec fn clamped(x: u32, lo: u32, hi: u32) -> u32 {
    if x < lo { lo } else if x > hi { hi } else { x }
}

/// The settings with both phases within bounds, the set count capped, and the
/// count zeroed when the cycles are infinite.
pub open spec fn sanitized_settings(s: AppSettings) -> AppSettings {
    AppSettings {
        work_secs: clamped(s.work_secs, MIN_PHASE_SECS, MAX_PHASE_SECS),
        break_secs: clamped(s.break_secs, MIN_PHASE_SECS, MAX_PHASE_SECS),
        cycles_infinite: s.cycles_infinite,
        cycles_count: if s.cycles_infinite {
            0
        } else if s.cycles_count > MAX_CYCLES {
            MAX_CYCLES
        } else {
            s.cycles_count
        },
        size: s.size,
        corner: s.corner,
    }
}

/// The timer config that the settings stand for.
pub open spec fn config_of(s: AppSettings) -> Config {
    Config {
        work_secs: s.work_secs,
        break_secs: s.break_secs,
        cycles: if s.cycles_infinite {
            CycleSetting::Infinite
        } else {
            CycleSetting::Finite(s.cycles_count)
        },
    }
}

impl AppSettings {
    /// The settings with every value within bounds and the fields in agreement.
    pub fn sanitized(self) -> (r: Self)
        ensures
            r == sanitized_settings(self),
    {
        AppSettings {
            work_secs: self.work_secs.max(MIN_PHASE_SECS).min(MAX_PHASE_SECS),
            break_secs: self.break_secs.max(MIN_PHASE_SECS).min(MAX_PHASE_SECS),
            cycles_infinite: self.cycles_infinite,
            // Infinite cycles keep no count, so no meaningless value is saved.
            cycles_count: if self.cycles_infinite {
                0
            } else {
                self.cycles_count.min(MAX_CYCLES)
            },
            size: self.size,
            corner: self.corner,
        }
    }

    /// The timer config that these settings stand for.
    pub fn to_config(self) -> (c: Config)
        ensures
            c == config_of(self),
    {
        Config {
            work_secs: self.work_secs,
            break_secs: self.break_secs,
            cycles: if self.cycles_infinite {
                CycleSetting::Infinite
            } else {
                CycleSetting::Finite(self.cycles_count)
            },
        }
    }
}

/// The defaults: 25 minutes of work (1500 s), 5 of break (300 s), one set,
/// medium size, top right corner; they stand for the timer's default config.
pub proof fn default_values()
    ensures
        default_config() == (Config {
            work_secs: 1500,
            break_secs: 300,
            cycles: CycleSetting::Finite(0),
        }),
        default_settings() == (AppSettings {
            work_secs: 1500,
            break_secs: 300,
            cycles_infinite: false,
            cycles_count: 0,
            size: SizePreset::Medium,
            corner: Corner::TopRight,
        }),
        config_of(default_settings()) == default_config(),
{
}

/// Sanitizing twice changes nothing more than sanitizing once.
pub proof fn sanitized_is_idempotent(s: AppSettings)
    ensures
        sanitized_settings(sanitized_settings(s)) == sanitized_settings(s),
{
}

/// Sanitized settings hold phases within bounds, at most the largest set
/// count, and no count under infinite cycles; they keep the cycle mode, size
/// and corner.
pub proof fn sanitized_is_in_bounds(s: AppSettings)
    ensures
        MIN_PHASE_SECS <= sanitized_settings(s).work_secs <= MAX_PHASE_SECS,
        MIN_PHASE_SECS <= sanitized_settings(s).break_secs <= MAX_PHASE_SECS,
        sanitized_settings(s).cycles_count <= MAX_CYCLES,
        sanitized_settings(s).cycles_infinite ==> sanitized_settings(s).cycles_count == 0,
        sanitized_settings(s).cycles_infinite == s.cycles_infinite,
        sanitized_settings(s).size == s.size,
        sanitized_settings(s).corner == s.corner,
{
}

/// The timer config keeps the saved lengths as they are, and runs without
/// end exactly when infinite cycles are set, else the saved set count.
pub proof fn to_config_keeps_the_saved_values(s: AppSettings)
    ensures
        config_of(s).work_secs == s.work_secs,
        config_of(s).break_secs == s.break_secs,
        s.cycles_infinite ==> config_of(s).cycles == CycleSetting::Infinite,
        !s.cycles_infinite ==> config_of(s).cycles == CycleSetting::Finite(s.cycles_count),
{
}

/// A value out of bounds goes to the nearest bound: a phase below the
/// minimum to the minimum, above the maximum to the maximum, a set count
/// above the maximum to the maximum; a value within bounds is kept.
pub proof fn sanitized_moves_values_to_the_nearest_bound(s: AppSettings)
    ensures
        s.work_secs < MIN_PHASE_SECS ==> sanitized_settings(s).work_secs == MIN_PHASE_SECS,
        s.work_secs > MAX_PHASE_SECS ==> sanitized_settings(s).work_secs == MAX_PHASE_SECS,
        MIN_PHASE_SECS <= s.work_secs <= MAX_PHASE_SECS ==> sanitized_settings(s).work_secs
            == s.work_secs,
        s.break_secs < MIN_PHASE_SECS ==> sanitized_settings(s).break_secs == MIN_PHASE_SECS,
        s.break_secs > MAX_PHASE_SECS ==> sanitized_settings(s).break_secs == MAX_PHASE_SECS,
        MIN_PHASE_SECS <= s.break_secs <= MAX_PHASE_SECS ==> sanitized_settings(s).break_secs
            == s.break_secs,
        !s.cycles_infinite && s.cycles_count > MAX_CYCLES ==> sanitized_settings(s).cycles_count
            == MAX_CYCLES,
        !s.cycles_infinite && s.cycles_count <= MAX_CYCLES ==> sanitized_settings(s).cycles_count
            == s.cycles_count,
{
}

/// Settings within bounds are kept as they are.
pub proof fn sanitized_keeps_valid_settings(s: AppSettings)
    requires
        MIN_PHASE_SECS <= s.work_secs <= MAX_PHASE_SECS,
        MIN_PHASE_SECS <= s.break_secs <= MAX_PHASE_SECS,
        s.cycles_count <= MAX_CYCLES,
        s.cycles_infinite ==> s.cycles_count == 0,
    ensures
        sanitized_settings(s) == s,
{
}

/// The timer runs sanitized settings as they are: its own sanitizing of the
/// config changes nothing.
pub proof fn sanitized_settings_reach_the_timer_unchanged(s: AppSettings)
    ensures
        sanitized_config(config_of(sanitized_settings(s))) == config_of(sanitized_settings(s)),
{
}

} // verus!
