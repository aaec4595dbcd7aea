//! The scheduler's data model: user settings, break-cycle progress, and the
//! live schedule, together with settings validation.

use vstd::prelude::*;

verus! {

/// User-tunable configuration.  Every field has a valid range, checked by
/// [`BreakSettings::validate`]; the scheduler only ever holds settings inside
/// those ranges.
#[derive(Debug, Clone, Copy, PartialEq, Eq, Structural)]
pub struct BreakSettings {
    /// Minutes of work between two microbreaks, in `[1, 60]`.
    pub microbreak_interval_minutes: u32,
    /// Length of a microbreak in seconds, in `[5, 300]`.
    pub microbreak_duration_seconds: u32,
    /// How many microbreaks elapse before a longbreak, in `[1, 10]`.
    pub longbreak_interval_microbreaks: u32,
    /// Length of a longbreak in minutes, in `[1, 60]`; this same value also
    /// drives the wait before a scheduled longbreak becomes due.
    pub longbreak_duration_minutes: u32,
    /// Presentation hint for the host layer; scheduling ignores it.
    pub fullscreen_breaks: bool,
}

/// The kind of rest prompt.
#[derive(Debug, Clone, Copy, PartialEq, Eq, Structural)]
pub enum BreakType {
    Microbreak,
    Longbreak,
}

/// Cumulative break-cycle progress: which break (if any) is being shown, and
/// the session's counters.
#[derive(Debug, Clone, Copy, PartialEq, Eq, Structural)]
pub struct BreakState {
    /// Set while a break is being presented; cleared on skip or complete.
    pub break_type: Option<BreakType>,
    /// Count of completed breaks.
    pub break_number: u32,
    /// Microbreaks completed since the last longbreak.
    pub microbreaks_since_longbreak: u32,
    /// While true, polling must not trigger breaks.
    pub is_paused: bool,
    /// True exactly while a break prompt is being shown.
    pub is_break_active: bool,
    /// Cumulative count of postponed breaks; never reset.
    pub postpone_count: u32,
    /// Cumulative count of skipped breaks; never reset.
    pub skip_count: u32,
}

/// The live timing projection: when the next break is due and of what kind.
#[derive(Debug, Clone, Copy, PartialEq, Eq, Structural)]
pub struct SchedulerState {
    /// Absolute time (milliseconds since the epoch) at which the next break
    /// becomes due.
    pub scheduled_break_time: Option<u64>,
    /// The kind chosen for the upcoming, not yet active, break.
    pub current_break_type: Option<BreakType>,
    /// Duration snapshot taken when the schedule was computed; informational
    /// and possibly stale.
    pub time_left_ms: Option<u64>,
}

/// Why a settings update was rejected: the one field that was first found out
/// of range.
#[derive(Debug, Clone, Copy, PartialEq, Eq, Structural)]
pub enum SettingsError {
    MicrobreakIntervalOutOfRange,
    MicrobreakDurationOutOfRange,
    LongbreakIntervalOutOfRange,
    LongbreakDurationOutOfRange,
}

/// Every field of `s` lies inside its valid range.
pub open spec fn settings_valid(s: BreakSettings) -> bool {
    &&& 1 <= s.microbreak_interval_minutes <= 60
    &&& 5 <= s.microbreak_duration_seconds <= 300
    &&& 1 <= s.longbreak_interval_microbreaks <= 10
    &&& 1 <= s.longbreak_duration_minutes <= 60
}

/// The outcome of validating `s`: `Ok` when every field is in range, else the
/// error for the first field out of range, in field order.
pub open spec fn spec_validate(s: BreakSettings) -> Result<(), SettingsError> {
    if s.microbreak_interval_minutes < 1 || s.microbreak_interval_minutes > 60 {
        Err(SettingsError::MicrobreakIntervalOutOfRange)
    } else if s.microbreak_duration_seconds < 5 || s.microbreak_duration_seconds > 300 {
        Err(SettingsError::MicrobreakDurationOutOfRange)
    } else if s.longbreak_interval_microbreaks < 1 || s.longbreak_interval_microbreaks > 10 {
        Err(SettingsError::LongbreakIntervalOutOfRange)
    } else if s.longbreak_duration_minutes < 1 || s.longbreak_duration_minutes > 60 {
        Err(SettingsError::LongbreakDurationOutOfRange)
    } else {
        Ok(())
    }
}

/// The settings a fresh installation starts with.
pub open spec fn default_settings() -> BreakSettings {
    BreakSettings {
        microbreak_interval_minutes: 20,
        microbreak_duration_seconds: 20,
        longbreak_interval_microbreaks: 4,
        longbreak_duration_minutes: 5,
        fullscreen_breaks: false,
    }
}

/// The all-clear state a scheduler starts in: no break shown, every counter
/// zero, not paused.
pub open spec fn initial_break_state() -> BreakState {
    BreakState {
        break_type: None,
        break_number: 0,
        microbreaks_since_longbreak: 0,
        is_paused: false,
        is_break_active: false,
        postpone_count: 0,
        skip_count: 0,
    }
}

impl BreakSettings {
    /// Checks every field against its valid range; reports the first field
    /// found out of range.
    pub fn validate(&self) -> (r: Result<(), SettingsError>)
        ensures
            r == spec_validate(*self),
            r is Ok <==> settings_valid(*self),
    {
        if self.microbreak_interval_minutes < 1 || self.microbreak_interval_minutes > 60 {
            Err(SettingsError::MicrobreakIntervalOutOfRange)
        } else if self.microbreak_duration_seconds < 5 || self.microbreak_duration_seconds > 300 {
            Err(SettingsError::MicrobreakDurationOutOfRange)
        } else if self.longbreak_interval_microbreaks < 1 || self.longbreak_interval_microbreaks > 10 {
            Err(SettingsError::LongbreakIntervalOutOfRange)
        } else if self.longbreak_duration_minutes < 1 || self.longbreak_duration_minutes > 60 {
            Err(SettingsError::LongbreakDurationOutOfRange)
        } else {
            Ok(())
        }
    }
}

impl Default for BreakSettings {
    /// 20-minute microbreak interval, 20-second microbreaks, a longbreak
    /// every 4 microbreaks, 5-minute longbreaks, windowed presentation.
    fn default() -> (s: Self)
        ensures
            s == default_settings(),
            settings_valid(s),
    {
        BreakSettings {
            microbreak_interval_minutes: 20,
            microbreak_duration_seconds: 20,
            longbreak_interval_microbreaks: 4,
            longbreak_duration_minutes: 5,
            fullscreen_breaks: false,
        }
    }
}

impl Default for BreakState {
    fn default() -> (s: Self)
        ensures
            s == initial_break_state(),
    {
        BreakState {
            break_type: None,
            break_number: 0,
            microbreaks_since_longbreak: 0,
            is_paused: false,
            is_break_active: false,
            postpone_count: 0,
            skip_count: 0,
        }
    }
}

impl Default for SchedulerState {
    fn default() -> (s: Self)
        ensures
            s == (SchedulerState {
                scheduled_break_time: None,
                current_break_type: None,
                time_left_ms: None,
            }),
    {
        SchedulerState { scheduled_break_time: None, current_break_type: None, time_left_ms: None }
    }
}

impl SettingsError {
    /// A human-readable description naming the offending field and its valid
    /// range.
    pub fn message(&self) -> (m: &'static str)
        ensures
            *self is MicrobreakIntervalOutOfRange ==> m@ == "Invalid microbreak interval: must be 1-60 minutes"@,
            *self is MicrobreakDurationOutOfRange ==> m@ == "Invalid microbreak duration: must be 5-300 seconds"@,
            *self is LongbreakIntervalOutOfRange ==> m@ == "Invalid long break interval: must be 1-10 microbreaks"@,
            *self is LongbreakDurationOutOfRange ==> m@ == "Invalid long break duration: must be 1-60 minutes"@,
    {
        match self {
            SettingsError::MicrobreakIntervalOutOfRange => "Invalid microbreak interval: must be 1-60 minutes",
            SettingsError::MicrobreakDurationOutOfRange => "Invalid microbreak duration: must be 5-300 seconds",
            SettingsError::LongbreakIntervalOutOfRange => "Invalid long break interval: must be 1-10 microbreaks",
            SettingsError::LongbreakDurationOutOfRange => "Invalid long break duration: must be 1-60 minutes",
        }
    }
}

} // verus!
