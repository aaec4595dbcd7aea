//! The break scheduler: a state machine over [`BreakSettings`],
//! [`BreakState`] and [`SchedulerState`].
//!
//! The scheduler is a plain owned record; the host layer is expected to wrap
//! it in whatever mutual-exclusion primitive it needs and to supply the
//! current wall-clock time (milliseconds since the epoch) to every operation
//! that schedules.  A background poll loop in the host layer calls
//! [`BreakScheduler::poll_tick`] on a fixed cadence and presents a break
//! whenever the returned decision says to.

use vstd::prelude::*;

use crate::models::BreakSettings;
use crate::models::BreakState;
use crate::models::BreakType;
use crate::models::SchedulerState;
use crate::models::SettingsError;
use crate::models::initial_break_state;
use crate::models::settings_valid;
use crate::models::spec_validate;

verus! {

/// The longest wait any schedule can ask for: 60 minutes in milliseconds.
/// Timestamps this close to `u64::MAX` cannot be scheduled from.
pub const MAX_INTERVAL_MS: u64 = 3600000;

/// A postponed break is re-scheduled this long after the postpone call:
/// 5 minutes in milliseconds.
pub const POSTPONE_DELAY_MS: u64 = 300000;

/// A break is considered due once no more than this many milliseconds remain
/// until its scheduled time; this equals the poll cadence.
pub const TRIGGER_WINDOW_MS: u64 = 500;

/// The kind of the next break to schedule, given how many microbreaks have
/// passed since the last longbreak and the configured threshold.  The next
/// break is a longbreak as soon as the counter's successor reaches the
/// threshold, so the decision is made one completion ahead of the naive
/// "after N microbreaks" reading.
pub open spec fn spec_next_break_type(since_longbreak: u32, longbreak_interval: u32) -> BreakType {
    if since_longbreak + 1 >= longbreak_interval {
        BreakType::Longbreak
    } else {
        BreakType::Microbreak
    }
}

/// Milliseconds until a break of kind `bt` becomes due under `settings`.
/// A microbreak waits its configured interval; a longbreak's wait reuses the
/// longbreak duration field, which doubles as its interval.
pub open spec fn spec_interval_ms(settings: BreakSettings, bt: BreakType) -> int {
    match bt {
        BreakType::Microbreak => settings.microbreak_interval_minutes * 60 * 1000,
        BreakType::Longbreak => settings.longbreak_duration_minutes * 60 * 1000,
    }
}

/// The schedule computed at time `now_ms` for the break that follows `state`
/// under `settings`: the rotation picks the kind, and the due time is
/// `now_ms` plus that kind's interval.
pub open spec fn spec_schedule(settings: BreakSettings, state: BreakState, now_ms: u64) -> SchedulerState {
    let bt = spec_next_break_type(state.microbreaks_since_longbreak, settings.longbreak_interval_microbreaks);
    let interval = spec_interval_ms(settings, bt);
    SchedulerState {
        scheduled_break_time: Some((now_ms + interval) as u64),
        current_break_type: Some(bt),
        time_left_ms: Some(interval as u64),
    }
}

/// Milliseconds remaining at `now_ms` before the due time `scheduled_ms`;
/// zero once the due time has passed.
pub open spec fn spec_time_until(scheduled_ms: u64, now_ms: u64) -> u64 {
    if scheduled_ms >= now_ms {
        (scheduled_ms - now_ms) as u64
    } else {
        0
    }
}

/// What one poll cycle decides: whether to present the break now, and the
/// trigger flag the next cycle should carry.
#[derive(Debug, Clone, Copy, PartialEq, Eq, Structural)]
pub struct TickDecision {
    /// Present the upcoming break to the user now.
    pub trigger: bool,
    /// Whether the current schedule has already had its break presented;
    /// carried from cycle to cycle so a due break is presented exactly once.
    pub already_triggered: bool,
    /// Milliseconds left until the scheduled time, when one exists and the
    /// scheduler is not paused.
    pub time_left_ms: Option<u64>,
}

/// The decision one poll cycle takes at time `now_ms`.  While paused, or
/// while nothing is scheduled, nothing happens and the trigger flag is left
/// as it was.  Otherwise the break is presented exactly when it is due
/// (within [`TRIGGER_WINDOW_MS`]) and was not already presented for this
/// schedule; once the remaining time rises back above the window — which
/// only a fresh schedule can cause — the flag resets.
pub open spec fn spec_poll(state: BreakState, sched: SchedulerState, now_ms: u64, already_triggered: bool) -> TickDecision {
    if state.is_paused {
        TickDecision { trigger: false, already_triggered, time_left_ms: None }
    } else {
        match sched.scheduled_break_time {
            Some(t) => {
                let left = spec_time_until(t, now_ms);
                if left <= TRIGGER_WINDOW_MS && !already_triggered {
                    TickDecision { trigger: true, already_triggered: true, time_left_ms: Some(left) }
                } else if left > TRIGGER_WINDOW_MS {
                    TickDecision { trigger: false, already_triggered: false, time_left_ms: Some(left) }
                } else {
                    TickDecision { trigger: false, already_triggered, time_left_ms: Some(left) }
                }
            },
            None => TickDecision { trigger: false, already_triggered, time_left_ms: None },
        }
    }
}

/// Break-type rotation: from a rotation counter of `since_longbreak` under a
/// threshold of `longbreak_interval`, the next scheduled break is a longbreak
/// exactly when `since_longbreak + 1` reaches the threshold, and a microbreak
/// otherwise.  The schedule computed by [`spec_schedule`] picks its kind the
/// same way, whatever the time and the rest of the state.
pub proof fn lemma_break_type_rotation(settings: BreakSettings, state: BreakState, now_ms: u64)
    ensures
        (spec_next_break_type(state.microbreaks_since_longbreak, settings.longbreak_interval_microbreaks)
            == BreakType::Longbreak)
            <==> state.microbreaks_since_longbreak + 1 >= settings.longbreak_interval_microbreaks,
        (spec_next_break_type(state.microbreaks_since_longbreak, settings.longbreak_interval_microbreaks)
            == BreakType::Microbreak)
            <==> state.microbreaks_since_longbreak + 1 < settings.longbreak_interval_microbreaks,
        spec_schedule(settings, state, now_ms).current_break_type
            == Some(spec_next_break_type(state.microbreaks_since_longbreak, settings.longbreak_interval_microbreaks)),
{
}

/// Pausing suspends triggering: while `is_paused` holds, a poll cycle never
/// asks for the break to be presented — even when the scheduled time already
/// lies in the past — and leaves the trigger flag as it was.
pub proof fn lemma_pause_suppresses_trigger(state: BreakState, sched: SchedulerState, now_ms: u64, already_triggered: bool)
    requires
        state.is_paused,
    ensures
        !spec_poll(state, sched, now_ms, already_triggered).trigger,
        spec_poll(state, sched, now_ms, already_triggered).already_triggered == already_triggered,
{
}

/// A poll cycle asks for the break to be presented only when the scheduler
/// is not paused, a break is actually scheduled, its due time is within the
/// trigger window of `now_ms`, and no cycle has already presented it.
pub proof fn lemma_trigger_only_when_due(state: BreakState, sched: SchedulerState, now_ms: u64, already_triggered: bool)
    ensures
        spec_poll(state, sched, now_ms, already_triggered).trigger ==> {
            &&& !state.is_paused
            &&& sched.scheduled_break_time is Some
            &&& spec_time_until(sched.scheduled_break_time->0, now_ms) <= TRIGGER_WINDOW_MS
            &&& !already_triggered
        },
{
}

/// Owns the settings, the break-cycle progress, and the live schedule, and
/// carries out every command of the break-reminder engine.
#[derive(Debug, Clone, Copy, PartialEq, Eq, Structural)]
pub struct BreakScheduler {
    pub settings: BreakSettings,
    pub state: BreakState,
    pub scheduler_state: SchedulerState,
}

impl BreakScheduler {
    /// Every stored settings field is inside its valid range.  Established at
    /// construction and preserved by every operation; settings updates only
    /// accept validated values.
    pub open spec fn wf(self) -> bool {
        settings_valid(self.settings)
    }

    /// Builds a scheduler over `settings` and immediately schedules the first
    /// break from time `now_ms`.
    pub fn new(settings: BreakSettings, now_ms: u64) -> (s: Self)
        requires
            settings_valid(settings),
            now_ms + MAX_INTERVAL_MS <= u64::MAX,
        ensures
            s.wf(),
            s.settings == settings,
            s.state == initial_break_state(),
            s.scheduler_state == spec_schedule(settings, initial_break_state(), now_ms),
    {
        let mut s = BreakScheduler {
            settings,
            state: BreakState::default(),
            scheduler_state: SchedulerState::default(),
        };
        s.schedule_next_break(now_ms);
        s
    }

    /// Computes a fresh schedule from time `now_ms`: the rotation picks the
    /// next break's kind and the due time is that kind's interval from now.
    /// Settings and break-cycle progress are untouched; any prior schedule is
    /// fully replaced.
    pub fn schedule_next_break(&mut self, now_ms: u64)
        requires
            old(self).wf(),
            now_ms + MAX_INTERVAL_MS <= u64::MAX,
        ensures
            final(self).wf(),
            final(self).settings == old(self).settings,
            final(self).state == old(self).state,
            final(self).scheduler_state == spec_schedule(old(self).settings, old(self).state, now_ms),
    {
        let break_type = if (self.state.microbreaks_since_longbreak as u64) + 1
            >= self.settings.longbreak_interval_microbreaks as u64 {
            BreakType::Longbreak
        } else {
            BreakType::Microbreak
        };

        let interval_ms: u64 = match break_type {
            BreakType::Microbreak => (self.settings.microbreak_interval_minutes as u64) * 60 * 1000,
            BreakType::Longbreak => (self.settings.longbreak_duration_minutes as u64) * 60 * 1000,
        };

        self.scheduler_state = SchedulerState {
            scheduled_break_time: Some(now_ms + interval_ms),
            current_break_type: Some(break_type),
            time_left_ms: Some(interval_ms),
        };
    }

    /// Marks a break as being shown.  Idempotent; counters and the schedule
    /// are untouched.
    pub fn start_break(&mut self)
        ensures
            final(self).settings == old(self).settings,
            final(self).scheduler_state == old(self).scheduler_state,
            final(self).state == (BreakState { is_break_active: true, ..old(self).state }),
            old(self).wf() ==> final(self).wf(),
    {
        self.state.is_break_active = true;
    }

    /// Suspends break triggering; the schedule itself is preserved.
    pub fn pause(&mut self)
        ensures
            final(self).settings == old(self).settings,
            final(self).scheduler_state == old(self).scheduler_state,
            final(self).state == (BreakState { is_paused: true, ..old(self).state }),
            old(self).wf() ==> final(self).wf(),
    {
        self.state.is_paused = true;
    }

    /// Resumes break triggering.  The schedule is neither recomputed nor
    /// extended: a due time that passed while paused is reported due on the
    /// very next poll.
    pub fn resume(&mut self)
        ensures
            final(self).settings == old(self).settings,
            final(self).scheduler_state == old(self).scheduler_state,
            final(self).state == (BreakState { is_paused: false, ..old(self).state }),
            old(self).wf() ==> final(self).wf(),
    {
        self.state.is_paused = false;
    }

    /// Dismisses the current break without completing it: clears the active
    /// flag and break kind, counts the skip, and schedules the next break
    /// from `now_ms`.  The rotation counter is deliberately untouched, so a
    /// skipped microbreak still counts toward the longbreak threshold.
    pub fn skip_break(&mut self, now_ms: u64)
        requires
            old(self).wf(),
            old(self).state.skip_count < u32::MAX,
            now_ms + MAX_INTERVAL_MS <= u64::MAX,
        ensures
            final(self).wf(),
            final(self).settings == old(self).settings,
            final(self).state == (BreakState {
                is_break_active: false,
                break_type: None,
                skip_count: (old(self).state.skip_count + 1) as u32,
                ..old(self).state
            }),
            final(self).scheduler_state == spec_schedule(old(self).settings, final(self).state, now_ms),
    {
        self.state.is_break_active = false;
        self.state.break_type = None;
        self.state.skip_count = self.state.skip_count + 1;
        self.schedule_next_break(now_ms);
    }

    /// Pushes the upcoming break back: counts the postpone and moves the due
    /// time to exactly `now_ms` plus [`POSTPONE_DELAY_MS`], irrespective of
    /// the break's kind or of how much time remained.  The upcoming break's
    /// kind and the informational duration snapshot are untouched.
    pub fn postpone_break(&mut self, now_ms: u64)
        requires
            old(self).state.postpone_count < u32::MAX,
            now_ms + POSTPONE_DELAY_MS <= u64::MAX,
        ensures
            final(self).settings == old(self).settings,
            final(self).state == (BreakState {
                postpone_count: (old(self).state.postpone_count + 1) as u32,
                ..old(self).state
            }),
            final(self).scheduler_state == (SchedulerState {
                scheduled_break_time: Some((now_ms + POSTPONE_DELAY_MS) as u64),
                ..old(self).scheduler_state
            }),
            old(self).wf() ==> final(self).wf(),
    {
        self.state.postpone_count = self.state.postpone_count + 1;
        self.scheduler_state.scheduled_break_time = Some(now_ms + POSTPONE_DELAY_MS);
    }

    /// Finishes the current break: clears the active flag and break kind,
    /// counts the completion, advances the rotation — resetting the
    /// microbreak counter when its successor reached the longbreak threshold
    /// and incrementing it otherwise — and schedules the next break from
    /// `now_ms` using the advanced counter.
    pub fn complete_break(&mut self, now_ms: u64)
        requires
            old(self).wf(),
            old(self).state.break_number < u32::MAX,
            now_ms + MAX_INTERVAL_MS <= u64::MAX,
        ensures
            final(self).wf(),
            final(self).settings == old(self).settings,
            final(self).state == (BreakState {
                is_break_active: false,
                break_type: None,
                break_number: (old(self).state.break_number + 1) as u32,
                microbreaks_since_longbreak: (
                    if old(self).state.microbreaks_since_longbreak + 1
                        >= old(self).settings.longbreak_interval_microbreaks {
                        0
                    } else {
                        (old(self).state.microbreaks_since_longbreak + 1) as u32
                    }),
                ..old(self).state
            }),
            final(self).scheduler_state == spec_schedule(old(self).settings, final(self).state, now_ms),
    {
        self.state.is_break_active = false;
        self.state.break_type = None;
        self.state.break_number = self.state.break_number + 1;

        if (self.state.microbreaks_since_longbreak as u64) + 1
            >= self.settings.longbreak_interval_microbreaks as u64 {
            self.state.microbreaks_since_longbreak = 0;
        } else {
            self.state.microbreaks_since_longbreak = self.state.microbreaks_since_longbreak + 1;
        }

        self.schedule_next_break(now_ms);
    }

    /// Applies freshly changed settings to the schedule.  While a break is
    /// active the call is a no-op — an in-progress break is never interrupted
    /// to apply new timing; the next completion reschedules.  Otherwise the
    /// old schedule is discarded and recomputed from `now_ms`.
    pub fn reschedule_with_new_settings(&mut self, now_ms: u64)
        requires
            old(self).wf(),
            now_ms + MAX_INTERVAL_MS <= u64::MAX,
        ensures
            final(self).wf(),
            old(self).state.is_break_active ==> *final(self) == *old(self),
            !old(self).state.is_break_active ==> {
                &&& final(self).settings == old(self).settings
                &&& final(self).state == old(self).state
                &&& final(self).scheduler_state == spec_schedule(old(self).settings, old(self).state, now_ms)
            },
    {
        if self.state.is_break_active {
            return;
        }
        self.scheduler_state = SchedulerState {
            scheduled_break_time: None,
            current_break_type: None,
            time_left_ms: None,
        };
        self.schedule_next_break(now_ms);
    }

    /// Replaces the settings after validating every field.  A value out of
    /// range leaves both the settings and the schedule exactly as they were
    /// and reports which field was rejected.  A valid replacement is stored
    /// and the schedule is immediately recomputed from `now_ms` under the new
    /// settings — unless a break is active, in which case the old schedule
    /// persists until that break completes.
    pub fn update_settings(&mut self, new_settings: BreakSettings, now_ms: u64) -> (r: Result<BreakSettings, SettingsError>)
        requires
            now_ms + MAX_INTERVAL_MS <= u64::MAX,
        ensures
            final(self).state == old(self).state,
            settings_valid(new_settings) ==> {
                &&& r == Ok::<BreakSettings, SettingsError>(new_settings)
                &&& final(self).wf()
                &&& final(self).settings == new_settings
                &&& (old(self).state.is_break_active
                    ==> final(self).scheduler_state == old(self).scheduler_state)
                &&& (!old(self).state.is_break_active
                    ==> final(self).scheduler_state == spec_schedule(new_settings, old(self).state, now_ms))
            },
            !settings_valid(new_settings) ==> {
                &&& r == Err::<BreakSettings, SettingsError>(spec_validate(new_settings)->Err_0)
                &&& *final(self) == *old(self)
            },
    {
        match new_settings.validate() {
            Err(e) => Err(e),
            Ok(()) => {
                self.settings = new_settings;
                self.reschedule_with_new_settings(now_ms);
                Ok(new_settings)
            },
        }
    }

    /// The decision the poll loop takes at time `now_ms`, carrying
    /// `already_triggered` from the previous cycle.  Reads only; the caller
    /// presents the break when the decision says to and carries the returned
    /// flag into the next cycle.
    pub fn poll_tick(&self, now_ms: u64, already_triggered: bool) -> (d: TickDecision)
        ensures
            d == spec_poll(self.state, self.scheduler_state, now_ms, already_triggered),
    {
        if self.state.is_paused {
            return TickDecision { trigger: false, already_triggered, time_left_ms: None };
        }
        match self.scheduler_state.scheduled_break_time {
            Some(t) => {
                let left: u64 = if t >= now_ms {
                    t - now_ms
                } else {
                    0
                };
                if left <= TRIGGER_WINDOW_MS && !already_triggered {
                    TickDecision { trigger: true, already_triggered: true, time_left_ms: Some(left) }
                } else if left > TRIGGER_WINDOW_MS {
                    TickDecision { trigger: false, already_triggered: false, time_left_ms: Some(left) }
                } else {
                    TickDecision { trigger: false, already_triggered, time_left_ms: Some(left) }
                }
            },
            None => TickDecision { trigger: false, already_triggered, time_left_ms: None },
        }
    }

    /// Snapshot of the break-cycle progress; mutates nothing.
    pub fn get_state(&self) -> (s: BreakState)
        ensures
            s == self.state,
    {
        self.state
    }

    /// Snapshot of the live schedule; mutates nothing.
    pub fn get_scheduler_state(&self) -> (s: SchedulerState)
        ensures
            s == self.scheduler_state,
    {
        self.scheduler_state
    }

    /// Snapshot of the current settings; mutates nothing.
    pub fn get_settings(&self) -> (s: BreakSettings)
        ensures
            s == self.settings,
    {
        self.settings
    }
}

} // verus!
