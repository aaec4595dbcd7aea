use restie::models::{BreakSettings, BreakState, BreakType, SchedulerState};
use restie::scheduler::BreakScheduler;

fn defaults() -> BreakSettings {
    BreakSettings::default()
}

#[test]
fn construction_schedules_first_microbreak() {
    // Defaults: 20 min / 20 s / 4 / 5 min.
    let now = 1_700_000_000_000u64;
    let sched = BreakScheduler::new(defaults(), now);
    let ss = sched.get_scheduler_state();
    assert_eq!(ss.current_break_type, Some(BreakType::Microbreak));
    assert_eq!(ss.scheduled_break_time, Some(now + 20 * 60 * 1000));
    assert_eq!(ss.time_left_ms, Some(20 * 60 * 1000));
    let st = sched.get_state();
    assert_eq!(st, BreakState::default());
}

#[test]
fn snapshots_are_idempotent() {
    let sched = BreakScheduler::new(defaults(), 42_000);
    assert_eq!(sched.get_state(), sched.get_state());
    assert_eq!(sched.get_scheduler_state(), sched.get_scheduler_state());
    assert_eq!(sched.get_settings(), sched.get_settings());
}

#[test]
fn start_break_sets_only_the_active_flag() {
    let mut sched = BreakScheduler::new(defaults(), 0);
    let before_state = sched.get_state();
    let before_schedule = sched.get_scheduler_state();
    sched.start_break();
    let after = sched.get_state();
    assert!(after.is_break_active);
    assert_eq!(BreakState { is_break_active: false, ..after }, before_state);
    assert_eq!(sched.get_scheduler_state(), before_schedule);
    // Idempotent.
    sched.start_break();
    assert_eq!(sched.get_state(), after);
}

#[test]
fn pause_and_resume_toggle_only_the_flag() {
    let mut sched = BreakScheduler::new(defaults(), 0);
    let before_schedule = sched.get_scheduler_state();
    sched.pause();
    assert!(sched.get_state().is_paused);
    assert_eq!(sched.get_scheduler_state(), before_schedule);
    sched.resume();
    assert!(!sched.get_state().is_paused);
    assert_eq!(sched.get_scheduler_state(), before_schedule);
}

#[test]
fn complete_break_advances_counters_and_reschedules() {
    let mut sched = BreakScheduler::new(defaults(), 0);
    sched.start_break();
    sched.complete_break(1_200_000);
    let st = sched.get_state();
    assert_eq!(st.break_number, 1);
    assert_eq!(st.microbreaks_since_longbreak, 1);
    assert!(!st.is_break_active);
    assert_eq!(st.break_type, None);
    let ss = sched.get_scheduler_state();
    assert_eq!(ss.current_break_type, Some(BreakType::Microbreak));
    assert_eq!(ss.scheduled_break_time, Some(1_200_000 + 20 * 60 * 1000));
}

#[test]
fn four_completions_rotate_through_a_longbreak() {
    // Longbreak every 4 microbreaks.  The rotation looks one completion
    // ahead, so the break scheduled after the 3rd completion is already the
    // longbreak (the 4th break of the cycle); completing it as the 4th call
    // resets the counter to 0.
    let mut sched = BreakScheduler::new(defaults(), 0);

    sched.complete_break(1_000);
    assert_eq!(sched.get_state().microbreaks_since_longbreak, 1);
    assert_eq!(sched.get_scheduler_state().current_break_type, Some(BreakType::Microbreak));

    sched.complete_break(2_000);
    assert_eq!(sched.get_state().microbreaks_since_longbreak, 2);
    assert_eq!(sched.get_scheduler_state().current_break_type, Some(BreakType::Microbreak));

    sched.complete_break(3_000);
    assert_eq!(sched.get_state().microbreaks_since_longbreak, 3);
    // 3 + 1 reaches the threshold of 4: the next scheduled break is the longbreak,
    // and its wait is the longbreak duration (5 minutes), not the microbreak interval.
    let ss = sched.get_scheduler_state();
    assert_eq!(ss.current_break_type, Some(BreakType::Longbreak));
    assert_eq!(ss.scheduled_break_time, Some(3_000 + 5 * 60 * 1000));

    sched.complete_break(4_000);
    assert_eq!(sched.get_state().microbreaks_since_longbreak, 0);
    assert_eq!(sched.get_state().break_number, 4);
    assert_eq!(sched.get_scheduler_state().current_break_type, Some(BreakType::Microbreak));
}

#[test]
fn rotation_with_threshold_one_always_schedules_longbreaks() {
    let settings = BreakSettings { longbreak_interval_microbreaks: 1, ..defaults() };
    let mut sched = BreakScheduler::new(settings, 0);
    // 0 + 1 >= 1: even the first scheduled break is a longbreak.
    assert_eq!(sched.get_scheduler_state().current_break_type, Some(BreakType::Longbreak));
    sched.complete_break(500);
    assert_eq!(sched.get_state().microbreaks_since_longbreak, 0);
    assert_eq!(sched.get_scheduler_state().current_break_type, Some(BreakType::Longbreak));
}

#[test]
fn skip_break_counts_but_leaves_rotation_alone() {
    let mut sched = BreakScheduler::new(defaults(), 0);
    sched.complete_break(1_000);
    sched.start_break();
    let before = sched.get_state();
    sched.skip_break(2_000);
    let st = sched.get_state();
    assert_eq!(st.skip_count, before.skip_count + 1);
    assert!(!st.is_break_active);
    assert_eq!(st.break_type, None);
    // A skipped slot still counts toward the longbreak threshold.
    assert_eq!(st.microbreaks_since_longbreak, before.microbreaks_since_longbreak);
    assert_eq!(st.break_number, before.break_number);
    // And the next break is freshly scheduled.
    let ss = sched.get_scheduler_state();
    assert_eq!(ss.scheduled_break_time, Some(2_000 + 20 * 60 * 1000));
}

#[test]
fn postpone_reschedules_exactly_five_minutes_out() {
    // 18 minutes remain on a 20-minute interval; the new time is 5 minutes
    // from the postpone call, not added to the remaining 18.
    let mut sched = BreakScheduler::new(defaults(), 0);
    let at = 2 * 60 * 1000u64; // two minutes in
    sched.postpone_break(at);
    let ss = sched.get_scheduler_state();
    assert_eq!(ss.scheduled_break_time, Some(at + 5 * 60 * 1000));
    assert_eq!(sched.get_state().postpone_count, 1);
    // The upcoming break's kind is untouched.
    assert_eq!(ss.current_break_type, Some(BreakType::Microbreak));
}

#[test]
fn postpone_is_unconditional_for_longbreaks_too() {
    let settings = BreakSettings { longbreak_interval_microbreaks: 1, ..defaults() };
    let mut sched = BreakScheduler::new(settings, 0);
    assert_eq!(sched.get_scheduler_state().current_break_type, Some(BreakType::Longbreak));
    sched.postpone_break(10_000);
    let ss = sched.get_scheduler_state();
    assert_eq!(ss.scheduled_break_time, Some(10_000 + 5 * 60 * 1000));
    assert_eq!(ss.current_break_type, Some(BreakType::Longbreak));
}

#[test]
fn reschedule_with_new_settings_defers_while_break_active() {
    let mut sched = BreakScheduler::new(defaults(), 0);
    sched.start_break();
    let before = sched.get_scheduler_state();
    sched.reschedule_with_new_settings(9_000);
    assert_eq!(sched.get_scheduler_state(), before);

    // Once no break is active, the schedule is recomputed.
    sched.complete_break(10_000);
    sched.reschedule_with_new_settings(20_000);
    let ss = sched.get_scheduler_state();
    assert_eq!(ss.scheduled_break_time, Some(20_000 + 20 * 60 * 1000));
}

#[test]
fn schedule_state_shape_matches_default() {
    let d = SchedulerState::default();
    assert_eq!(d.scheduled_break_time, None);
    assert_eq!(d.current_break_type, None);
    assert_eq!(d.time_left_ms, None);
}
