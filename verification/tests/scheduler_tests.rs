//! Tests of the deadline policy, the startup scheduling decision and the
//! background loop's decision table.

use glean_core::scheduler::{
    schedule_internal, scheduler_step, SchedulerMarkers, WaitOutcome, When, SCHEDULED_HOUR,
};
use glean_core::time::Datetime;

fn dt(year: i32, month: u32, day: u32, hour: u32, minute: u32, second: u32) -> Datetime {
    Datetime::new(year, month, day, hour, minute, second).unwrap()
}

// Ensure on first run that we actually set the last sent build marker
// (and that we submit an "overdue" ping if it's after the scheduled hour).
#[test]
fn first_run_last_sent_build() {
    let mut markers = SchedulerMarkers::new();
    assert_eq!(None, markers.last_sent_build);

    let fake_now = dt(2022, 11, 15, SCHEDULED_HOUR, 0, 1);
    let decision = schedule_internal(&mut markers, "a build", &fake_now);

    assert_eq!(Some("overdue"), decision.submit_reason);
    assert_eq!(When::Reschedule, decision.arm);
    assert_eq!(Some("a build".to_string()), markers.last_sent_build);
}

// Ensure that if we have a different build, we immediately submit an
// "upgrade" ping and arm a "reschedule" deadline.
#[test]
fn different_app_builds_submit_and_reschedule() {
    let mut markers = SchedulerMarkers::new();
    markers.last_sent_build = Some("a different build".to_string());

    let decision = schedule_internal(&mut markers, "a build", &dt(2021, 4, 30, 12, 0, 0));

    assert_eq!(Some("upgrade"), decision.submit_reason);
    assert_eq!(When::Reschedule, decision.arm);
    assert_eq!(Some("a build".to_string()), markers.last_sent_build);
}

// If we've already sent a ping today, ensure we don't send a ping but we
// do arm a deadline for tomorrow.
#[test]
fn case_1_no_submit_but_schedule_tomorrow() {
    let mut markers = SchedulerMarkers::new();
    let fake_now = dt(2021, 4, 30, 14, 36, 14);
    markers.last_sent_time = Some(fake_now);

    let decision = schedule_internal(&mut markers, "a build", &fake_now);

    assert!(
        decision.submit_reason.is_none(),
        "Case #1 shouldn't submit a ping! reason: {:?}",
        decision.submit_reason
    );
    assert_eq!(When::Tomorrow, decision.arm);
}

// If we haven't sent a ping today and we're after the scheduled time,
// ensure we send a ping and then arm a "reschedule" deadline.
#[test]
fn case_2_submit_ping_and_reschedule() {
    let mut markers = SchedulerMarkers::new();
    markers.last_sent_time = Some(dt(2021, 4, 29, SCHEDULED_HOUR, 0, 1));
    let fake_now = dt(2021, 4, 30, SCHEDULED_HOUR, 0, 1);

    let decision = schedule_internal(&mut markers, "a build", &fake_now);

    assert_eq!(Some("overdue"), decision.submit_reason);
    assert_eq!(When::Reschedule, decision.arm);
}

// If we haven't sent a ping today and we're before the scheduled time,
// ensure we don't send a ping but arm a "today" deadline.
#[test]
fn case_3_no_submit_but_schedule_today() {
    let mut markers = SchedulerMarkers::new();
    markers.last_sent_time = Some(dt(2021, 4, 29, SCHEDULED_HOUR - 1, 0, 1));
    let fake_now = dt(2021, 4, 30, SCHEDULED_HOUR - 1, 0, 1);

    let decision = schedule_internal(&mut markers, "a build", &fake_now);

    assert!(
        decision.submit_reason.is_none(),
        "Case #3 shouldn't submit a ping! reason: {:?}",
        decision.submit_reason
    );
    assert_eq!(When::Today, decision.arm);
}

// `When` is responsible for date math. Let's make sure it's correct.
#[test]
fn when_gets_at_least_some_date_math_correct() {
    let now = dt(2021, 4, 30, 15, 2, 10);
    // `now` is after the scheduled hour but we should never schedule immediately:
    assert_ne!(0, When::Today.until(&now));
    // If we bring it back before the scheduled hour it should give us the duration:
    let earlier = dt(2021, 4, 30, SCHEDULED_HOUR - 1, 0, 0);
    assert_eq!(3600, When::Today.until(&earlier));

    // `Tomorrow` and `Reschedule` should differ only in their `reason()`.
    // 46670s is 12h57m10s (aka, the time from 15:02:10 to 04:00:00).
    assert_eq!(46670, When::Tomorrow.until(&now));
    assert_eq!(46670, When::Reschedule.until(&now));
    assert_eq!(When::Tomorrow.until(&now), When::Reschedule.until(&now));
    assert_ne!(When::Tomorrow.reason(), When::Reschedule.reason());
}

#[test]
fn datetime_offset_doesnt_cause_rapid_rescheduling() {
    let now = dt(2025, 7, 27, 22, 27, 59);

    let next_schedule = When::Reschedule.until(&now);

    // 22:27:59 -> (next day) 04:00 is 5h 32min 1s = 19921 seconds
    assert_eq!(19921, next_schedule);
}

#[test]
fn todays_scheduling_is_in_localtime() {
    let now = dt(2025, 7, 27, 3, 30, 0);

    let next_schedule = When::Today.until(&now);

    // 03:30:00 -> 04:00 is 30min
    assert_eq!(30 * 60, next_schedule);
}

// Exactly at the scheduled hour the deadline for today is due right now;
// one second past it, the wait is clamped to a full day.
#[test]
fn todays_deadline_clamps_to_a_day_once_past() {
    let at_hour = dt(2021, 4, 21, SCHEDULED_HOUR, 0, 0);
    assert_eq!(0, When::Today.until(&at_hour));

    let just_past = dt(2021, 4, 21, SCHEDULED_HOUR, 0, 1);
    assert_eq!(24 * 60 * 60, When::Today.until(&just_past));
}

// On a first run before the cutoff, the build is persisted, nothing is
// submitted, and a "today" deadline is armed.
#[test]
fn first_run_before_cutoff_schedules_today() {
    let mut markers = SchedulerMarkers::new();
    let fake_now = dt(2022, 11, 15, SCHEDULED_HOUR - 1, 59, 59);

    let decision = schedule_internal(&mut markers, "a build", &fake_now);

    assert_eq!(None, decision.submit_reason);
    assert_eq!(When::Today, decision.arm);
    assert_eq!(Some("a build".to_string()), markers.last_sent_build);
    assert_eq!(None, markers.last_sent_time);
}

// An unchanged build takes the date-based path rather than the upgrade path.
#[test]
fn unchanged_build_does_not_submit_upgrade() {
    let mut markers = SchedulerMarkers::new();
    markers.last_sent_build = Some("a build".to_string());
    markers.last_sent_time = Some(dt(2021, 4, 30, 2, 0, 0));
    let fake_now = dt(2021, 4, 30, 3, 0, 0);

    let decision = schedule_internal(&mut markers, "a build", &fake_now);

    assert_eq!(None, decision.submit_reason);
    assert_eq!(When::Tomorrow, decision.arm);
    assert_eq!(Some("a build".to_string()), markers.last_sent_build);
}

// The three reason tags are stable and pairwise distinct.
#[test]
fn reasons_are_stable_tags() {
    assert_eq!("today", When::Today.reason());
    assert_eq!("tomorrow", When::Tomorrow.reason());
    assert_eq!("reschedule", When::Reschedule.reason());
}

// A wait that ends through cancellation, or through a failure of the wait
// primitive, exits the loop at once with no submission.
#[test]
fn cancellation_exits_the_loop_without_submitting() {
    for armed in [When::Today, When::Tomorrow, When::Reschedule] {
        let action = scheduler_step(&armed, &WaitOutcome::Cancelled);
        assert!(action.exit);
        assert_eq!(None, action.submit_reason);

        let action = scheduler_step(&armed, &WaitOutcome::WaitError);
        assert!(action.exit);
        assert_eq!(None, action.submit_reason);
    }
}

// A timed-out wait submits with the armed deadline's reason and re-arms
// the "reschedule" deadline.
#[test]
fn timeout_submits_with_the_armed_reason() {
    let action = scheduler_step(&When::Today, &WaitOutcome::TimedOut);
    assert!(!action.exit);
    assert_eq!(Some("today"), action.submit_reason);
    assert_eq!(When::Reschedule, action.next);

    let action = scheduler_step(&When::Reschedule, &WaitOutcome::TimedOut);
    assert!(!action.exit);
    assert_eq!(Some("reschedule"), action.submit_reason);
    assert_eq!(When::Reschedule, action.next);
}

// A spurious wake neither submits nor exits, and keeps the armed deadline.
#[test]
fn spurious_wake_never_submits() {
    let action = scheduler_step(&When::Tomorrow, &WaitOutcome::Spurious);
    assert!(!action.exit);
    assert_eq!(None, action.submit_reason);
    assert_eq!(When::Tomorrow, action.next);
}
