//! Metrics-ping scheduling: the deadline policy, the startup scheduling
//! decision over the persisted bookkeeping values, and the decision table
//! of the cancellable background loop.
//!
//! Everything here is a pure decision: the caller owns the cancellation
//! token, the worker thread and the submission side effects, performs the
//! actions these functions pick, and hands back what happened.

use crate::text::{opt_str_view, opt_string_view};
use crate::time::{Datetime, SECS_PER_DAY};
use vstd::prelude::*;

verus! {

/// Local hour of day at which a metrics ping becomes due.
pub const SCHEDULED_HOUR: u32 = 4;

/// A scheduling deadline: the moment the background worker must next act.
///
/// `Tomorrow` and `Reschedule` fire at the same moment and differ only in
/// the reason tag they carry into the submission.
#[derive(Clone, Copy, PartialEq, Eq, Structural, Debug)]
pub enum When {
    Today,
    Tomorrow,
    Reschedule,
}

impl When {
    /// Seconds from `now` to this deadline's fire time.
    ///
    /// `Today` aims at the scheduled hour of `now`'s own calendar day; once
    /// that moment is strictly past, the result is clamped to exactly 24
    /// hours rather than firing immediately. `Tomorrow` and `Reschedule`
    /// aim at the scheduled hour of the next calendar day.
    pub open spec fn spec_until(self, now: Datetime) -> int {
        let due = SCHEDULED_HOUR as int * 3600;
        match self {
            When::Today => if now.secs_of_day() <= due {
                due - now.secs_of_day()
            } else {
                SECS_PER_DAY as int
            },
            When::Tomorrow | When::Reschedule => SECS_PER_DAY as int - now.secs_of_day() + due,
        }
    }

    /// The stable reason tag this deadline carries into a submission.
    pub open spec fn spec_reason(self) -> Seq<char> {
        match self {
            When::Today => "today"@,
            When::Tomorrow => "tomorrow"@,
            When::Reschedule => "reschedule"@,
        }
    }

    /// Seconds from `now` until this deadline fires.
    pub fn until(&self, now: &Datetime) -> (r: u64)
        requires
            now.valid(),
        ensures
            r == self.spec_until(*now),
    {
        let due: u64 = SCHEDULED_HOUR as u64 * 3600;
        let secs: u64 = now.time_of_day_secs();
        match self {
            When::Today => if secs <= due {
                due - secs
            } else {
                SECS_PER_DAY
            },
            When::Tomorrow | When::Reschedule => SECS_PER_DAY - secs + due,
        }
    }

    /// The stable reason tag this deadline carries into a submission.
    pub fn reason(&self) -> (r: &'static str)
        ensures
            r@ == self.spec_reason(),
    {
        match self {
            When::Today => "today",
            When::Tomorrow => "tomorrow",
            When::Reschedule => "reschedule",
        }
    }
}

/// The two persisted bookkeeping values the scheduling decision reads and
/// writes: the build identifier of the last send, and the instant of the
/// last send. They live in an internal storage partition owned by the
/// storage collaborator; this is their in-memory image.
#[derive(Clone, Debug)]
pub struct SchedulerMarkers {
    pub last_sent_build: Option<String>,
    pub last_sent_time: Option<Datetime>,
}

impl SchedulerMarkers {
    /// Any recorded send instant is a well-formed wall-clock instant.
    pub open spec fn wf(self) -> bool {
        self.last_sent_time matches Some(t) ==> t.valid()
    }

    /// Fresh markers, as on a first run: nothing persisted yet.
    pub fn new() -> (r: Self)
        ensures
            r.last_sent_build is None,
            r.last_sent_time is None,
            r.wf(),
    {
        SchedulerMarkers { last_sent_build: None, last_sent_time: None }
    }
}

/// A build identifier was persisted and differs from the current one.
pub open spec fn build_changed(last_build: Option<Seq<char>>, app_build: Seq<char>) -> bool {
    last_build matches Some(b) && b != app_build
}

/// A send was recorded on the same local calendar date as `now`.
pub open spec fn sent_today(last_time: Option<Datetime>, now: Datetime) -> bool {
    last_time matches Some(t) && t.on_same_date(now)
}

/// `now` lies strictly after the scheduled hour of its own calendar day.
pub open spec fn past_cutoff(now: Datetime) -> bool {
    now.secs_of_day() > SCHEDULED_HOUR as int * 3600
}

/// The outcome of one scheduling decision: the build identifier left
/// persisted, at most one immediate submission with its reason, and
/// exactly one armed deadline.
pub struct DecisionModel {
    pub persisted_build: Option<Seq<char>>,
    pub submit_reason: Option<Seq<char>>,
    pub arm: When,
}

/// The startup scheduling decision as a function of the persisted values,
/// the current application build identifier and the reference time.
///
/// A changed build submits at once with the upgrade reason and stops. A
/// missing build identifier is persisted without submitting. Then: a send
/// already recorded today arms `Tomorrow`; otherwise, past the cutoff an
/// overdue submission is made and `Reschedule` armed; otherwise `Today` is
/// armed.
pub open spec fn spec_decide(
    last_build: Option<Seq<char>>,
    app_build: Seq<char>,
    last_time: Option<Datetime>,
    now: Datetime,
) -> DecisionModel {
    if build_changed(last_build, app_build) {
        DecisionModel {
            persisted_build: Some(app_build),
            submit_reason: Some("upgrade"@),
            arm: When::Reschedule,
        }
    } else {
        let persisted = if last_build is None {
            Some(app_build)
        } else {
            last_build
        };
        if sent_today(last_time, now) {
            DecisionModel { persisted_build: persisted, submit_reason: None, arm: When::Tomorrow }
        } else if past_cutoff(now) {
            DecisionModel {
                persisted_build: persisted,
                submit_reason: Some("overdue"@),
                arm: When::Reschedule,
            }
        } else {
            DecisionModel { persisted_build: persisted, submit_reason: None, arm: When::Today }
        }
    }
}

/// What the caller must do right now after the startup decision: at most
/// one immediate submission, and exactly one deadline to arm.
pub struct Decision {
    pub submit_reason: Option<&'static str>,
    pub arm: When,
}

/// Runs the startup scheduling decision.
///
/// Persists the current build identifier into `markers` when it was absent
/// or different; never touches the recorded send instant (a submission,
/// performed by the caller, is what updates it). Returns the submission
/// and arming choices, which match `spec_decide` on the old markers.
pub fn schedule_internal(markers: &mut SchedulerMarkers, app_build: &str, now: &Datetime) -> (d:
    Decision)
    requires
        old(markers).wf(),
        now.valid(),
    ensures
        final(markers).wf(),
        final(markers).last_sent_time == old(markers).last_sent_time,
        ({
            let m = spec_decide(
                opt_string_view(old(markers).last_sent_build),
                app_build@,
                old(markers).last_sent_time,
                *now,
            );
            &&& opt_string_view(final(markers).last_sent_build) == m.persisted_build
            &&& opt_str_view(d.submit_reason) == m.submit_reason
            &&& d.arm == m.arm
        }),
{
    let changed: bool = match &markers.last_sent_build {
        Some(b) => *b != app_build.to_owned(),
        None => false,
    };
    if changed {
        markers.last_sent_build = Some(app_build.to_owned());
        return Decision { submit_reason: Some("upgrade"), arm: When::Reschedule };
    }
    if markers.last_sent_build.is_none() {
        markers.last_sent_build = Some(app_build.to_owned());
    }
    let already_sent_today: bool = match &markers.last_sent_time {
        Some(t) => t.same_date_as(now),
        None => false,
    };
    if already_sent_today {
        Decision { submit_reason: None, arm: When::Tomorrow }
    } else if now.time_of_day_secs() > SCHEDULED_HOUR as u64 * 3600 {
        Decision { submit_reason: Some("overdue"), arm: When::Reschedule }
    } else {
        Decision { submit_reason: None, arm: When::Today }
    }
}

/// How one cancellable timed wait of the background worker ended.
#[derive(Clone, Copy, PartialEq, Eq, Structural, Debug)]
pub enum WaitOutcome {
    /// The cancellation token was set while waiting.
    Cancelled,
    /// The full wait elapsed with the token still clear.
    TimedOut,
    /// The wait returned with the token clear before the time elapsed.
    Spurious,
    /// The wait primitive itself failed.
    WaitError,
}

/// What the background loop does after one wait, at the specification
/// level: whether it exits, at most one submission, and the deadline for
/// the next iteration.
pub struct StepModel {
    pub exit: bool,
    pub submit_reason: Option<Seq<char>>,
    pub next: When,
}

/// The background loop's reaction to one wait outcome.
///
/// Cancellation and a wait failure exit at once with no submission — the
/// only ways out. A timed-out wait submits with the armed deadline's
/// reason and re-arms `Reschedule`. A spurious wake does nothing and keeps
/// the armed deadline.
pub open spec fn spec_step(armed: When, outcome: WaitOutcome) -> StepModel {
    match outcome {
        WaitOutcome::Cancelled => StepModel { exit: true, submit_reason: None, next: armed },
        WaitOutcome::WaitError => StepModel { exit: true, submit_reason: None, next: armed },
        WaitOutcome::TimedOut => StepModel {
            exit: false,
            submit_reason: Some(armed.spec_reason()),
            next: When::Reschedule,
        },
        WaitOutcome::Spurious => StepModel { exit: false, submit_reason: None, next: armed },
    }
}

/// What the background loop must do after one wait: exit, or submit and
/// continue with the returned deadline.
pub struct StepAction {
    pub exit: bool,
    pub submit_reason: Option<&'static str>,
    pub next: When,
}

/// Decides the background loop's reaction to one wait outcome; matches
/// `spec_step`.
pub fn scheduler_step(armed: &When, outcome: &WaitOutcome) -> (a: StepAction)
    ensures
        ({
            let m = spec_step(*armed, *outcome);
            &&& a.exit == m.exit
            &&& opt_str_view(a.submit_reason) == m.submit_reason
            &&& a.next == m.next
        }),
{
    match outcome {
        WaitOutcome::Cancelled => StepAction { exit: true, submit_reason: None, next: *armed },
        WaitOutcome::WaitError => StepAction { exit: true, submit_reason: None, next: *armed },
        WaitOutcome::TimedOut => StepAction {
            exit: false,
            submit_reason: Some(armed.reason()),
            next: When::Reschedule,
        },
        WaitOutcome::Spurious => StepAction { exit: false, submit_reason: None, next: *armed },
    }
}

/// For every instant strictly before the scheduled hour on its calendar
/// day, the `Today` deadline fires later that same day: the wait is
/// exactly the time remaining to the scheduled hour, and it is positive.
pub proof fn lemma_today_fires_later_same_day(now: Datetime)
    requires
        now.valid(),
        now.secs_of_day() < SCHEDULED_HOUR as int * 3600,
    ensures
        When::Today.spec_until(now) == SCHEDULED_HOUR as int * 3600 - now.secs_of_day(),
        When::Today.spec_until(now) > 0,
{
}

/// `Tomorrow` and `Reschedule` fire at the same moment for every instant,
/// yet carry distinct reason tags.
pub proof fn lemma_tomorrow_matches_reschedule(now: Datetime)
    requires
        now.valid(),
    ensures
        When::Tomorrow.spec_until(now) == When::Reschedule.spec_until(now),
        When::Tomorrow.spec_reason() != When::Reschedule.spec_reason(),
{
    reveal_strlit("tomorrow");
    reveal_strlit("reschedule");
    assert(When::Tomorrow.spec_reason().len() == 8);
    assert(When::Reschedule.spec_reason().len() == 10);
}

/// With nothing persisted yet and the reference time past the cutoff, the
/// decision persists the current build, submits exactly once with the
/// overdue reason, and arms `Reschedule`.
pub proof fn lemma_first_run_past_cutoff(app_build: Seq<char>, now: Datetime)
    requires
        now.valid(),
        past_cutoff(now),
    ensures
        ({
            let m = spec_decide(None, app_build, None, now);
            &&& m.persisted_build == Some(app_build)
            &&& m.submit_reason == Some("overdue"@)
            &&& m.arm == When::Reschedule
        }),
{
}

/// With nothing persisted yet and the reference time not past the cutoff,
/// the decision persists the current build, submits nothing, and arms
/// `Today`.
pub proof fn lemma_first_run_before_cutoff(app_build: Seq<char>, now: Datetime)
    requires
        now.valid(),
        !past_cutoff(now),
    ensures
        ({
            let m = spec_decide(None, app_build, None, now);
            &&& m.persisted_build == Some(app_build)
            &&& m.submit_reason is None
            &&& m.arm == When::Today
        }),
{
}

/// A persisted build identifier different from the current one makes the
/// decision submit exactly once with the upgrade reason, arm `Reschedule`,
/// and persist the current build — whatever the recorded send instant.
pub proof fn lemma_upgrade_submits_and_reschedules(
    last_build: Seq<char>,
    app_build: Seq<char>,
    last_time: Option<Datetime>,
    now: Datetime,
)
    requires
        now.valid(),
        last_build != app_build,
    ensures
        ({
            let m = spec_decide(Some(last_build), app_build, last_time, now);
            &&& m.persisted_build == Some(app_build)
            &&& m.submit_reason == Some("upgrade"@)
            &&& m.arm == When::Reschedule
        }),
{
}

/// A send already recorded on `now`'s local calendar date (with the build
/// unchanged) makes the decision submit nothing and arm `Tomorrow`.
pub proof fn lemma_sent_today_arms_tomorrow(
    last_build: Option<Seq<char>>,
    app_build: Seq<char>,
    last: Datetime,
    now: Datetime,
)
    requires
        now.valid(),
        !build_changed(last_build, app_build),
        last.on_same_date(now),
    ensures
        ({
            let m = spec_decide(last_build, app_build, Some(last), now);
            &&& m.submit_reason is None
            &&& m.arm == When::Tomorrow
        }),
{
}

/// A send recorded on a prior date, with the build unchanged and `now`
/// past the cutoff, makes the decision submit exactly once with the
/// overdue reason and arm `Reschedule`.
pub proof fn lemma_overdue_submits_and_reschedules(
    last_build: Option<Seq<char>>,
    app_build: Seq<char>,
    last: Datetime,
    now: Datetime,
)
    requires
        now.valid(),
        !build_changed(last_build, app_build),
        !last.on_same_date(now),
        past_cutoff(now),
    ensures
        ({
            let m = spec_decide(last_build, app_build, Some(last), now);
            &&& m.submit_reason == Some("overdue"@)
            &&& m.arm == When::Reschedule
        }),
{
}

/// A send recorded on a prior date, with the build unchanged and `now` not
/// past the cutoff, makes the decision submit nothing and arm `Today`.
pub proof fn lemma_not_yet_due_arms_today(
    last_build: Option<Seq<char>>,
    app_build: Seq<char>,
    last: Datetime,
    now: Datetime,
)
    requires
        now.valid(),
        !build_changed(last_build, app_build),
        !last.on_same_date(now),
        !past_cutoff(now),
    ensures
        ({
            let m = spec_decide(last_build, app_build, Some(last), now);
            &&& m.submit_reason is None
            &&& m.arm == When::Today
        }),
{
}

/// A wait that ends because the cancellation token was set makes the loop
/// exit at once with no submission, whatever deadline was armed. So does a
/// failure of the wait primitive.
pub proof fn lemma_cancel_exits_without_submission(armed: When)
    ensures
        spec_step(armed, WaitOutcome::Cancelled).exit,
        spec_step(armed, WaitOutcome::Cancelled).submit_reason is None,
        spec_step(armed, WaitOutcome::WaitError).exit,
        spec_step(armed, WaitOutcome::WaitError).submit_reason is None,
{
}

/// The reasons of the submissions one run of the background loop
/// performs, in order, given the deadline first armed and what ended each
/// successive wait; the run stops at the first outcome that makes the
/// loop exit.
pub open spec fn spec_run_submissions(armed: When, outcomes: Seq<WaitOutcome>) -> Seq<Seq<char>>
    decreases outcomes.len(),
{
    if outcomes.len() == 0 {
        Seq::empty()
    } else {
        let m = spec_step(armed, outcomes.first());
        if m.exit {
            Seq::empty()
        } else {
            match m.submit_reason {
                Some(r) => seq![r] + spec_run_submissions(m.next, outcomes.drop_first()),
                None => spec_run_submissions(m.next, outcomes.drop_first()),
            }
        }
    }
}

/// A run whose very first wait is ended by cancellation performs no
/// submission at all, whatever deadline was armed: cancellation before or
/// during the wait is the clean-shutdown path.
pub proof fn lemma_cancelled_run_never_submits(armed: When, outcomes: Seq<WaitOutcome>)
    requires
        outcomes.len() > 0,
        outcomes.first() == WaitOutcome::Cancelled,
    ensures
        spec_run_submissions(armed, outcomes) == Seq::<Seq<char>>::empty(),
{
}

} // verus!
