//! When to fetch again: 24 hours after a daytime sync, 12 hours when the
//! application was restarted, 8 hours after a sync that only saw night.

use vstd::prelude::*;
use crate::time::{rfc3339_text, stored_instant, timestamp_text, UtcInstant, FOUR_DIGIT_YEARS_END, FOUR_DIGIT_YEARS_START};

verus! {

/// What the scheduler tells the sync loop.
#[derive(Clone, Copy, Debug, PartialEq, Eq, Structural)]
pub enum SyncDecision {
    FetchNow,
    WaitUntil(UtcInstant),
}

/// The pause, in hours, after the last attempt.
pub open spec fn cooldown_hours(last_attempt_was_night: bool, application_restarted: bool) -> int {
    if last_attempt_was_night {
        8
    } else if application_restarted {
        12
    } else {
        24
    }
}

/// The decision for a given clock reading and scheduler state.
pub open spec fn decision(
    now: UtcInstant,
    last_attempt: Option<UtcInstant>,
    last_attempt_was_night: bool,
    application_restarted: bool,
) -> SyncDecision {
    match last_attempt {
        None => SyncDecision::FetchNow,
        Some(last) => {
            let due = last.plus_hours(cooldown_hours(last_attempt_was_night, application_restarted));
            if due.spec_le(now) {
                SyncDecision::FetchNow
            } else {
                SyncDecision::WaitUntil(due)
            }
        },
    }
}

/// The scheduler state can be evaluated without leaving chrono's range.
pub open spec fn schedulable(
    now: UtcInstant,
    last_attempt: Option<UtcInstant>,
    last_attempt_was_night: bool,
    application_restarted: bool,
) -> bool {
    &&& now.wf()
    &&& last_attempt matches Some(last) ==> {
        &&& last.wf()
        &&& last.can_add_hours(cooldown_hours(last_attempt_was_night, application_restarted))
    }
}

/// Whether the scheduler can evaluate a state: every instant well formed and
/// the end of the pause inside chrono's range (where `DateTime + Duration` would panic otherwise).
pub fn is_schedulable(
    now: UtcInstant,
    last_attempt: Option<UtcInstant>,
    last_attempt_was_night: bool,
    application_restarted: bool,
) -> (r: bool)
    ensures
        r == schedulable(now, last_attempt, last_attempt_was_night, application_restarted),
{
    let now_ok = UtcInstant::from_unix(now.seconds, now.nanos).is_some();
    match last_attempt {
        None => now_ok,
        Some(last) => {
            if !now_ok || UtcInstant::from_unix(last.seconds, last.nanos).is_none() {
                return false;
            }
            let hours: i64 = if last_attempt_was_night { 8 } else if application_restarted { 12 } else { 24 };
            last.hours_fit(hours)
        },
    }
}

/// Decides whether to fetch now or when the next fetch is due.
pub fn decide(
    now: UtcInstant,
    last_attempt: Option<UtcInstant>,
    last_attempt_was_night: bool,
    application_restarted: bool,
) -> (r: SyncDecision)
    requires
        schedulable(now, last_attempt, last_attempt_was_night, application_restarted),
    ensures
        r == decision(now, last_attempt, last_attempt_was_night, application_restarted),
{
    let last = match last_attempt {
        None => { return SyncDecision::FetchNow; },
        Some(last) => last,
    };
    let cooldown: i64 = if last_attempt_was_night {
        8
    } else if application_restarted {
        12
    } else {
        24
    };
    let due = last.add_hours(cooldown);
    if now.is_at_or_after(&due) {
        SyncDecision::FetchNow
    } else {
        SyncDecision::WaitUntil(due)
    }
}

/// When the next sync is due after one that completed at `completed_at`:
/// 8 hours later when every mapped sample was taken at night, else 24 hours later.
pub open spec fn next_sync_time(completed_at: UtcInstant, all_samples_were_night: bool) -> UtcInstant {
    completed_at.plus_hours(if all_samples_were_night { 8 } else { 24 })
}

/// The next sync time that a completed sync records.
pub fn next_sync_at(completed_at: UtcInstant, all_samples_were_night: bool) -> (r: UtcInstant)
    requires
        completed_at.wf(),
        completed_at.can_add_hours(if all_samples_were_night { 8 } else { 24 }),
    ensures
        r == next_sync_time(completed_at, all_samples_were_night),
        r.wf(),
{
    completed_at.add_hours(if all_samples_were_night { 8 } else { 24 })
}

/// The pauses of the policy: after a sync that only saw night the next fetch
/// is due 8 hours later; otherwise 12 hours later when the application was
/// restarted (the catch-up), and 24 hours later in the normal period. With no
/// sync recorded yet, a fetch is due at once.
pub proof fn lemma_pause_lengths(
    now: UtcInstant,
    last: UtcInstant,
    last_attempt_was_night: bool,
    application_restarted: bool,
)
    ensures
        decision(now, None, last_attempt_was_night, application_restarted) is FetchNow,
        last_attempt_was_night ==> ((decision(now, Some(last), true, application_restarted) is FetchNow)
            <==> last.plus_hours(8).spec_le(now)),
        !last_attempt_was_night && application_restarted ==> ((decision(now, Some(last), false, true) is FetchNow)
            <==> last.plus_hours(12).spec_le(now)),
        !last_attempt_was_night && !application_restarted ==> ((decision(now, Some(last), false, false) is FetchNow)
            <==> last.plus_hours(24).spec_le(now)),
{
}

/// Once a fetch is due it stays due: a later clock reading never turns it into a wait.
pub proof fn lemma_fetch_stays_due(
    now: UtcInstant,
    later: UtcInstant,
    last_attempt: Option<UtcInstant>,
    last_attempt_was_night: bool,
    application_restarted: bool,
)
    requires
        now.spec_le(later),
        decision(now, last_attempt, last_attempt_was_night, application_restarted)
            == SyncDecision::FetchNow,
    ensures
        decision(later, last_attempt, last_attempt_was_night, application_restarted)
            == SyncDecision::FetchNow,
{
}

/// A wait names a time in the future, and at that time the fetch is due.
pub proof fn lemma_wait_ends_at_due_time(
    now: UtcInstant,
    last_attempt: Option<UtcInstant>,
    last_attempt_was_night: bool,
    application_restarted: bool,
    due: UtcInstant,
)
    requires
        decision(now, last_attempt, last_attempt_was_night, application_restarted)
            == SyncDecision::WaitUntil(due),
    ensures
        now.spec_lt(due),
        decision(due, last_attempt, last_attempt_was_night, application_restarted)
            == SyncDecision::FetchNow,
{
}

/// A shorter pause never delays a fetch: whatever is due after a daytime sync
/// is also due after a restart or a night sync.
pub proof fn lemma_shorter_cooldowns_never_delay(
    now: UtcInstant,
    last: UtcInstant,
    last_attempt_was_night: bool,
    application_restarted: bool,
)
    requires
        last.wf(),
        last.can_add_hours(24),
        decision(now, Some(last), false, false) == SyncDecision::FetchNow,
    ensures
        decision(now, Some(last), last_attempt_was_night, application_restarted)
            == SyncDecision::FetchNow,
{
}

/// The next sync time a completed sync records is exactly when the scheduler,
/// reading that sync back without a restart, lets the next fetch happen.
pub proof fn lemma_recorded_next_sync_matches_scheduler(
    completed_at: UtcInstant,
    all_samples_were_night: bool,
    now: UtcInstant,
)
    ensures
        decision(now, Some(completed_at), all_samples_were_night, false) == (if next_sync_time(
            completed_at,
            all_samples_were_night,
        ).spec_le(now) {
            SyncDecision::FetchNow
        } else {
            SyncDecision::WaitUntil(next_sync_time(completed_at, all_samples_were_night))
        }),
{
}

/// What a sync run does with what it fetched: the live view is refreshed on
/// every run; the readings join the analysis history, are analysed, and the
/// run is recorded for the scheduler only when a scheduled sample is due.
#[derive(Clone, Copy, Debug, PartialEq, Eq, Structural)]
pub struct SyncPlan {
    pub update_live_view: bool,
    pub record_history: bool,
}

/// The plan of a sync run for a clock reading and scheduler state.
pub open spec fn sync_plan(
    now: UtcInstant,
    last_attempt: Option<UtcInstant>,
    last_attempt_was_night: bool,
    application_restarted: bool,
) -> SyncPlan {
    SyncPlan {
        update_live_view: true,
        record_history: decision(now, last_attempt, last_attempt_was_night, application_restarted) is FetchNow,
    }
}

/// Plans a sync run, manual or scheduled, from the scheduler's decision.
pub fn plan_sync(
    now: UtcInstant,
    last_attempt: Option<UtcInstant>,
    last_attempt_was_night: bool,
    application_restarted: bool,
) -> (r: SyncPlan)
    requires
        schedulable(now, last_attempt, last_attempt_was_night, application_restarted),
    ensures
        r == sync_plan(now, last_attempt, last_attempt_was_night, application_restarted),
{
    let due = match decide(now, last_attempt, last_attempt_was_night, application_restarted) {
        SyncDecision::FetchNow => true,
        SyncDecision::WaitUntil(_) => false,
    };
    SyncPlan { update_live_view: true, record_history: due }
}

/// A manual sync always refreshes the live view, and before the pause since
/// the last recorded sync has ended it adds no sample to the analysis history
/// (nor records itself); once the pause has ended it does.
pub proof fn lemma_manual_sync_never_duplicates_history(
    now: UtcInstant,
    last: UtcInstant,
    last_attempt_was_night: bool,
    application_restarted: bool,
)
    ensures
        sync_plan(now, Some(last), last_attempt_was_night, application_restarted).update_live_view,
        sync_plan(now, Some(last), last_attempt_was_night, application_restarted).record_history
            <==> last.plus_hours(cooldown_hours(last_attempt_was_night, application_restarted)).spec_le(now),
        sync_plan(now, None, last_attempt_was_night, application_restarted).record_history,
{
}

/// What a completed scheduled sync records: when it ran, when the next one
/// is due, and whether it saw only night, the times as stored texts.
pub struct SyncRecord {
    pub completed_at: String,
    pub next_sync_at: String,
    pub was_night: bool,
}

/// Whether a sync completed at `completed_at` can be recorded: the next due
/// time stays inside chrono's range.
pub fn can_record(completed_at: UtcInstant, all_samples_were_night: bool) -> (r: bool)
    ensures
        r == (completed_at.wf() && completed_at.can_add_hours(if all_samples_were_night { 8 } else { 24 })),
{
    if UtcInstant::from_unix(completed_at.seconds, completed_at.nanos).is_none() {
        return false;
    }
    completed_at.hours_fit(if all_samples_were_night { 8 } else { 24 })
}

/// The record of a scheduled sync completed at `completed_at`.
pub fn sync_record(completed_at: UtcInstant, all_samples_were_night: bool) -> (r: SyncRecord)
    requires
        completed_at.wf(),
        completed_at.can_add_hours(if all_samples_were_night { 8 } else { 24 }),
    ensures
        r.completed_at@ == rfc3339_text(completed_at.seconds, completed_at.nanos),
        r.next_sync_at@ == rfc3339_text(
            next_sync_time(completed_at, all_samples_were_night).seconds,
            next_sync_time(completed_at, all_samples_were_night).nanos,
        ),
        r.was_night == all_samples_were_night,
        FOUR_DIGIT_YEARS_START <= completed_at.seconds <= FOUR_DIGIT_YEARS_END
            ==> stored_instant(r.completed_at@) == Some(completed_at),
        FOUR_DIGIT_YEARS_START <= next_sync_time(completed_at, all_samples_were_night).seconds <= FOUR_DIGIT_YEARS_END
            ==> stored_instant(r.next_sync_at@) == Some(next_sync_time(completed_at, all_samples_were_night)),
{
    let next = next_sync_at(completed_at, all_samples_were_night);
    SyncRecord {
        completed_at: timestamp_text(completed_at),
        next_sync_at: timestamp_text(next),
        was_night: all_samples_were_night,
    }
}

} // verus!
