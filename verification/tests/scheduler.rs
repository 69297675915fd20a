use chrono::{DateTime, Duration, TimeZone, Utc};
use comparison_app::scheduler::{can_record, decide, is_schedulable, next_sync_at, plan_sync, sync_record, SyncDecision};
use comparison_app::time::{parse_timestamp, timestamp_or, timestamp_text, UtcInstant};

fn instant(value: DateTime<Utc>) -> UtcInstant {
    UtcInstant::from_unix(value.timestamp(), value.timestamp_subsec_nanos()).unwrap()
}

#[test]
fn night_retry_uses_eight_hours() {
    let last = Utc.with_ymd_and_hms(2026, 7, 1, 22, 0, 0).unwrap();
    assert_eq!(decide(instant(last + Duration::hours(8)), Some(instant(last)), true, false), SyncDecision::FetchNow);
}

#[test]
fn restart_catchup_uses_twelve_hours() {
    let last = Utc.with_ymd_and_hms(2026, 7, 1, 12, 0, 0).unwrap();
    assert_eq!(decide(instant(last + Duration::hours(12)), Some(instant(last)), false, true), SyncDecision::FetchNow);
}

#[test]
fn first_sync_fetches_immediately() {
    let now = Utc.with_ymd_and_hms(2026, 7, 1, 12, 0, 0).unwrap();
    assert_eq!(decide(instant(now), None, false, false), SyncDecision::FetchNow);
}

#[test]
fn daytime_sync_waits_a_full_day() {
    let last = Utc.with_ymd_and_hms(2026, 7, 1, 12, 0, 0).unwrap();
    let early = last + Duration::hours(23) + Duration::minutes(59);
    assert_eq!(
        decide(instant(early), Some(instant(last)), false, false),
        SyncDecision::WaitUntil(instant(last + Duration::hours(24)))
    );
    assert_eq!(decide(instant(last + Duration::hours(24)), Some(instant(last)), false, false), SyncDecision::FetchNow);
}

#[test]
fn night_cooldown_wins_over_restart() {
    let last = Utc.with_ymd_and_hms(2026, 7, 1, 22, 0, 0).unwrap();
    let now = last + Duration::hours(9);
    assert_eq!(decide(instant(now), Some(instant(last)), true, true), SyncDecision::FetchNow);
    assert_eq!(
        decide(instant(last + Duration::hours(7)), Some(instant(last)), true, true),
        SyncDecision::WaitUntil(instant(last + Duration::hours(8)))
    );
}

#[test]
fn recorded_next_sync_is_when_the_scheduler_fetches_again() {
    let completed = Utc.with_ymd_and_hms(2026, 7, 1, 21, 30, 0).unwrap();
    for night in [true, false] {
        let next = next_sync_at(instant(completed), night);
        let hours = if night { 8 } else { 24 };
        assert_eq!(next, instant(completed + Duration::hours(hours)));
        assert_eq!(decide(next, Some(instant(completed)), night, false), SyncDecision::FetchNow);
        let just_before = UtcInstant { seconds: next.seconds - 1, nanos: next.nanos };
        assert_eq!(decide(just_before, Some(instant(completed)), night, false), SyncDecision::WaitUntil(next));
    }
}

#[test]
fn instants_outside_chrono_are_refused() {
    assert!(UtcInstant::from_unix(0, 0).is_some());
    assert!(UtcInstant::from_unix(0, 1_000_000_000).is_none());
    assert!(UtcInstant::from_unix(i64::MAX, 0).is_none());
    let max = DateTime::<Utc>::MAX_UTC;
    assert!(UtcInstant::from_unix(max.timestamp(), 0).is_some());
    assert!(UtcInstant::from_unix(max.timestamp() + 1, 0).is_none());
    let min = DateTime::<Utc>::MIN_UTC;
    assert!(UtcInstant::from_unix(min.timestamp(), 0).is_some());
    assert!(UtcInstant::from_unix(min.timestamp() - 1, 0).is_none());
}

#[test]
fn day_numbers_follow_the_utc_calendar() {
    let day = Utc.with_ymd_and_hms(1970, 1, 2, 0, 0, 0).unwrap();
    assert_eq!(instant(day).day_number(), 1);
    assert_eq!(instant(day - Duration::seconds(1)).day_number(), 0);
    let before_epoch = Utc.with_ymd_and_hms(1969, 12, 31, 23, 59, 59).unwrap();
    assert_eq!(instant(before_epoch).day_number(), -1);
}

#[test]
fn completed_syncs_record_rfc3339_times() {
    let now = Utc.with_ymd_and_hms(2026, 7, 3, 9, 0, 0).unwrap();
    let record = sync_record(instant(now), true);
    assert_eq!(record.completed_at, now.to_rfc3339());
    assert_eq!(record.next_sync_at, (now + Duration::hours(8)).to_rfc3339());
    assert!(record.was_night);
    let day = sync_record(instant(now), false);
    assert_eq!(day.next_sync_at, "2026-07-04T09:00:00+00:00");
    assert!(!day.was_night);
}

#[test]
fn stored_times_read_back() {
    let now = Utc.with_ymd_and_hms(2026, 7, 3, 9, 0, 0).unwrap() + Duration::milliseconds(250);
    let text = timestamp_text(instant(now));
    assert_eq!(text, now.to_rfc3339());
    assert_eq!(parse_timestamp(&text), Some(instant(now)));
    let shifted = parse_timestamp("2026-07-03T12:00:00+03:00").unwrap();
    assert_eq!(shifted, instant(Utc.with_ymd_and_hms(2026, 7, 3, 9, 0, 0).unwrap()));
    assert_eq!(parse_timestamp("yesterday"), None);
    assert_eq!(timestamp_or("yesterday", instant(now)), instant(now));
}

#[test]
fn states_at_the_end_of_time_cannot_be_scheduled() {
    let now = instant(Utc.with_ymd_and_hms(2026, 7, 3, 9, 0, 0).unwrap());
    let last = instant(Utc.with_ymd_and_hms(2026, 7, 2, 9, 0, 0).unwrap());
    assert!(is_schedulable(now, None, false, false));
    assert!(is_schedulable(now, Some(last), true, false));
    let edge = UtcInstant::from_unix(DateTime::<Utc>::MAX_UTC.timestamp() - 10 * 3600, 0).unwrap();
    assert!(is_schedulable(now, Some(edge), true, false));
    assert!(!is_schedulable(now, Some(edge), false, true));
    assert!(!is_schedulable(UtcInstant { seconds: 0, nanos: 1_000_000_000 }, None, false, false));
    assert!(can_record(now, false));
    assert!(can_record(edge, true));
    assert!(!can_record(edge, false));
    assert!(edge.hours_fit(10));
    assert!(!edge.hours_fit(11));
}

#[test]
fn leap_seconds_are_read_and_moved_as_chrono_does() {
    let text = "2016-12-31T23:59:60.5Z";
    let parsed = DateTime::parse_from_rfc3339(text).unwrap().with_timezone(&Utc);
    let leap = parse_timestamp(text).unwrap();
    assert_eq!(leap.seconds, parsed.timestamp());
    assert_eq!(leap.nanos, 1_500_000_000);
    assert_eq!(timestamp_text(leap), parsed.to_rfc3339());
    assert_eq!(parse_timestamp(&timestamp_text(leap)), Some(leap));
    let later = parsed + Duration::hours(8);
    assert_eq!(leap.add_hours(8), instant(later));
    let earlier = parsed + Duration::hours(-8);
    assert_eq!(leap.add_hours(-8), instant(earlier));
    assert_eq!(leap.add_hours(0), leap);
    assert!(UtcInstant::from_unix(59, 1_999_999_999).is_some());
    assert!(UtcInstant::from_unix(58, 1_000_000_000).is_none());
    assert!(UtcInstant::from_unix(-1, 1_000_000_000).is_some());
}

#[test]
fn stored_texts_of_four_digit_years_read_back() {
    for time in [
        Utc.with_ymd_and_hms(1, 1, 1, 0, 0, 0).unwrap(),
        Utc.with_ymd_and_hms(2026, 7, 3, 9, 0, 0).unwrap() + Duration::nanoseconds(123_456_789),
        Utc.with_ymd_and_hms(9999, 12, 31, 23, 59, 59).unwrap(),
    ] {
        assert_eq!(parse_timestamp(&timestamp_text(instant(time))), Some(instant(time)));
    }
    let far = Utc.with_ymd_and_hms(10000, 1, 1, 0, 0, 0).unwrap();
    assert_eq!(parse_timestamp(&timestamp_text(instant(far))), None);
}

#[test]
fn manual_syncs_refresh_but_add_history_only_when_due() {
    let last = instant(Utc.with_ymd_and_hms(2026, 7, 3, 9, 0, 0).unwrap());
    let soon = instant(Utc.with_ymd_and_hms(2026, 7, 3, 15, 0, 0).unwrap());
    let plan = plan_sync(soon, Some(last), false, false);
    assert!(plan.update_live_view);
    assert!(!plan.record_history);
    let due = instant(Utc.with_ymd_and_hms(2026, 7, 4, 9, 0, 0).unwrap());
    assert!(plan_sync(due, Some(last), false, false).record_history);
    assert!(plan_sync(soon, None, false, false).record_history);
}
