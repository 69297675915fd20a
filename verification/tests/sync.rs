use chrono::{Duration, TimeZone, Utc};
use comparison_app::client::PlantRecord;
use comparison_app::domain::CloudStatus;
use comparison_app::sync::{
    all_samples_were_night, device_realtime_warning, find_plant_detail, merge_plant, missing_device_points_warning,
    plant_power_warning, same_local_time_history, string_readings_warning, warning_line,
};
use comparison_app::time::UtcInstant;

fn instant(value: chrono::DateTime<Utc>) -> UtcInstant {
    UtcInstant::from_unix(value.timestamp(), value.timestamp_subsec_nanos()).unwrap()
}

fn plant(id: &str, name: &str, status: CloudStatus, alarms: usize) -> PlantRecord {
    PlantRecord { id: id.into(), name: name.into(), cloud_status: status, cloud_alarm_count: alarms }
}

#[test]
fn history_is_limited_to_same_local_time_window() {
    let sample = Utc.with_ymd_and_hms(2026, 7, 3, 9, 0, 0).unwrap();
    let history = vec![
        instant(sample - Duration::days(1)),
        instant(sample - Duration::days(1) - Duration::hours(4)),
    ];
    assert_eq!(same_local_time_history(&history, "Europe/Istanbul", instant(sample), 90).len(), 1);
}

#[test]
fn local_window_wraps_round_midnight_and_unknown_zones_use_istanbul() {
    let sample = Utc.with_ymd_and_hms(2026, 1, 10, 21, 30, 0).unwrap(); // 00:30 in Istanbul
    let history = vec![
        instant(Utc.with_ymd_and_hms(2026, 1, 9, 20, 45, 0).unwrap()), // 23:45, 45 minutes before
        instant(Utc.with_ymd_and_hms(2026, 1, 9, 18, 0, 0).unwrap()),  // 21:00
        instant(Utc.with_ymd_and_hms(2026, 1, 8, 22, 0, 0).unwrap()),  // 01:00
    ];
    assert_eq!(same_local_time_history(&history, "Europe/Istanbul", instant(sample), 60), vec![0, 2]);
    assert_eq!(same_local_time_history(&history, "Mars/Olympus", instant(sample), 60), vec![0, 2]);
}

#[test]
fn listed_plants_take_detail_status_and_keep_their_name() {
    let details = vec![plant("1", "Bir", CloudStatus::Fault, 3), plant("2", "", CloudStatus::Alarm, 2)];
    assert_eq!(find_plant_detail(&details, "2"), Some(1));
    assert_eq!(find_plant_detail(&details, "9"), None);
    let listed = plant("2", "İki", CloudStatus::Normal, 0);
    let merged = merge_plant(&listed, Some(&details[1]));
    assert_eq!(merged.name, "İki");
    assert_eq!(merged.cloud_status, CloudStatus::Alarm);
    assert_eq!(merged.cloud_alarm_count, 2);
    let alone = merge_plant(&listed, None);
    assert_eq!(alone.cloud_status, CloudStatus::Normal);
    assert_eq!(alone.cloud_alarm_count, 0);
}

#[test]
fn night_only_runs_need_at_least_one_sample() {
    assert!(!all_samples_were_night(&[]));
    assert!(all_samples_were_night(&[false, false]));
    assert!(!all_samples_were_night(&[false, true]));
}

#[test]
fn warnings_are_joined_with_middle_dots() {
    assert_eq!(warning_line(&[]), None);
    assert_eq!(warning_line(&["a".to_string()]), Some("a".to_string()));
    assert_eq!(warning_line(&["a".to_string(), "b".to_string(), "c".to_string()]), Some("a · b · c".to_string()));
}

#[test]
fn sync_warnings_name_what_failed() {
    assert_eq!(plant_power_warning("zaman aşımı"), "Santral gerçek zamanlı güç verisi alınamadı: zaman aşımı");
    assert_eq!(string_readings_warning("1234_1_1_1", "E900"), "1234_1_1_1: string ölçümleri alınamadı (E900)");
    assert_eq!(missing_device_points_warning("1234_1_1_1"), "1234_1_1_1: OpenAPI cevabında device_point bulunamadı");
    assert!(device_realtime_warning().starts_with("Santral gücü alınabiliyor"));
}
