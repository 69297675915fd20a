use comparison_app::dashboard::{
    aggregate_status, discovered_string_id, discovered_string_label, summarize_inverter, summarize_plant,
    InverterRollup, StringState,
};
use comparison_app::domain::Severity;

fn string(severity: Severity, connected: bool, learned_days: usize) -> StringState {
    StringState { severity, connected, learned_days }
}

fn inverter(status: Severity, learned_days: usize, discovered: Option<usize>, strings: usize, alerts: usize) -> InverterRollup {
    InverterRollup {
        status,
        learned_days,
        days_until_analysis: 30usize.saturating_sub(learned_days),
        discovered_string_count: discovered,
        cloud_alarm_count: 0,
        string_count: strings,
        alert_count: alerts,
    }
}

#[test]
fn the_most_urgent_status_wins() {
    assert_eq!(aggregate_status(&[]), Severity::Normal);
    assert_eq!(aggregate_status(&[Severity::Normal, Severity::Night, Severity::Disconnected]), Severity::Normal);
    assert_eq!(aggregate_status(&[Severity::Learning, Severity::Normal]), Severity::Learning);
    assert_eq!(aggregate_status(&[Severity::Learning, Severity::Unconfigured]), Severity::Unconfigured);
    assert_eq!(aggregate_status(&[Severity::NoData, Severity::Unconfigured]), Severity::NoData);
    assert_eq!(aggregate_status(&[Severity::Suspicious, Severity::NoData]), Severity::Suspicious);
    assert_eq!(aggregate_status(&[Severity::Suspicious, Severity::Critical, Severity::Normal]), Severity::Critical);
}

#[test]
fn aggregation_does_not_depend_on_order() {
    let statuses = [Severity::Learning, Severity::NoData, Severity::Normal, Severity::Suspicious];
    let mut reversed = statuses;
    reversed.reverse();
    assert_eq!(aggregate_status(&statuses), aggregate_status(&reversed));
}

#[test]
fn inverter_rollup_counts_alerts_and_the_slowest_connected_string() {
    let strings = [
        string(Severity::Critical, true, 40),
        string(Severity::Learning, true, 12),
        string(Severity::Disconnected, false, 2),
        string(Severity::Suspicious, true, 31),
    ];
    let rollup = summarize_inverter(&strings, Some(24), -3);
    assert_eq!(rollup.status, Severity::Critical);
    assert_eq!(rollup.learned_days, 12);
    assert_eq!(rollup.days_until_analysis, 18);
    assert_eq!(rollup.discovered_string_count, Some(24));
    assert_eq!(rollup.cloud_alarm_count, 0);
    assert_eq!(rollup.string_count, 4);
    assert_eq!(rollup.alert_count, 2);
}

#[test]
fn inverter_without_strings_is_unconfigured() {
    let rollup = summarize_inverter(&[], Some(0), 2);
    assert_eq!(rollup.status, Severity::Unconfigured);
    assert_eq!(rollup.learned_days, 0);
    assert_eq!(rollup.days_until_analysis, 30);
    assert_eq!(rollup.discovered_string_count, None);
    assert_eq!(rollup.cloud_alarm_count, 2);
}

#[test]
fn plant_rollup_prefers_configured_strings_and_waits_for_the_schema() {
    let inverters = [
        inverter(Severity::Normal, 35, Some(24), 20, 0),
        inverter(Severity::Suspicious, 31, Some(20), 18, 1),
        inverter(Severity::Unconfigured, 0, Some(16), 0, 0),
    ];
    let plant = summarize_plant(true, &inverters, 4);
    assert_eq!(plant.status, Severity::Suspicious);
    assert_eq!(plant.string_count, Some(38));
    assert_eq!(plant.alert_count, 1);
    assert_eq!(plant.learned_days, 31);
    assert_eq!(plant.days_until_analysis, 0);
    assert_eq!(plant.inverter_count, 3);
    assert_eq!(plant.cloud_alarm_count, 4);
    let unsaved = summarize_plant(false, &inverters[..2], 0);
    assert_eq!(unsaved.status, Severity::Unconfigured);
    assert_eq!(summarize_plant(true, &inverters[2..], 0).status, Severity::Unconfigured);
    assert_eq!(summarize_plant(true, &inverters[..1], 0).status, Severity::Normal);
}

#[test]
fn plant_without_configured_strings_shows_discovered_ones() {
    let inverters = [inverter(Severity::Unconfigured, 0, Some(24), 0, 0), inverter(Severity::Unconfigured, 0, None, 0, 0)];
    let plant = summarize_plant(false, &inverters, 0);
    assert_eq!(plant.string_count, Some(24));
    assert_eq!(plant.learned_days, 0);
    assert_eq!(plant.days_until_analysis, 30);
    assert_eq!(summarize_plant(false, &[], 0).string_count, None);
}

#[test]
fn discovered_strings_are_named_by_position() {
    assert_eq!(discovered_string_id("1234_1_1_1", 7), "1234_1_1_1:string:7");
    assert_eq!(discovered_string_label(12), "String 12");
    assert_eq!(discovered_string_label(0), "String 0");
}

#[test]
fn string_positions_get_distinct_ids() {
    let ids: Vec<String> = (0..120).map(|position| discovered_string_id("inv", position)).collect();
    let mut unique = ids.clone();
    unique.sort();
    unique.dedup();
    assert_eq!(unique.len(), ids.len());
    assert_ne!(discovered_string_id("inv", 1), discovered_string_id("inv", 11));
}

#[test]
fn string_counts_are_never_shown_as_zero() {
    assert_eq!(summarize_inverter(&[], Some(0), 0).discovered_string_count, None);
    assert_eq!(summarize_inverter(&[], Some(-4), 0).discovered_string_count, None);
    let empty = [inverter(Severity::Unconfigured, 0, None, 0, 0)];
    assert_eq!(summarize_plant(true, &empty, 0).string_count, None);
}

#[test]
fn cloud_counts_leave_the_verdicts_alone() {
    let strings = [string(Severity::Critical, true, 40), string(Severity::Normal, true, 12)];
    let quiet = summarize_inverter(&strings, None, 0);
    let noisy = summarize_inverter(&strings, Some(24), 9);
    assert_eq!((quiet.status, quiet.alert_count, quiet.learned_days), (noisy.status, noisy.alert_count, noisy.learned_days));
    let first = summarize_plant(true, &[quiet], 0);
    let second = summarize_plant(true, &[noisy], 7);
    assert_eq!((first.status, first.alert_count, first.learned_days), (second.status, second.alert_count, second.learned_days));
}
