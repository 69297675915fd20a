use chrono::{Duration, TimeZone, Utc};
use comparison_app::analysis::{analyze, distinct_daily_history, AnalysisSignals, HistorySample};
use comparison_app::domain::Severity;
use comparison_app::time::UtcInstant;

struct Sample {
    meta: HistorySample,
    current: Option<f64>,
    voltage: Option<f64>,
}

struct Config {
    schema_configured: bool,
    connected: bool,
    current_zero_threshold: f64,
    voltage_zero_threshold: f64,
    peers_active: bool,
}

fn at(day: i64) -> UtcInstant {
    let time = Utc.with_ymd_and_hms(2026, 1, 1, 12, 0, 0).unwrap() + Duration::days(day);
    UtcInstant::from_unix(time.timestamp(), time.timestamp_subsec_nanos()).unwrap()
}

fn measurement(day: i64, current: Option<f64>, voltage: Option<f64>, daylight: bool) -> Sample {
    Sample {
        meta: HistorySample {
            sampled_at: at(day),
            is_valid_daylight: daylight,
            has_current: current.is_some(),
            has_voltage: voltage.is_some(),
        },
        current,
        voltage,
    }
}

fn config() -> Config {
    Config { schema_configured: true, connected: true, current_zero_threshold: 0.15, voltage_zero_threshold: 10.0, peers_active: true }
}

fn median(mut values: Vec<f64>) -> Option<f64> {
    if values.is_empty() {
        return None;
    }
    values.sort_by(f64::total_cmp);
    let middle = values.len() / 2;
    Some(if values.len() % 2 == 0 { (values[middle - 1] + values[middle]) / 2.0 } else { values[middle] })
}

fn robust_score(value: f64, samples: &[f64]) -> f64 {
    let Some(center) = median(samples.to_vec()) else { return 0.0 };
    let deviations: Vec<f64> = samples.iter().map(|sample| (sample - center).abs()).collect();
    let mad = median(deviations).unwrap_or_default();
    if mad < f64::EPSILON {
        if (value - center).abs() < f64::EPSILON { 0.0 } else { f64::INFINITY }
    } else {
        0.6745 * (value - center).abs() / mad
    }
}

/// The floating-point side of the analysis, as the application computes it,
/// feeding the library's decision ladder.
fn signals(measurement: &Sample, history: &[Sample], peers: &[f64], config: &Config) -> AnalysisSignals {
    let metas: Vec<HistorySample> = history.iter().map(|item| item.meta).collect();
    let daily = distinct_daily_history(&metas);
    let currents: Vec<f64> = daily.iter().filter_map(|index| history[*index].current).collect();
    let voltages: Vec<f64> = daily.iter().filter_map(|index| history[*index].voltage).collect();
    let current = measurement.current.unwrap_or_default();
    let voltage = measurement.voltage.unwrap_or_default();
    let peer_ratio = median(peers.to_vec()).filter(|value| *value > 0.01).map(|value| current / value);
    AnalysisSignals {
        schema_configured: config.schema_configured,
        connected: config.connected,
        has_current_and_voltage: measurement.current.is_some() && measurement.voltage.is_some(),
        is_valid_daylight: measurement.meta.is_valid_daylight,
        peers_active: config.peers_active,
        within_zero_thresholds: current <= config.current_zero_threshold && voltage <= config.voltage_zero_threshold,
        learned_days: daily.len(),
        historically_abnormal: robust_score(current, &currents) > 3.5 || robust_score(voltage, &voltages) > 3.5,
        peer_abnormal: peer_ratio.map(|ratio| !(0.55..=1.45).contains(&ratio)).unwrap_or(false),
    }
}

#[test]
fn waits_for_thirty_valid_days() {
    let history: Vec<_> = (0..29).map(|day| measurement(day, Some(9.0), Some(680.0), true)).collect();
    let result = analyze(&signals(&measurement(30, Some(9.1), Some(679.0), true), &history, &[9.0, 9.2], &config()));
    assert_eq!(result.severity, Severity::Learning);
    assert_eq!(result.reason, "30 geçerli gündüzün 29 tanesi toplandı");
}

#[test]
fn night_zero_is_not_critical() {
    let result = analyze(&signals(&measurement(0, Some(0.0), Some(0.0), false), &[], &[9.0], &config()));
    assert_eq!(result.severity, Severity::Night);
}

#[test]
fn connected_daylight_zero_is_critical() {
    let result = analyze(&signals(&measurement(0, Some(0.0), Some(0.0), true), &[], &[9.0], &config()));
    assert_eq!(result.severity, Severity::Critical);
}

#[test]
fn disconnected_string_is_neutral() {
    let mut disconnected = config();
    disconnected.connected = false;
    let result = analyze(&signals(&measurement(0, Some(0.0), Some(0.0), true), &[], &[9.0], &disconnected));
    assert_eq!(result.severity, Severity::Disconnected);
}

#[test]
fn suspicious_requires_history_and_peer_confirmation() {
    let history: Vec<_> = (0..30)
        .map(|day| measurement(day, Some(9.0 + (day % 3) as f64 * 0.1), Some(680.0 + (day % 2) as f64), true))
        .collect();
    let result = analyze(&signals(&measurement(31, Some(3.0), Some(610.0), true), &history, &[9.0, 9.2], &config()));
    assert_eq!(result.severity, Severity::Suspicious);
}

fn flags(learned_days: usize) -> AnalysisSignals {
    AnalysisSignals {
        schema_configured: true,
        connected: true,
        has_current_and_voltage: true,
        is_valid_daylight: true,
        peers_active: true,
        within_zero_thresholds: false,
        learned_days,
        historically_abnormal: false,
        peer_abnormal: false,
    }
}

#[test]
fn every_rung_of_the_ladder_has_its_reason() {
    let mut s = flags(30);
    s.schema_configured = false;
    let r = analyze(&s);
    assert_eq!((r.severity, r.reason.as_str()), (Severity::Unconfigured, "GES bağlantı şeması hazırlanmalı"));
    let mut s = flags(30);
    s.has_current_and_voltage = false;
    let r = analyze(&s);
    assert_eq!((r.severity, r.reason.as_str()), (Severity::NoData, "Akım veya gerilim değeri API cevabında yok"));
    let r = analyze(&flags(30));
    assert_eq!((r.severity, r.reason.as_str()), (Severity::Normal, "Değerler bir aylık karşılaştırma aralığında"));
    let mut s = flags(30);
    s.historically_abnormal = true;
    assert_eq!(analyze(&s).severity, Severity::Normal);
    s.peer_abnormal = true;
    let r = analyze(&s);
    assert_eq!(
        (r.severity, r.reason.as_str()),
        (Severity::Suspicious, "Değer hem bir aylık geçmişten hem de kardeş stringlerden sapıyor")
    );
    let mut s = flags(0);
    s.peers_active = false;
    s.within_zero_thresholds = true;
    let r = analyze(&s);
    assert_eq!((r.severity, r.reason.as_str()), (Severity::Learning, "30 geçerli gündüzün 0 tanesi toplandı"));
}

#[test]
fn daily_history_keeps_the_earliest_counting_sample_of_each_day() {
    let noon = at(0);
    let morning = UtcInstant { seconds: noon.seconds - 3 * 3600, nanos: 0 };
    let history = vec![
        HistorySample { sampled_at: at(2), is_valid_daylight: true, has_current: true, has_voltage: true },
        HistorySample { sampled_at: noon, is_valid_daylight: true, has_current: true, has_voltage: true },
        HistorySample { sampled_at: morning, is_valid_daylight: false, has_current: true, has_voltage: true },
        HistorySample { sampled_at: morning, is_valid_daylight: true, has_current: true, has_voltage: false },
        HistorySample { sampled_at: morning, is_valid_daylight: true, has_current: true, has_voltage: true },
        HistorySample { sampled_at: morning, is_valid_daylight: true, has_current: true, has_voltage: true },
        HistorySample { sampled_at: at(1), is_valid_daylight: false, has_current: true, has_voltage: true },
    ];
    assert_eq!(distinct_daily_history(&history), vec![4, 0]);
    assert_eq!(distinct_daily_history(&[]), Vec::<usize>::new());
}
