use comparison_app::client::{
    device_alarm_count, device_cloud_status, device_record, plant_alarm_count, plant_cloud_status,
    plant_device_key, plant_key, plant_record, redacted_api_error, response_is_error, tokens_are_fresh,
    tokens_from_value, tokens_issued_at,
};
use comparison_app::domain::{CloudStatus, OAuthTokens};
use comparison_app::error::ServiceError;
use comparison_app::json::{JsonField, JsonKind, JsonRow};
use comparison_app::time::UtcInstant;

fn number(n: i64) -> JsonField {
    JsonField { kind: JsonKind::Number(Some(n)), rendered: n.to_string() }
}

fn text(s: &str) -> JsonField {
    JsonField { kind: JsonKind::Text(s.to_string()), rendered: format!("\"{s}\"") }
}

fn object(rendered: &str) -> JsonField {
    JsonField { kind: JsonKind::Object, rendered: rendered.to_string() }
}

fn row(entries: Vec<(&str, JsonField)>) -> JsonRow {
    JsonRow { entries: entries.into_iter().map(|(k, v)| (k.to_string(), v)).collect() }
}

#[test]
fn parses_nested_plant_power_and_alarm_from_official_shape() {
    let row = row(vec![
        ("ps_status", number(5)),
        ("fault_map", object("{\"more_count\":0}")),
        ("dynamic_column", object("{\"current_power\":{\"unit\":\"MW\",\"value\":\"1.37\"}}")),
    ]);
    // `fault_map.more_count` is 0, which the caller hands over as a count of 0.
    assert_eq!(plant_cloud_status(&row), CloudStatus::Alarm);
    assert_eq!(plant_alarm_count(&row, Some(0)), 1);
}

#[test]
fn parses_device_status_power_and_discovered_strings() {
    let row = row(vec![
        ("device_status", number(1)),
        ("fault_status", number(2)),
        ("total_active_power", text("197.90 kW")),
        ("string_num", text("24")),
    ]);
    assert_eq!(device_cloud_status(&row), CloudStatus::Alarm);
    assert_eq!(device_alarm_count(&row), 1);
    assert_eq!(row.value_as_usize(&["string_num"]), Some(24));
}

#[test]
fn plant_fault_status_wins_over_online_status() {
    let faulty = row(vec![("ps_fault_status", number(1)), ("ps_status", number(1))]);
    assert_eq!(plant_cloud_status(&faulty), CloudStatus::Fault);
    let fine = row(vec![("ps_fault_status", text("3")), ("ps_status", number(5))]);
    assert_eq!(plant_cloud_status(&fine), CloudStatus::Normal);
    let offline = row(vec![("online_status", number(0))]);
    assert_eq!(plant_cloud_status(&offline), CloudStatus::Offline);
    assert_eq!(plant_cloud_status(&row(vec![])), CloudStatus::Unknown);
}

#[test]
fn explicit_alarm_counts_come_first() {
    let row = row(vec![("alarm_count", text("7")), ("ps_status", number(5))]);
    assert_eq!(plant_alarm_count(&row, Some(3)), 7);
    let from_map = crate::row(vec![("ps_status", number(1))]);
    assert_eq!(plant_alarm_count(&from_map, Some(3)), 4);
    assert_eq!(plant_alarm_count(&from_map, None), 0);
    let zero = crate::row(vec![("alarm_count", number(0)), ("ps_status", number(4))]);
    assert_eq!(plant_alarm_count(&zero, None), 1);
}

#[test]
fn offline_device_ignores_its_fault_status() {
    let row = row(vec![("dev_status", text("0")), ("dev_fault_status", number(1))]);
    assert_eq!(device_cloud_status(&row), CloudStatus::Offline);
    assert_eq!(device_alarm_count(&row), 0);
}

#[test]
fn plant_rows_need_an_id() {
    let listed = row(vec![("ps_id", number(1234)), ("ps_name", text("Saha")), ("ps_fault_status", number(2))]);
    let plant = plant_record(&listed, None).unwrap();
    assert_eq!(plant.id, "1234");
    assert_eq!(plant.name, "Saha");
    assert_eq!(plant.cloud_status, CloudStatus::Alarm);
    assert_eq!(plant.cloud_alarm_count, 1);
    assert!(plant_record(&row(vec![("ps_name", text("Saha"))]), None).is_none());
}

#[test]
fn only_inverters_become_devices() {
    let inverter = row(vec![
        ("device_type", number(1)),
        ("ps_key", text("1234_1_1_1")),
        ("device_name", text("INV-1")),
        ("device_model", text("SG110CX")),
        ("sn", text("A1")),
        ("dev_fault_status", number(4)),
        ("string_count", number(12)),
    ]);
    let device = device_record(&inverter).unwrap();
    assert_eq!(device.id, "1234_1_1_1");
    assert_eq!(device.name, "INV-1");
    assert_eq!(device.model, "SG110CX");
    assert_eq!(device.serial_number, "A1");
    assert_eq!(device.cloud_status, CloudStatus::Normal);
    assert_eq!(device.cloud_alarm_count, 0);
    assert_eq!(device.discovered_string_count, Some(12));
    let meter = row(vec![("device_type", number(7)), ("ps_key", text("1234_7_1_1"))]);
    assert!(device_record(&meter).is_none());
}

#[test]
fn error_replies_show_only_their_message() {
    let reply = row(vec![("result_code", text("E900")), ("result_msg", text("token expired")), ("secret", text("x"))]);
    assert!(response_is_error(&reply));
    assert_eq!(redacted_api_error(&reply), "token expired");
    let ok = row(vec![("result_code", text("1"))]);
    assert!(!response_is_error(&ok));
    let odd = row(vec![("error", number(5))]);
    assert!(response_is_error(&odd));
    assert_eq!(redacted_api_error(&odd), "Bilinmeyen API cevabı");
}

#[test]
fn token_replies_expire_twenty_seconds_early() {
    let reply = row(vec![
        ("access_token", text("a")),
        ("refresh_token", text("r")),
        ("expires_in", number(7200)),
    ]);
    let tokens = tokens_issued_at(&reply, 1_000_000).unwrap();
    assert_eq!(tokens.access_token, "a");
    assert_eq!(tokens.refresh_token, "r");
    assert_eq!(tokens.expires_at, 1_000_000 + 7200 - 20);
    let default_life = row(vec![("access_token", text("a")), ("refresh_token", text("r"))]);
    assert_eq!(tokens_issued_at(&default_life, 0).unwrap().expires_at, 3580);
    let clocked = tokens_from_value(&reply).unwrap();
    assert_eq!(clocked.access_token, "a");
    assert!(clocked.expires_at > 1_700_000_000);
}

#[test]
fn token_replies_without_tokens_are_refused() {
    let refused = row(vec![("error", text("invalid_grant")), ("error_description", text("code used"))]);
    match tokens_issued_at(&refused, 0) {
        Err(ServiceError::Api(message)) => assert_eq!(message, "code used"),
        _ => panic!("expected an API error"),
    }
    let half = row(vec![("access_token", text("a"))]);
    match tokens_issued_at(&half, 0) {
        Err(ServiceError::Api(message)) => assert_eq!(message, "OAuth cevabında refresh_token yok"),
        _ => panic!("expected an API error"),
    }
}

#[test]
fn tokens_are_refreshed_thirty_seconds_before_expiry() {
    let tokens = OAuthTokens { access_token: "a".into(), refresh_token: "r".into(), expires_at: 1_000 };
    assert!(tokens_are_fresh(&tokens, UtcInstant::from_unix(969, 0).unwrap()));
    assert!(!tokens_are_fresh(&tokens, UtcInstant::from_unix(970, 0).unwrap()));
}

#[test]
fn plant_keys_come_from_id_or_ps_key() {
    assert_eq!(plant_device_key("1234"), "1234_11_0_0");
    assert_eq!(plant_key(&row(vec![("ps_id", number(1234))])), "1234");
    assert_eq!(plant_key(&row(vec![("ps_id", text("77"))])), "77");
    assert_eq!(plant_key(&row(vec![("ps_key", text("1234_11_0_0"))])), "1234");
    assert_eq!(plant_key(&row(vec![])), "");
}

#[test]
fn new_tokens_are_fresh_unless_their_lifetime_is_short() {
    let issued = 1_000_000;
    let now = UtcInstant::from_unix(issued, 0).unwrap();
    let hour = row(vec![("access_token", text("a")), ("refresh_token", text("r"))]);
    assert!(tokens_are_fresh(&tokens_issued_at(&hour, issued).unwrap(), now));
    let short = row(vec![("access_token", text("a")), ("refresh_token", text("r")), ("expires_in", number(50))]);
    assert!(!tokens_are_fresh(&tokens_issued_at(&short, issued).unwrap(), now));
    let enough = row(vec![("access_token", text("a")), ("refresh_token", text("r")), ("expires_in", number(51))]);
    assert!(tokens_are_fresh(&tokens_issued_at(&enough, issued).unwrap(), now));
}
