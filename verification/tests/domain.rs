use comparison_app::domain::{
    connection_state, parse_cloud_status, parse_severity, parse_timezone_source, ApiRegion, CloudStatus,
    ConnectionState, Severity, TimezoneSource, REQUIRED_BASELINE_DAYS,
};
use comparison_app::schema::check_schema_point_ids;
use comparison_app::domain::StringConnectionUpdate;
use comparison_app::error::ServiceError;
use comparison_app::location::{application_directory, database_path};
use comparison_app::migration::{add_column_statement, column_is_missing, required_columns, table_info_statement};

#[test]
fn stored_statuses_read_back_as_written() {
    for status in [
        CloudStatus::Normal,
        CloudStatus::Alarm,
        CloudStatus::Fault,
        CloudStatus::Offline,
        CloudStatus::Commissioning,
        CloudStatus::Unknown,
    ] {
        assert_eq!(parse_cloud_status(status.as_str()), status);
    }
    assert_eq!(parse_cloud_status("broken"), CloudStatus::Unknown);
    assert_eq!(CloudStatus::Commissioning.as_str(), "commissioning");
}

#[test]
fn stored_severities_read_back_as_written() {
    for severity in [
        Severity::Normal,
        Severity::Suspicious,
        Severity::Critical,
        Severity::Learning,
        Severity::Night,
        Severity::NoData,
        Severity::Disconnected,
        Severity::Unconfigured,
    ] {
        assert_eq!(parse_severity(severity.as_str()), severity);
    }
    assert_eq!(parse_severity("whatever"), Severity::Learning);
    assert_eq!(Severity::NoData.as_str(), "no_data");
}

#[test]
fn timezone_sources_read_back_as_written() {
    assert_eq!(parse_timezone_source("coordinates"), TimezoneSource::Coordinates);
    assert_eq!(parse_timezone_source("online_lookup"), TimezoneSource::OnlineLookup);
    assert_eq!(parse_timezone_source("turkey_default"), TimezoneSource::TurkeyDefault);
    assert_eq!(parse_timezone_source("Coordinates"), TimezoneSource::Unknown);
}

#[test]
fn connection_needs_configuration_and_tokens() {
    assert_eq!(connection_state(false, true), ConnectionState::NotConfigured);
    assert_eq!(connection_state(true, false), ConnectionState::Authorizing);
    assert_eq!(connection_state(true, true), ConnectionState::Connected);
}

#[test]
fn regions_have_their_gateways_and_sites() {
    assert_eq!(ApiRegion::Europe.gateway(), "https://gateway.isolarcloud.eu");
    assert_eq!(ApiRegion::International.gateway(), "https://gateway.isolarcloud.com.hk");
    assert_eq!(ApiRegion::China.authorization_site(), ("https://web3.isolarcloud.com", 1));
    assert_eq!(ApiRegion::Australia.authorization_site(), ("https://auweb3.isolarcloud.com", 7));
    assert_eq!(REQUIRED_BASELINE_DAYS, 30);
}

fn update(current: &str, voltage: &str) -> StringConnectionUpdate {
    StringConnectionUpdate {
        id: "inv:string:1".into(),
        inverter_id: "inv".into(),
        position: 1,
        label: "String 1".into(),
        current_point_id: current.into(),
        voltage_point_id: voltage.into(),
        connected: true,
    }
}

#[test]
fn schema_point_ids_hold_digits_only() {
    assert!(check_schema_point_ids(&[update("7013", "7014"), update("", "")]).is_ok());
    match check_schema_point_ids(&[update("7013", "7014"), update("70a3", "7014")]) {
        Err(ServiceError::Configuration(m)) => {
            assert_eq!(m, "Akım ve gerilim point ID alanları yalnızca rakam içerebilir")
        }
        _ => panic!("expected a configuration error"),
    }
    assert!(check_schema_point_ids(&[update("7013", "-1")]).is_err());
}

#[test]
fn data_directory_is_named_as_requested() {
    let directory = application_directory("/tmp/user");
    assert!(std::path::Path::new(&directory).ends_with(".comparingapp"));
}

#[test]
fn paths_are_joined_as_path_buf_does() {
    assert_eq!(application_directory("/home/ayse"), "/home/ayse/.comparingapp");
    assert_eq!(application_directory("/home/ayse/"), "/home/ayse/.comparingapp");
    assert_eq!(application_directory(""), ".comparingapp");
    assert_eq!(database_path("/home/ayse/.comparingapp"), "/home/ayse/.comparingapp/comparison.db");
    let joined = std::path::PathBuf::from("/home/ayse/").join(".comparingapp");
    assert_eq!(joined.to_str().unwrap(), application_directory("/home/ayse/"));
}

#[test]
fn older_databases_get_the_added_columns() {
    let columns = required_columns();
    assert_eq!(columns.len(), 5);
    assert_eq!(columns[4].table, "inverters");
    assert_eq!(columns[4].column, "discovered_string_count");
    assert_eq!(columns[4].definition, "INTEGER");
    let existing = vec!["id".to_string(), "name".to_string(), "cloud_status".to_string()];
    assert!(!column_is_missing(&existing, "cloud_status"));
    assert!(column_is_missing(&existing, "cloud_alarm_count"));
    assert_eq!(table_info_statement("plants"), "PRAGMA table_info(plants)");
    assert_eq!(
        add_column_statement("plants", "cloud_alarm_count", "INTEGER NOT NULL DEFAULT 0"),
        "ALTER TABLE plants ADD COLUMN cloud_alarm_count INTEGER NOT NULL DEFAULT 0"
    );
}
