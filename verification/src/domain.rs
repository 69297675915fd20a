//! The vocabulary shared by the scheduler, the analysis and the dashboard:
//! cloud states, analysis severities, API regions and the configuration
//! records the user saves.

use vstd::prelude::*;
use crate::text::str_equals;

verus! {

/// Number of distinct valid daylight days the analysis needs before it judges deviations.
pub const REQUIRED_BASELINE_DAYS: usize = 30;

/// The state iSolarCloud itself reports for a plant or an inverter.
#[derive(Clone, Copy, Debug, PartialEq, Eq, Structural)]
pub enum CloudStatus {
    Normal,
    Alarm,
    Fault,
    Offline,
    Commissioning,
    Unknown,
}

/// The stored text of a cloud status.
pub open spec fn cloud_status_text(status: CloudStatus) -> Seq<char> {
    match status {
        CloudStatus::Normal => "normal"@,
        CloudStatus::Alarm => "alarm"@,
        CloudStatus::Fault => "fault"@,
        CloudStatus::Offline => "offline"@,
        CloudStatus::Commissioning => "commissioning"@,
        CloudStatus::Unknown => "unknown"@,
    }
}

/// Reads a stored cloud status back; any other text is `Unknown`.
pub open spec fn cloud_status_of(text: Seq<char>) -> CloudStatus {
    if text == "normal"@ {
        CloudStatus::Normal
    } else if text == "alarm"@ {
        CloudStatus::Alarm
    } else if text == "fault"@ {
        CloudStatus::Fault
    } else if text == "offline"@ {
        CloudStatus::Offline
    } else if text == "commissioning"@ {
        CloudStatus::Commissioning
    } else {
        CloudStatus::Unknown
    }
}

impl CloudStatus {
    pub fn as_str(&self) -> (r: &'static str)
        ensures
            r@ == cloud_status_text(*self),
    {
        match self {
            CloudStatus::Normal => "normal",
            CloudStatus::Alarm => "alarm",
            CloudStatus::Fault => "fault",
            CloudStatus::Offline => "offline",
            CloudStatus::Commissioning => "commissioning",
            CloudStatus::Unknown => "unknown",
        }
    }
}

/// Parses the stored text of a cloud status.
pub fn parse_cloud_status(value: &str) -> (r: CloudStatus)
    ensures
        r == cloud_status_of(value@),
{
    if str_equals(value, "normal") {
        CloudStatus::Normal
    } else if str_equals(value, "alarm") {
        CloudStatus::Alarm
    } else if str_equals(value, "fault") {
        CloudStatus::Fault
    } else if str_equals(value, "offline") {
        CloudStatus::Offline
    } else if str_equals(value, "commissioning") {
        CloudStatus::Commissioning
    } else {
        CloudStatus::Unknown
    }
}

/// The verdict of the string analysis, shown per string and rolled up per inverter and plant.
#[derive(Clone, Copy, Debug, PartialEq, Eq, Structural)]
pub enum Severity {
    Normal,
    Suspicious,
    Critical,
    Learning,
    Night,
    NoData,
    Disconnected,
    Unconfigured,
}

/// The stored text of a severity.
pub open spec fn severity_text(severity: Severity) -> Seq<char> {
    match severity {
        Severity::Normal => "normal"@,
        Severity::Suspicious => "suspicious"@,
        Severity::Critical => "critical"@,
        Severity::Learning => "learning"@,
        Severity::Night => "night"@,
        Severity::NoData => "no_data"@,
        Severity::Disconnected => "disconnected"@,
        Severity::Unconfigured => "unconfigured"@,
    }
}

/// Reads a stored severity back; any other text is `Learning`.
pub open spec fn severity_of(text: Seq<char>) -> Severity {
    if text == "normal"@ {
        Severity::Normal
    } else if text == "suspicious"@ {
        Severity::Suspicious
    } else if text == "critical"@ {
        Severity::Critical
    } else if text == "night"@ {
        Severity::Night
    } else if text == "no_data"@ {
        Severity::NoData
    } else if text == "disconnected"@ {
        Severity::Disconnected
    } else if text == "unconfigured"@ {
        Severity::Unconfigured
    } else {
        Severity::Learning
    }
}

impl Severity {
    pub fn as_str(&self) -> (r: &'static str)
        ensures
            r@ == severity_text(*self),
    {
        match self {
            Severity::Normal => "normal",
            Severity::Suspicious => "suspicious",
            Severity::Critical => "critical",
            Severity::Learning => "learning",
            Severity::Night => "night",
            Severity::NoData => "no_data",
            Severity::Disconnected => "disconnected",
            Severity::Unconfigured => "unconfigured",
        }
    }
}

/// Parses the stored text of a severity.
pub fn parse_severity(value: &str) -> (r: Severity)
    ensures
        r == severity_of(value@),
{
    if str_equals(value, "normal") {
        Severity::Normal
    } else if str_equals(value, "suspicious") {
        Severity::Suspicious
    } else if str_equals(value, "critical") {
        Severity::Critical
    } else if str_equals(value, "night") {
        Severity::Night
    } else if str_equals(value, "no_data") {
        Severity::NoData
    } else if str_equals(value, "disconnected") {
        Severity::Disconnected
    } else if str_equals(value, "unconfigured") {
        Severity::Unconfigured
    } else {
        Severity::Learning
    }
}

/// Where a plant's time zone came from.
#[derive(Clone, Copy, Debug, PartialEq, Eq, Structural)]
pub enum TimezoneSource {
    Coordinates,
    OnlineLookup,
    TurkeyDefault,
    Unknown,
}

/// The stored text of a time-zone source.
pub open spec fn timezone_source_text(source: TimezoneSource) -> Seq<char> {
    match source {
        TimezoneSource::Coordinates => "coordinates"@,
        TimezoneSource::OnlineLookup => "online_lookup"@,
        TimezoneSource::TurkeyDefault => "turkey_default"@,
        TimezoneSource::Unknown => "unknown"@,
    }
}

/// Reads a stored time-zone source back; any other text is `Unknown`.
pub open spec fn timezone_source_of(text: Seq<char>) -> TimezoneSource {
    if text == "coordinates"@ {
        TimezoneSource::Coordinates
    } else if text == "online_lookup"@ {
        TimezoneSource::OnlineLookup
    } else if text == "turkey_default"@ {
        TimezoneSource::TurkeyDefault
    } else {
        TimezoneSource::Unknown
    }
}

/// Parses the stored text of a time-zone source.
pub fn parse_timezone_source(value: &str) -> (r: TimezoneSource)
    ensures
        r == timezone_source_of(value@),
{
    if str_equals(value, "coordinates") {
        TimezoneSource::Coordinates
    } else if str_equals(value, "online_lookup") {
        TimezoneSource::OnlineLookup
    } else if str_equals(value, "turkey_default") {
        TimezoneSource::TurkeyDefault
    } else {
        TimezoneSource::Unknown
    }
}

/// Storing a cloud status as its text and parsing it back gives the same status.
pub proof fn lemma_cloud_status_round_trip(status: CloudStatus)
    ensures
        cloud_status_of(cloud_status_text(status)) == status,
{
    match status {
        CloudStatus::Normal => {
            reveal_strlit("normal");
        },
        CloudStatus::Alarm => {
            reveal_strlit("alarm");
            reveal_strlit("normal");
            assert("alarm"@.len() != "normal"@.len());
        },
        CloudStatus::Fault => {
            reveal_strlit("fault");
            reveal_strlit("normal");
            assert("fault"@.len() != "normal"@.len());
            reveal_strlit("alarm");
            assert("fault"@[0] != "alarm"@[0]);
        },
        CloudStatus::Offline => {
            reveal_strlit("offline");
            reveal_strlit("normal");
            assert("offline"@.len() != "normal"@.len());
            reveal_strlit("alarm");
            assert("offline"@.len() != "alarm"@.len());
            reveal_strlit("fault");
            assert("offline"@.len() != "fault"@.len());
        },
        CloudStatus::Commissioning => {
            reveal_strlit("commissioning");
            reveal_strlit("normal");
            assert("commissioning"@.len() != "normal"@.len());
            reveal_strlit("alarm");
            assert("commissioning"@.len() != "alarm"@.len());
            reveal_strlit("fault");
            assert("commissioning"@.len() != "fault"@.len());
            reveal_strlit("offline");
            assert("commissioning"@.len() != "offline"@.len());
        },
        CloudStatus::Unknown => {
            reveal_strlit("unknown");
            reveal_strlit("normal");
            assert("unknown"@.len() != "normal"@.len());
            reveal_strlit("alarm");
            assert("unknown"@.len() != "alarm"@.len());
            reveal_strlit("fault");
            assert("unknown"@.len() != "fault"@.len());
            reveal_strlit("offline");
            assert("unknown"@[0] != "offline"@[0]);
            reveal_strlit("commissioning");
            assert("unknown"@.len() != "commissioning"@.len());
        },
    }
}

/// Storing a severity as its text and parsing it back gives the same severity.
pub proof fn lemma_severity_round_trip(severity: Severity)
    ensures
        severity_of(severity_text(severity)) == severity,
{
    match severity {
        Severity::Normal => {
            reveal_strlit("normal");
        },
        Severity::Suspicious => {
            reveal_strlit("suspicious");
            reveal_strlit("normal");
            assert("suspicious"@.len() != "normal"@.len());
        },
        Severity::Critical => {
            reveal_strlit("critical");
            reveal_strlit("normal");
            assert("critical"@.len() != "normal"@.len());
            reveal_strlit("suspicious");
            assert("critical"@.len() != "suspicious"@.len());
        },
        Severity::Night => {
            reveal_strlit("night");
            reveal_strlit("normal");
            assert("night"@.len() != "normal"@.len());
            reveal_strlit("suspicious");
            assert("night"@.len() != "suspicious"@.len());
            reveal_strlit("critical");
            assert("night"@.len() != "critical"@.len());
        },
        Severity::NoData => {
            reveal_strlit("no_data");
            reveal_strlit("normal");
            assert("no_data"@.len() != "normal"@.len());
            reveal_strlit("suspicious");
            assert("no_data"@.len() != "suspicious"@.len());
            reveal_strlit("critical");
            assert("no_data"@.len() != "critical"@.len());
            reveal_strlit("night");
            assert("no_data"@.len() != "night"@.len());
        },
        Severity::Disconnected => {
            reveal_strlit("disconnected");
            reveal_strlit("normal");
            assert("disconnected"@.len() != "normal"@.len());
            reveal_strlit("suspicious");
            assert("disconnected"@.len() != "suspicious"@.len());
            reveal_strlit("critical");
            assert("disconnected"@.len() != "critical"@.len());
            reveal_strlit("night");
            assert("disconnected"@.len() != "night"@.len());
            reveal_strlit("no_data");
            assert("disconnected"@.len() != "no_data"@.len());
        },
        Severity::Unconfigured => {
            reveal_strlit("unconfigured");
            reveal_strlit("normal");
            assert("unconfigured"@.len() != "normal"@.len());
            reveal_strlit("suspicious");
            assert("unconfigured"@.len() != "suspicious"@.len());
            reveal_strlit("critical");
            assert("unconfigured"@.len() != "critical"@.len());
            reveal_strlit("night");
            assert("unconfigured"@.len() != "night"@.len());
            reveal_strlit("no_data");
            assert("unconfigured"@.len() != "no_data"@.len());
            reveal_strlit("disconnected");
            assert("unconfigured"@[0] != "disconnected"@[0]);
        },
        Severity::Learning => {
            reveal_strlit("learning");
            reveal_strlit("normal");
            assert("learning"@.len() != "normal"@.len());
            reveal_strlit("suspicious");
            assert("learning"@.len() != "suspicious"@.len());
            reveal_strlit("critical");
            assert("learning"@[0] != "critical"@[0]);
            reveal_strlit("night");
            assert("learning"@.len() != "night"@.len());
            reveal_strlit("no_data");
            assert("learning"@.len() != "no_data"@.len());
            reveal_strlit("disconnected");
            assert("learning"@.len() != "disconnected"@.len());
            reveal_strlit("unconfigured");
            assert("learning"@.len() != "unconfigured"@.len());
        },
    }
}

/// Storing a time-zone source as its text and parsing it back gives the same source.
pub proof fn lemma_timezone_source_round_trip(source: TimezoneSource)
    ensures
        timezone_source_of(timezone_source_text(source)) == source,
{
    match source {
        TimezoneSource::Coordinates => {
            reveal_strlit("coordinates");
        },
        TimezoneSource::OnlineLookup => {
            reveal_strlit("online_lookup");
            reveal_strlit("coordinates");
            assert("online_lookup"@.len() != "coordinates"@.len());
        },
        TimezoneSource::TurkeyDefault => {
            reveal_strlit("turkey_default");
            reveal_strlit("coordinates");
            assert("turkey_default"@.len() != "coordinates"@.len());
            reveal_strlit("online_lookup");
            assert("turkey_default"@.len() != "online_lookup"@.len());
        },
        TimezoneSource::Unknown => {
            reveal_strlit("unknown");
            reveal_strlit("coordinates");
            assert("unknown"@.len() != "coordinates"@.len());
            reveal_strlit("online_lookup");
            assert("unknown"@.len() != "online_lookup"@.len());
            reveal_strlit("turkey_default");
            assert("unknown"@.len() != "turkey_default"@.len());
        },
    }
}

/// How far the OpenAPI connection has been set up.
#[derive(Clone, Copy, Debug, PartialEq, Eq, Structural)]
pub enum ConnectionState {
    NotConfigured,
    Authorizing,
    Connected,
    Error,
}

/// The connection state the dashboard shows for a saved configuration and a token being present.
pub fn connection_state(configured: bool, connected: bool) -> (r: ConnectionState)
    ensures
        r == (if !configured {
            ConnectionState::NotConfigured
        } else if connected {
            ConnectionState::Connected
        } else {
            ConnectionState::Authorizing
        }),
{
    if !configured {
        ConnectionState::NotConfigured
    } else if connected {
        ConnectionState::Connected
    } else {
        ConnectionState::Authorizing
    }
}

/// The iSolarCloud deployment the account lives in.
#[derive(Clone, Copy, Debug, PartialEq, Eq, Structural)]
pub enum ApiRegion {
    Europe,
    International,
    China,
    Australia,
}

/// The OpenAPI gateway of a region.
pub open spec fn gateway_of(region: ApiRegion) -> Seq<char> {
    match region {
        ApiRegion::Europe => "https://gateway.isolarcloud.eu"@,
        ApiRegion::International => "https://gateway.isolarcloud.com.hk"@,
        ApiRegion::China => "https://gateway.isolarcloud.com"@,
        ApiRegion::Australia => "https://augateway.isolarcloud.com"@,
    }
}

/// The web site that authorizes an application in a region, and the region's cloud id.
pub open spec fn authorization_site_of(region: ApiRegion) -> (Seq<char>, u8) {
    match region {
        ApiRegion::Europe => ("https://web3.isolarcloud.eu"@, 3),
        ApiRegion::International => ("https://web3.isolarcloud.com.hk"@, 2),
        ApiRegion::China => ("https://web3.isolarcloud.com"@, 1),
        ApiRegion::Australia => ("https://auweb3.isolarcloud.com"@, 7),
    }
}

impl ApiRegion {
    pub fn gateway(&self) -> (r: &'static str)
        ensures
            r@ == gateway_of(*self),
    {
        match self {
            ApiRegion::Europe => "https://gateway.isolarcloud.eu",
            ApiRegion::International => "https://gateway.isolarcloud.com.hk",
            ApiRegion::China => "https://gateway.isolarcloud.com",
            ApiRegion::Australia => "https://augateway.isolarcloud.com",
        }
    }

    pub fn authorization_site(&self) -> (r: (&'static str, u8))
        ensures
            (r.0@, r.1) == authorization_site_of(*self),
    {
        match self {
            ApiRegion::Europe => ("https://web3.isolarcloud.eu", 3),
            ApiRegion::International => ("https://web3.isolarcloud.com.hk", 2),
            ApiRegion::China => ("https://web3.isolarcloud.com", 1),
            ApiRegion::Australia => ("https://auweb3.isolarcloud.com", 7),
        }
    }
}

/// What the user enters on the OpenAPI settings screen.
pub struct ApiConfigurationInput {
    pub app_key: String,
    pub secret_key: String,
    pub application_id: String,
    pub region: ApiRegion,
    pub redirect_uri: String,
}

/// The OpenAPI settings kept in the local database (the secret goes to the key ring).
pub struct StoredApiConfiguration {
    pub app_key: String,
    pub application_id: String,
    pub region: ApiRegion,
    pub redirect_uri: String,
}

/// One string of a plant schema as the user saves it.
pub struct StringConnectionUpdate {
    pub id: String,
    pub inverter_id: String,
    pub position: i64,
    pub label: String,
    pub current_point_id: String,
    pub voltage_point_id: String,
    pub connected: bool,
}

/// The OAuth tokens of the account and the Unix time at which the access token expires.
pub struct OAuthTokens {
    pub access_token: String,
    pub refresh_token: String,
    pub expires_at: i64,
}

} // verus!
