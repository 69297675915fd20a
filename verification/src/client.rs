//! Decoding the rows of OpenAPI replies: plant and device records, cloud
//! statuses and alarm counts, error replies and OAuth tokens.

use vstd::prelude::*;
use crate::domain::{CloudStatus, OAuthTokens};
use crate::error::ServiceError;
use crate::json::{FieldValue, FieldView, JsonRow, count_of, first_present, get_field, i64_of, key_views, text_of};
use crate::time::{UtcInstant, utc_now};

verus! {

/// A plant as a list or detail reply describes it (its coordinates and power,
/// which are floating-point values, are read by the caller).
pub struct PlantRecord {
    pub id: String,
    pub name: String,
    pub cloud_status: CloudStatus,
    pub cloud_alarm_count: usize,
}

/// An inverter as the device list describes it (its power, a floating-point
/// value, is read by the caller).
pub struct DeviceRecord {
    pub id: String,
    pub name: String,
    pub model: String,
    pub serial_number: String,
    pub cloud_status: CloudStatus,
    pub cloud_alarm_count: usize,
    pub discovered_string_count: Option<usize>,
}

type Row = Seq<(Seq<char>, FieldValue)>;

/// The plant status a row reports: its fault status first (1 fault, 2 alarm,
/// 3 normal), else its online status (0 offline, 1 normal, 3 commissioning,
/// 4 fault, 5 alarm), else unknown.
pub open spec fn plant_status_of(row: Row) -> CloudStatus {
    match i64_of(row, seq!["ps_fault_status"@]) {
        Some(1) => CloudStatus::Fault,
        Some(2) => CloudStatus::Alarm,
        Some(3) => CloudStatus::Normal,
        _ => match i64_of(row, seq!["online_status"@, "ps_status"@, "status"@]) {
            Some(0) => CloudStatus::Offline,
            Some(1) => CloudStatus::Normal,
            Some(3) => CloudStatus::Commissioning,
            Some(4) => CloudStatus::Fault,
            Some(5) => CloudStatus::Alarm,
            _ => CloudStatus::Unknown,
        },
    }
}

/// The device status a row reports: offline when its device status is 0,
/// else by its fault status (1 fault, 2 alarm, 4 normal, 6 commissioning), else unknown.
pub open spec fn device_status_of(row: Row) -> CloudStatus {
    if i64_of(row, seq!["dev_status"@, "device_status"@]) == Some(0i64) {
        CloudStatus::Offline
    } else {
        match i64_of(row, seq!["dev_fault_status"@, "fault_status"@, "device_state"@, "status"@]) {
            Some(1) => CloudStatus::Fault,
            Some(2) => CloudStatus::Alarm,
            Some(4) => CloudStatus::Normal,
            Some(6) => CloudStatus::Commissioning,
            _ => CloudStatus::Unknown,
        }
    }
}

/// One alarm is counted for a status that is itself an alarm or a fault.
pub open spec fn alarm_from_status(status: CloudStatus) -> usize {
    if status == CloudStatus::Alarm || status == CloudStatus::Fault { 1 } else { 0 }
}

/// The alarm count a row reports explicitly.
pub open spec fn explicit_alarm_count(row: Row) -> Option<usize> {
    count_of(row, seq!["alarm_count"@, "fault_count"@, "warning_count"@])
}

/// The alarm count of a plant row: the explicit count, else one more than the
/// fault map's further-alarm count, else what its status implies.
pub open spec fn plant_alarms_of(row: Row, more_count: Option<usize>) -> usize {
    match explicit_alarm_count(row) {
        Some(n) => n,
        None => match more_count {
            Some(c) => (c + 1) as usize,
            None => alarm_from_status(plant_status_of(row)),
        },
    }
}

/// The alarm count of a device row: the explicit count, else what its status implies.
pub open spec fn device_alarms_of(row: Row) -> usize {
    match explicit_alarm_count(row) {
        Some(n) => n,
        None => alarm_from_status(device_status_of(row)),
    }
}

proof fn lemma_key_views_1(a: &str)
    ensures
        key_views(seq![a]) == seq![a@],
{
    assert(key_views(seq![a]) =~= seq![a@]);
}

proof fn lemma_key_views_2(a: &str, b: &str)
    ensures
        key_views(seq![a, b]) == seq![a@, b@],
{
    assert(key_views(seq![a, b]) =~= seq![a@, b@]);
}

proof fn lemma_key_views_3(a: &str, b: &str, c: &str)
    ensures
        key_views(seq![a, b, c]) == seq![a@, b@, c@],
{
    assert(key_views(seq![a, b, c]) =~= seq![a@, b@, c@]);
}

proof fn lemma_key_views_4(a: &str, b: &str, c: &str, d: &str)
    ensures
        key_views(seq![a, b, c, d]) == seq![a@, b@, c@, d@],
{
    assert(key_views(seq![a, b, c, d]) =~= seq![a@, b@, c@, d@]);
}

/// The status codes of a plant row: a fault status of 1, 2 or 3 decides
/// (fault, alarm, normal); without one, the online status decides: 0 offline,
/// 1 normal, 3 commissioning, 4 fault, 5 alarm, anything else unknown.
pub proof fn lemma_plant_status_codes(row: Row)
    ensures
        ({
            let fault = i64_of(row, seq!["ps_fault_status"@]);
            let online = i64_of(row, seq!["online_status"@, "ps_status"@, "status"@]);
            let no_fault = fault != Some(1i64) && fault != Some(2i64) && fault != Some(3i64);
            &&& fault == Some(1i64) ==> plant_status_of(row) == CloudStatus::Fault
            &&& fault == Some(2i64) ==> plant_status_of(row) == CloudStatus::Alarm
            &&& fault == Some(3i64) ==> plant_status_of(row) == CloudStatus::Normal
            &&& no_fault && online == Some(0i64) ==> plant_status_of(row) == CloudStatus::Offline
            &&& no_fault && online == Some(1i64) ==> plant_status_of(row) == CloudStatus::Normal
            &&& no_fault && online == Some(3i64) ==> plant_status_of(row) == CloudStatus::Commissioning
            &&& no_fault && online == Some(4i64) ==> plant_status_of(row) == CloudStatus::Fault
            &&& no_fault && online == Some(5i64) ==> plant_status_of(row) == CloudStatus::Alarm
            &&& no_fault && online != Some(0i64) && online != Some(1i64) && online != Some(3i64)
                && online != Some(4i64) && online != Some(5i64) ==> plant_status_of(row) == CloudStatus::Unknown
        }),
{
}

/// The status codes of a device row: a device status of 0 means offline
/// whatever its fault status; otherwise the fault status decides: 1 fault,
/// 2 alarm, 4 normal, 6 commissioning, anything else unknown.
pub proof fn lemma_device_status_codes(row: Row)
    ensures
        ({
            let online = i64_of(row, seq!["dev_status"@, "device_status"@]);
            let fault = i64_of(row, seq!["dev_fault_status"@, "fault_status"@, "device_state"@, "status"@]);
            let up = online != Some(0i64);
            &&& !up ==> device_status_of(row) == CloudStatus::Offline
            &&& up && fault == Some(1i64) ==> device_status_of(row) == CloudStatus::Fault
            &&& up && fault == Some(2i64) ==> device_status_of(row) == CloudStatus::Alarm
            &&& up && fault == Some(4i64) ==> device_status_of(row) == CloudStatus::Normal
            &&& up && fault == Some(6i64) ==> device_status_of(row) == CloudStatus::Commissioning
            &&& up && fault != Some(1i64) && fault != Some(2i64) && fault != Some(4i64) && fault != Some(6i64)
                ==> device_status_of(row) == CloudStatus::Unknown
        }),
{
}

/// Alarm counts: an explicit positive count in the row wins; a plant
/// without one counts the fault map's further alarms plus the one shown;
/// otherwise a row counts one alarm exactly when its status is an alarm or a
/// fault.
pub proof fn lemma_alarm_counts(row: Row, more_count: Option<usize>)
    requires
        more_count matches Some(c) ==> c < usize::MAX,
    ensures
        ({
            let explicit = count_of(row, seq!["alarm_count"@, "fault_count"@, "warning_count"@]);
            &&& explicit matches Some(n) ==> plant_alarms_of(row, more_count) == n && device_alarms_of(row) == n
            &&& explicit is None ==> (more_count matches Some(c) ==> plant_alarms_of(row, more_count) == c + 1)
            &&& explicit is None && more_count is None ==> (plant_alarms_of(row, more_count) == 1
                <==> (plant_status_of(row) == CloudStatus::Alarm || plant_status_of(row) == CloudStatus::Fault))
            &&& explicit is None && more_count is None ==> plant_alarms_of(row, more_count) <= 1
            &&& explicit is None ==> (device_alarms_of(row) == 1
                <==> (device_status_of(row) == CloudStatus::Alarm || device_status_of(row) == CloudStatus::Fault))
            &&& explicit is None ==> device_alarms_of(row) <= 1
        }),
{
}

/// The cloud status of a plant row.
pub fn plant_cloud_status(row: &JsonRow) -> (r: CloudStatus)
    ensures
        r == plant_status_of(row@),
{
    let fault_keys: Vec<&str> = vec!["ps_fault_status"];
    proof {
        assert(fault_keys@ == seq!["ps_fault_status"]);
        lemma_key_views_1("ps_fault_status");
    }
    match row.value_as_i64(fault_keys.as_slice()) {
        Some(1) => { return CloudStatus::Fault; },
        Some(2) => { return CloudStatus::Alarm; },
        Some(3) => { return CloudStatus::Normal; },
        _ => {},
    }
    let status_keys: Vec<&str> = vec!["online_status", "ps_status", "status"];
    proof {
        assert(status_keys@ == seq!["online_status", "ps_status", "status"]);
        lemma_key_views_3("online_status", "ps_status", "status");
    }
    match row.value_as_i64(status_keys.as_slice()) {
        Some(0) => CloudStatus::Offline,
        Some(1) => CloudStatus::Normal,
        Some(3) => CloudStatus::Commissioning,
        Some(4) => CloudStatus::Fault,
        Some(5) => CloudStatus::Alarm,
        _ => CloudStatus::Unknown,
    }
}

/// The cloud status of a device row.
pub fn device_cloud_status(row: &JsonRow) -> (r: CloudStatus)
    ensures
        r == device_status_of(row@),
{
    let online_keys: Vec<&str> = vec!["dev_status", "device_status"];
    proof {
        assert(online_keys@ == seq!["dev_status", "device_status"]);
        lemma_key_views_2("dev_status", "device_status");
    }
    if row.value_as_i64(online_keys.as_slice()) == Some(0i64) {
        return CloudStatus::Offline;
    }
    let fault_keys: Vec<&str> = vec!["dev_fault_status", "fault_status", "device_state", "status"];
    proof {
        assert(fault_keys@ == seq!["dev_fault_status", "fault_status", "device_state", "status"]);
        lemma_key_views_4("dev_fault_status", "fault_status", "device_state", "status");
    }
    match row.value_as_i64(fault_keys.as_slice()) {
        Some(1) => CloudStatus::Fault,
        Some(2) => CloudStatus::Alarm,
        Some(4) => CloudStatus::Normal,
        Some(6) => CloudStatus::Commissioning,
        _ => CloudStatus::Unknown,
    }
}

fn explicit_alarms(row: &JsonRow) -> (r: Option<usize>)
    ensures
        r == explicit_alarm_count(row@),
{
    let keys: Vec<&str> = vec!["alarm_count", "fault_count", "warning_count"];
    proof {
        assert(keys@ == seq!["alarm_count", "fault_count", "warning_count"]);
        lemma_key_views_3("alarm_count", "fault_count", "warning_count");
    }
    row.value_as_usize(keys.as_slice())
}

/// The alarm count of a plant row. `more_count` is the fault map's
/// further-alarm count (`fault_map.more_count`, a number the caller reads,
/// clamped at zero and truncated to a count).
pub fn plant_alarm_count(row: &JsonRow, more_count: Option<usize>) -> (r: usize)
    requires
        more_count matches Some(c) ==> c < usize::MAX,
    ensures
        r == plant_alarms_of(row@, more_count),
{
    match explicit_alarms(row) {
        Some(n) => n,
        None => match more_count {
            Some(c) => c + 1,
            None => {
                let status = plant_cloud_status(row);
                if status == CloudStatus::Alarm || status == CloudStatus::Fault { 1 } else { 0 }
            },
        },
    }
}

/// The alarm count of a device row.
pub fn device_alarm_count(row: &JsonRow) -> (r: usize)
    ensures
        r == device_alarms_of(row@),
{
    match explicit_alarms(row) {
        Some(n) => n,
        None => {
            let status = device_cloud_status(row);
            if status == CloudStatus::Alarm || status == CloudStatus::Fault { 1 } else { 0 }
        },
    }
}

/// The record of a plant row, or `None` when the row has no id.
pub open spec fn plant_record_of(row: Row) -> bool {
    text_of(row, seq!["ps_id"@, "id"@]).len() != 0
}

/// Reads a plant row of the station list or of the station details; rows
/// without an id are skipped.
pub fn plant_record(row: &JsonRow, more_count: Option<usize>) -> (r: Option<PlantRecord>)
    requires
        more_count matches Some(c) ==> c < usize::MAX,
    ensures
        r is Some <==> text_of(row@, seq!["ps_id"@, "id"@]).len() != 0,
        r matches Some(p) ==> {
            &&& p.id@ == text_of(row@, seq!["ps_id"@, "id"@])
            &&& p.name@ == text_of(row@, seq!["ps_name"@, "name"@])
            &&& p.cloud_status == plant_status_of(row@)
            &&& p.cloud_alarm_count == plant_alarms_of(row@, more_count)
        },
{
    let id_keys: Vec<&str> = vec!["ps_id", "id"];
    proof {
        assert(id_keys@ == seq!["ps_id", "id"]);
        lemma_key_views_2("ps_id", "id");
    }
    let id = row.value_as_string(id_keys.as_slice());
    if id.unicode_len() == 0 {
        return None;
    }
    let name_keys: Vec<&str> = vec!["ps_name", "name"];
    proof {
        assert(name_keys@ == seq!["ps_name", "name"]);
        lemma_key_views_2("ps_name", "name");
    }
    Some(PlantRecord {
        id,
        name: row.value_as_string(name_keys.as_slice()),
        cloud_status: plant_cloud_status(row),
        cloud_alarm_count: plant_alarm_count(row, more_count),
    })
}

/// Reads a row of the device list; rows that are not inverters (device type 1)
/// or have no id are skipped.
pub fn device_record(row: &JsonRow) -> (r: Option<DeviceRecord>)
    ensures
        r is Some <==> (i64_of(row@, seq!["device_type"@]) == Some(1i64)
            && text_of(row@, seq!["ps_key"@, "uuid"@, "device_uuid"@, "id"@]).len() != 0),
        r matches Some(d) ==> {
            &&& d.id@ == text_of(row@, seq!["ps_key"@, "uuid"@, "device_uuid"@, "id"@])
            &&& d.name@ == text_of(row@, seq!["device_name"@, "name"@])
            &&& d.model@ == text_of(row@, seq!["device_model"@, "device_model_code"@, "model"@])
            &&& d.serial_number@ == text_of(row@, seq!["sn"@, "device_sn"@])
            &&& d.cloud_status == device_status_of(row@)
            &&& d.cloud_alarm_count == device_alarms_of(row@)
            &&& d.discovered_string_count == count_of(
                row@,
                seq!["string_count"@, "string_num"@, "pv_string_count"@, "pv_input_count"@, "input_count"@, "dc_input_count"@],
            )
        },
{
    let type_keys: Vec<&str> = vec!["device_type"];
    proof {
        assert(type_keys@ == seq!["device_type"]);
        lemma_key_views_1("device_type");
    }
    let device_type = match row.value_as_i64(type_keys.as_slice()) {
        Some(t) => t,
        None => 0,
    };
    if device_type != 1 {
        return None;
    }
    let id_keys: Vec<&str> = vec!["ps_key", "uuid", "device_uuid", "id"];
    proof {
        assert(id_keys@ == seq!["ps_key", "uuid", "device_uuid", "id"]);
        lemma_key_views_4("ps_key", "uuid", "device_uuid", "id");
    }
    let id = row.value_as_string(id_keys.as_slice());
    if id.unicode_len() == 0 {
        return None;
    }
    let name_keys: Vec<&str> = vec!["device_name", "name"];
    let model_keys: Vec<&str> = vec!["device_model", "device_model_code", "model"];
    let serial_keys: Vec<&str> = vec!["sn", "device_sn"];
    let count_keys: Vec<&str> = vec!["string_count", "string_num", "pv_string_count", "pv_input_count", "input_count", "dc_input_count"];
    proof {
        assert(name_keys@ == seq!["device_name", "name"]);
        lemma_key_views_2("device_name", "name");
        assert(model_keys@ == seq!["device_model", "device_model_code", "model"]);
        lemma_key_views_3("device_model", "device_model_code", "model");
        assert(serial_keys@ == seq!["sn", "device_sn"]);
        lemma_key_views_2("sn", "device_sn");
        assert(count_keys@ == seq!["string_count", "string_num", "pv_string_count", "pv_input_count", "input_count", "dc_input_count"]);
        assert(key_views(count_keys@) =~= seq!["string_count"@, "string_num"@, "pv_string_count"@, "pv_input_count"@, "input_count"@, "dc_input_count"@]);
    }
    Some(DeviceRecord {
        id,
        name: row.value_as_string(name_keys.as_slice()),
        model: row.value_as_string(model_keys.as_slice()),
        serial_number: row.value_as_string(serial_keys.as_slice()),
        cloud_status: device_cloud_status(row),
        cloud_alarm_count: device_alarm_count(row),
        discovered_string_count: row.value_as_usize(count_keys.as_slice()),
    })
}

/// The message of an error reply: its `error_description`, else its
/// `result_msg`, else its `error` (the first of these present, when it is a
/// string); a generic message otherwise. Nothing else of the reply is shown.
pub open spec fn api_error_text(row: Row) -> Seq<char> {
    match first_present(row, seq!["error_description"@, "result_msg"@, "error"@]) {
        Some(v) => match v.kind {
            FieldView::Text(s) => s,
            _ => "Bilinmeyen API cevabı"@,
        },
        None => "Bilinmeyen API cevabı"@,
    }
}

/// The message shown for an error reply.
pub fn redacted_api_error(row: &JsonRow) -> (r: String)
    ensures
        r@ == api_error_text(row@),
{
    let keys: Vec<&str> = vec!["error_description", "result_msg", "error"];
    proof {
        assert(keys@ == seq!["error_description", "result_msg", "error"]);
        lemma_key_views_3("error_description", "result_msg", "error");
    }
    match row.first_present(keys.as_slice()) {
        Some(field) => match field.as_text() {
            Some(text) => String::from_str(text),
            None => String::from_str("Bilinmeyen API cevabı"),
        },
        None => String::from_str("Bilinmeyen API cevabı"),
    }
}

/// A reply is an error when it has an `error` member, or a string `result_code` other than "1".
pub open spec fn is_error_reply(row: Row) -> bool {
    get_field(row, "error"@) is Some || match get_field(row, "result_code"@) {
        Some(v) => match v.kind {
            FieldView::Text(code) => code != "1"@,
            _ => false,
        },
        None => false,
    }
}

/// Whether an OpenAPI reply reports an error.
pub fn response_is_error(row: &JsonRow) -> (r: bool)
    ensures
        r == is_error_reply(row@),
{
    if row.get("error").is_some() {
        return true;
    }
    match row.get("result_code") {
        Some(field) => match field.as_text() {
            Some(code) => !crate::text::str_equals(code, "1"),
            None => false,
        },
        None => false,
    }
}

/// The string value of a member.
pub open spec fn text_member(row: Row, key: Seq<char>) -> Option<Seq<char>> {
    match get_field(row, key) {
        Some(v) => match v.kind {
            FieldView::Text(s) => Some(s),
            _ => None,
        },
        None => None,
    }
}

/// The token lifetime in seconds a reply states (`expires_in` as an integer), 3600 by default.
pub open spec fn token_lifetime(row: Row) -> i64 {
    match get_field(row, "expires_in"@) {
        Some(v) => match v.kind {
            FieldView::Number(Some(n)) => n,
            _ => 3600,
        },
        None => 3600,
    }
}

/// A lifetime that can be added to any clock reading in chrono's range
/// (and 20 seconds taken off) without leaving the range of `i64`.
pub open spec fn lifetime_fits(lifetime: i64) -> bool {
    i64::MIN - crate::time::MIN_UTC_SECONDS + 20 <= lifetime <= i64::MAX - crate::time::MAX_UTC_SECONDS
}

/// What a token reply yields at a given time: the tokens, expiring 20 seconds
/// before the stated lifetime ends; or the reason it was refused.
pub open spec fn tokens_outcome_ok(row: Row, now: i64, tokens: OAuthTokens) -> bool {
    &&& text_member(row, "access_token"@) == Some(tokens.access_token@)
    &&& text_member(row, "refresh_token"@) == Some(tokens.refresh_token@)
    &&& tokens.expires_at == now + token_lifetime(row) - 20
}

/// The expiry time of tokens issued at `now` can be computed without leaving the range of `i64`.
pub open spec fn expiry_fits(now: i64, lifetime: i64) -> bool {
    i64::MIN <= now + lifetime <= i64::MAX && i64::MIN <= now + lifetime - 20
}

/// Reads the tokens of an OAuth token reply received at `now` (Unix seconds).
pub fn tokens_issued_at(row: &JsonRow, now: i64) -> (r: Result<OAuthTokens, ServiceError>)
    requires
        (text_member(row@, "access_token"@) is Some && text_member(row@, "refresh_token"@) is Some)
            ==> expiry_fits(now, token_lifetime(row@)),
    ensures
        match r {
            Ok(tokens) => tokens_outcome_ok(row@, now, tokens),
            Err(ServiceError::Api(message)) => {
                ||| text_member(row@, "access_token"@) is None && message@ == api_error_text(row@)
                ||| text_member(row@, "access_token"@) is Some && text_member(row@, "refresh_token"@) is None
                    && message@ == "OAuth cevabında refresh_token yok"@
            },
            Err(_) => false,
        },
{
    let access_token = match row.get("access_token") {
        Some(field) => match field.as_text() {
            Some(text) => String::from_str(text),
            None => { return Err(ServiceError::Api(redacted_api_error(row))); },
        },
        None => { return Err(ServiceError::Api(redacted_api_error(row))); },
    };
    let refresh_token = match row.get("refresh_token") {
        Some(field) => match field.as_text() {
            Some(text) => String::from_str(text),
            None => { return Err(ServiceError::Api(String::from_str("OAuth cevabında refresh_token yok"))); },
        },
        None => { return Err(ServiceError::Api(String::from_str("OAuth cevabında refresh_token yok"))); },
    };
    let lifetime: i64 = match row.get("expires_in") {
        Some(field) => match field.kind {
            crate::json::JsonKind::Number(Some(n)) => n,
            _ => 3600,
        },
        None => 3600,
    };
    Ok(OAuthTokens { access_token, refresh_token, expires_at: now + lifetime - 20 })
}

/// Reads the tokens of an OAuth token reply, dating them by the system clock.
pub fn tokens_from_value(row: &JsonRow) -> (r: Result<OAuthTokens, ServiceError>)
    requires
        (text_member(row@, "access_token"@) is Some && text_member(row@, "refresh_token"@) is Some)
            ==> lifetime_fits(token_lifetime(row@)),
    ensures
        match r {
            Ok(tokens) => exists|now: i64| crate::time::MIN_UTC_SECONDS <= now <= crate::time::MAX_UTC_SECONDS
                && tokens_outcome_ok(row@, now, tokens),
            Err(ServiceError::Api(message)) => {
                ||| text_member(row@, "access_token"@) is None && message@ == api_error_text(row@)
                ||| text_member(row@, "access_token"@) is Some && text_member(row@, "refresh_token"@) is None
                    && message@ == "OAuth cevabında refresh_token yok"@
            },
            Err(_) => false,
        },
{
    let now: UtcInstant = utc_now();
    tokens_issued_at(row, now.seconds)
}

/// Tokens are used as they are while they stay valid for more than 30 seconds.
pub fn tokens_are_fresh(tokens: &OAuthTokens, now: UtcInstant) -> (r: bool)
    requires
        now.wf(),
    ensures
        r == (tokens.expires_at > now.seconds + 30),
{
    tokens.expires_at > now.seconds + 30
}

/// Tokens just read from a reply are used as they are, without a refresh,
/// exactly when the reply's lifetime exceeds 50 seconds (20 seconds come off
/// the expiry, and a token must stay valid 30 seconds more); with the
/// default lifetime of an hour they always are.
pub proof fn lemma_new_tokens_are_fresh(row: Row, now: UtcInstant, tokens: OAuthTokens)
    requires
        now.wf(),
        tokens_outcome_ok(row, now.seconds, tokens),
    ensures
        (tokens.expires_at > now.seconds + 30) <==> token_lifetime(row) > 50,
        get_field(row, "expires_in"@) is None ==> tokens.expires_at > now.seconds + 30,
{
}

/// The device key under which a plant's real-time power is requested: `<plant id>_11_0_0`.
pub fn plant_device_key(plant_id: &str) -> (r: String)
    ensures
        r@ == plant_id@ + "_11_0_0"@,
{
    let mut key = String::from_str(plant_id);
    key.append("_11_0_0");
    key
}

/// The plant a real-time point row belongs to: its `ps_id` as text, else the
/// part of its `ps_key` before the first underscore, else the empty text.
pub open spec fn plant_key_text(row: Row) -> Seq<char> {
    match get_field(row, "ps_id"@) {
        Some(v) => crate::text::trim_char(v.rendered, '"'),
        None => match text_member(row, "ps_key"@) {
            Some(key) => crate::text::before_first(key, '_'),
            None => Seq::empty(),
        },
    }
}

/// The plant id of a real-time point row.
pub fn plant_key(row: &JsonRow) -> (r: String)
    ensures
        r@ == plant_key_text(row@),
{
    match row.get("ps_id") {
        Some(field) => crate::text::trim_matches_char(field.rendered.as_str(), '"'),
        None => match row.get("ps_key") {
            Some(field) => match field.as_text() {
                Some(key) => crate::text::split_first_part(key, '_'),
                None => String::new(),
            },
            None => String::new(),
        },
    }
}

} // verus!
