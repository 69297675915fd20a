//! The decisions of a sync run that do not need the network or the
//! database: merging a plant's list and detail records, whether a run saw
//! only night, which history samples share the local time of day of a new
//! sample, and how warnings are shown.

use vstd::prelude::*;
use crate::client::PlantRecord;
use crate::domain::CloudStatus;
use crate::text::{join_texts, joined, str_equals};
use crate::time::UtcInstant;
use chrono::Timelike;

verus! {

/// The index of the first detail record with the given plant id.
pub open spec fn detail_index(details: Seq<Seq<char>>, id: Seq<char>) -> Option<int>
    decreases details.len(),
{
    if details.len() == 0 {
        None
    } else if details[0] == id {
        Some(0)
    } else {
        match detail_index(details.drop_first(), id) {
            Some(i) => Some(i + 1),
            None => None,
        }
    }
}

/// The ids of a list of plant records.
pub open spec fn record_ids(records: Seq<PlantRecord>) -> Seq<Seq<char>> {
    records.map_values(|p: PlantRecord| p.id@)
}

/// Finds the detail record of a listed plant.
pub fn find_plant_detail(details: &[PlantRecord], id: &str) -> (r: Option<usize>)
    ensures
        match detail_index(record_ids(details@), id@) {
            Some(i) => r == Some(i as usize),
            None => r is None,
        },
{
    let ghost ids = record_ids(details@);
    let mut i: usize = 0;
    while i < details.len()
        invariant
            i <= details@.len(),
            ids == record_ids(details@),
            forall|k: int| 0 <= k < i ==> ids[k] != id@,
        decreases details@.len() - i,
    {
        if str_equals(details[i].id.as_str(), id) {
            proof {
                lemma_detail_index_first(ids, id@, i as int);
            }
            return Some(i);
        }
        i = i + 1;
    }
    proof {
        lemma_detail_index_none(ids, id@);
    }
    None
}

proof fn lemma_detail_index_first(ids: Seq<Seq<char>>, id: Seq<char>, i: int)
    requires
        0 <= i < ids.len(),
        ids[i] == id,
        forall|k: int| 0 <= k < i ==> ids[k] != id,
    ensures
        detail_index(ids, id) == Some(i),
    decreases i,
{
    if i > 0 {
        lemma_detail_index_first(ids.drop_first(), id, i - 1);
    }
}

proof fn lemma_detail_index_none(ids: Seq<Seq<char>>, id: Seq<char>)
    requires
        forall|k: int| 0 <= k < ids.len() ==> ids[k] != id,
    ensures
        detail_index(ids, id) is None,
    decreases ids.len(),
{
    if ids.len() > 0 {
        lemma_detail_index_none(ids.drop_first(), id);
    }
}

/// What a sync run stores of a listed plant: the detail record's name when
/// it has one, the detail's cloud status unless it is unknown, and the larger
/// of the two alarm counts.
pub struct MergedPlant {
    pub name: String,
    pub cloud_status: CloudStatus,
    pub cloud_alarm_count: usize,
}

/// Merges a listed plant with its detail record, if the details have one.
pub fn merge_plant(listed: &PlantRecord, detail: Option<&PlantRecord>) -> (r: MergedPlant)
    ensures
        r.name@ == (match detail {
            Some(d) => if d.name@.len() > 0 { d.name@ } else { listed.name@ },
            None => listed.name@,
        }),
        r.cloud_status == (match detail {
            Some(d) => if d.cloud_status != CloudStatus::Unknown { d.cloud_status } else { listed.cloud_status },
            None => listed.cloud_status,
        }),
        r.cloud_alarm_count == (match detail {
            Some(d) => if d.cloud_alarm_count > listed.cloud_alarm_count { d.cloud_alarm_count } else { listed.cloud_alarm_count },
            None => listed.cloud_alarm_count,
        }),
{
    match detail {
        Some(d) => {
            let name = if d.name.as_str().unicode_len() > 0 { d.name.clone() } else { listed.name.clone() };
            let cloud_status = if d.cloud_status != CloudStatus::Unknown { d.cloud_status } else { listed.cloud_status };
            let cloud_alarm_count = if d.cloud_alarm_count > listed.cloud_alarm_count { d.cloud_alarm_count } else { listed.cloud_alarm_count };
            MergedPlant { name, cloud_status, cloud_alarm_count }
        },
        None => MergedPlant {
            name: listed.name.clone(),
            cloud_status: listed.cloud_status,
            cloud_alarm_count: listed.cloud_alarm_count,
        },
    }
}

/// A sync run saw only night when it took at least one mapped sample and every one was at night.
pub fn all_samples_were_night(daylight_flags: &[bool]) -> (r: bool)
    ensures
        r == (daylight_flags@.len() > 0 && forall|i: int| 0 <= i < daylight_flags@.len() ==> !#[trigger] daylight_flags@[i]),
{
    if daylight_flags.len() == 0 {
        return false;
    }
    let mut i: usize = 0;
    while i < daylight_flags.len()
        invariant
            i <= daylight_flags@.len(),
            forall|k: int| 0 <= k < i ==> !#[trigger] daylight_flags@[k],
        decreases daylight_flags@.len() - i,
    {
        if daylight_flags[i] {
            return false;
        }
        i = i + 1;
    }
    true
}

/// Whether the zone database (`chrono_tz::Tz::from_str`) knows a zone name.
pub uninterp spec fn known_zone(zone: Seq<char>) -> bool;

/// Whether `chrono_tz::Tz::from_str` accepts a zone name. Its table of names
/// holds `Europe/Istanbul`.
#[verifier::external_body]
fn zone_known(zone: &str) -> (r: bool)
    ensures
        r == known_zone(zone@),
        zone@ == "Europe/Istanbul"@ ==> r,
{
    zone.parse::<chrono_tz::Tz>().is_ok()
}

/// The local hour and minute of a UTC instant in the named IANA time zone,
/// `None` when the zone database does not know the name.
pub uninterp spec fn local_clock(zone: Seq<char>, seconds: i64, nanos: u32) -> Option<(u32, u32)>;

/// The local hour and minute of an instant in a named time zone
/// (`chrono_tz::Tz::from_str`, then `DateTime::with_timezone` and the hour and
/// minute of the result). There is a result exactly when the name is known:
/// `DateTime::from_timestamp` accepts every well-formed instant, and the
/// table of names holds `Europe/Istanbul`. chrono documents hours below 24
/// and minutes below 60.
#[verifier::external_body]
fn local_time_of_day(zone: &str, t: UtcInstant) -> (r: Option<(u32, u32)>)
    requires
        t.wf(),
    ensures
        r == local_clock(zone@, t.seconds, t.nanos),
        r is Some <==> known_zone(zone@),
        zone@ == "Europe/Istanbul"@ ==> r is Some,
        r matches Some(hm) ==> hm.0 < 24 && hm.1 < 60,
{
    match zone.parse::<chrono_tz::Tz>() {
        Ok(tz) => match chrono::DateTime::from_timestamp(t.seconds, t.nanos) {
            Some(utc) => {
                let local = utc.with_timezone(&tz);
                Some((local.hour(), local.minute()))
            },
            None => None,
        },
        Err(_) => None,
    }
}

/// The zone a plant's samples are read in: its own when the zone database
/// knows it, else Europe/Istanbul.
pub open spec fn effective_zone(zone: Seq<char>) -> Seq<char> {
    if known_zone(zone) { zone } else { "Europe/Istanbul"@ }
}

/// Minutes since local midnight.
pub open spec fn minute_of_day(hm: (u32, u32)) -> int {
    hm.0 * 60 + hm.1
}

/// Two times of day are at most `tolerance` minutes apart, going round midnight if shorter.
pub open spec fn within_window(a: int, b: int, tolerance: i64) -> bool {
    let difference = if a >= b { a - b } else { b - a };
    (if difference < 1440 - difference { difference } else { 1440 - difference }) <= tolerance
}

/// A history sample taken at `t` lies in the local-time window of the new sample.
pub open spec fn in_local_window(zone: Seq<char>, sample_time: UtcInstant, t: UtcInstant, tolerance: i64) -> bool {
    let z = effective_zone(zone);
    match (local_clock(z, sample_time.seconds, sample_time.nanos), local_clock(z, t.seconds, t.nanos)) {
        (Some(target), Some(local)) => within_window(minute_of_day(local), minute_of_day(target), tolerance),
        _ => false,
    }
}

/// The comparison window counts minutes: a history sample whose local time
/// is `h:m` lies in the window of a new sample at local time `h0:m0` exactly
/// when the minutes between `h0 * 60 + m0` and `h * 60 + m`, going the short
/// way round midnight, are at most the tolerance.
pub proof fn lemma_window_counts_minutes(
    zone: Seq<char>,
    sample_time: UtcInstant,
    t: UtcInstant,
    tolerance: i64,
    h0: u32,
    m0: u32,
    h: u32,
    m: u32,
)
    requires
        local_clock(effective_zone(zone), sample_time.seconds, sample_time.nanos) == Some((h0, m0)),
        local_clock(effective_zone(zone), t.seconds, t.nanos) == Some((h, m)),
    ensures
        in_local_window(zone, sample_time, t, tolerance) <==> ({
            let apart: int = if h * 60 + m >= h0 * 60 + m0 {
                (h * 60 + m) - (h0 * 60 + m0)
            } else {
                (h0 * 60 + m0) - (h * 60 + m)
            };
            (apart <= tolerance) || (1440 - apart <= tolerance)
        }),
{
}

/// Keeps, in order, the indices of the history samples taken within
/// `tolerance_minutes` of the new sample's local time of day, read in the
/// plant's zone or, when the zone database does not know it, in
/// Europe/Istanbul. Every instant has a local time in that zone.
pub fn same_local_time_history(
    sampled_at: &[UtcInstant],
    timezone: &str,
    sample_time: UtcInstant,
    tolerance_minutes: i64,
) -> (r: Vec<usize>)
    requires
        sample_time.wf(),
        forall|i: int| 0 <= i < sampled_at@.len() ==> (#[trigger] sampled_at@[i]).wf(),
    ensures
        r@ == Seq::new(sampled_at@.len(), |i: int| i as usize).filter(
            |i: usize| in_local_window(timezone@, sample_time, sampled_at@[i as int], tolerance_minutes),
        ),
        known_zone(effective_zone(timezone@)),
        local_clock(effective_zone(timezone@), sample_time.seconds, sample_time.nanos) is Some,
        forall|i: int| 0 <= i < sampled_at@.len()
            ==> local_clock(effective_zone(timezone@), (#[trigger] sampled_at@[i]).seconds, sampled_at@[i].nanos) is Some,
{
    let zone: &str = if zone_known(timezone) { timezone } else { "Europe/Istanbul" };
    proof {
        if !known_zone(timezone@) {
            reveal_strlit("Europe/Istanbul");
        }
    }
    let target = local_time_of_day(zone, sample_time);
    let ghost keep = |i: usize| in_local_window(timezone@, sample_time, sampled_at@[i as int], tolerance_minutes);
    let ghost all = Seq::new(sampled_at@.len(), |i: int| i as usize);
    let mut kept: Vec<usize> = Vec::new();
    let mut i: usize = 0;
    proof {
        assert(all.take(0) =~= Seq::<usize>::empty());
        assert(Seq::<usize>::empty().filter(keep) =~= Seq::<usize>::empty());
    }
    while i < sampled_at.len()
        invariant
            i <= sampled_at@.len(),
            sample_time.wf(),
            forall|k: int| 0 <= k < sampled_at@.len() ==> (#[trigger] sampled_at@[k]).wf(),
            zone@ == effective_zone(timezone@),
            known_zone(zone@),
            target == local_clock(zone@, sample_time.seconds, sample_time.nanos),
            target is Some,
            forall|k: int| 0 <= k < i ==> local_clock(zone@, (#[trigger] sampled_at@[k]).seconds, sampled_at@[k].nanos) is Some,
            target matches Some(hm) ==> hm.0 < 24 && hm.1 < 60,
            all == Seq::new(sampled_at@.len(), |i: int| i as usize),
            keep == (|i: usize| in_local_window(timezone@, sample_time, sampled_at@[i as int], tolerance_minutes)),
            kept@ == all.take(i as int).filter(keep),
        decreases sampled_at@.len() - i,
    {
        let local = local_time_of_day(zone, sampled_at[i]);
        let inside = match (target, local) {
            (Some(a), Some(b)) => {
                let target_minutes: i64 = a.0 as i64 * 60 + a.1 as i64;
                let minutes: i64 = b.0 as i64 * 60 + b.1 as i64;
                let difference: i64 = if minutes >= target_minutes { minutes - target_minutes } else { target_minutes - minutes };
                let shortest: i64 = if difference < 1440 - difference { difference } else { 1440 - difference };
                shortest <= tolerance_minutes
            },
            _ => false,
        };
        proof {
            assert(all.take(i + 1).drop_last() =~= all.take(i as int));
            assert(all.take(i + 1).last() == i);
            reveal_with_fuel(Seq::<_>::filter, 1);
            assert(inside == keep(i));
        }
        if inside {
            kept.push(i);
        }
        i = i + 1;
    }
    proof {
        assert(all.take(sampled_at@.len() as int) =~= all);
    }
    kept
}

/// Joins the warnings of a sync run for the dashboard with " · "; `None` when there are none.
pub fn warning_line(warnings: &[String]) -> (r: Option<String>)
    ensures
        warnings@.len() == 0 ==> r is None,
        warnings@.len() > 0 ==> (r matches Some(line) && line@ == joined(warnings@.map_values(|w: String| w@), " · "@)),
{
    if warnings.len() == 0 {
        return None;
    }
    Some(join_texts(warnings, " · "))
}

/// The warning when the plants' real-time power could not be read.
pub fn plant_power_warning(error: &str) -> (r: String)
    ensures
        r@ == "Santral gerçek zamanlı güç verisi alınamadı: "@ + error@,
{
    let mut warning = String::from_str("Santral gerçek zamanlı güç verisi alınamadı: ");
    warning.append(error);
    warning
}

/// The warning when the per-device real-time API does not answer.
pub fn device_realtime_warning() -> (r: String)
    ensures
        r@ == "Santral gücü alınabiliyor ancak cihaz bazlı gerçek zamanlı API mevcut planda yanıt vermiyor. String akım/gerilim verileri için Device Real-time Data erişimi olan plan veya tarayıcı tabanlı veri kaynağı gerekir."@,
{
    String::from_str("Santral gücü alınabiliyor ancak cihaz bazlı gerçek zamanlı API mevcut planda yanıt vermiyor. String akım/gerilim verileri için Device Real-time Data erişimi olan plan veya tarayıcı tabanlı veri kaynağı gerekir.")
}

/// The warning when an inverter's string readings could not be requested.
pub fn string_readings_warning(inverter_id: &str, error: &str) -> (r: String)
    ensures
        r@ == inverter_id@ + ": string ölçümleri alınamadı ("@ + error@ + ")"@,
{
    let mut warning = String::from_str(inverter_id);
    warning.append(": string ölçümleri alınamadı (");
    warning.append(error);
    warning.append(")");
    warning
}

/// The warning when an inverter's reply carries no device points.
pub fn missing_device_points_warning(inverter_id: &str) -> (r: String)
    ensures
        r@ == inverter_id@ + ": OpenAPI cevabında device_point bulunamadı"@,
{
    let mut warning = String::from_str(inverter_id);
    warning.append(": OpenAPI cevabında device_point bulunamadı");
    warning
}

} // verus!
