//! How the dashboard rolls string verdicts up into inverter and plant
//! summaries, and the names of strings discovered on an inverter.

use vstd::prelude::*;
use crate::domain::{Severity, REQUIRED_BASELINE_DAYS};

verus! {

/// One step of the roll-up: a more urgent status replaces a less urgent one.
pub open spec fn aggregate_step(best: Severity, status: Severity) -> Severity {
    if status == Severity::Critical || best == Severity::Critical {
        Severity::Critical
    } else if status == Severity::Suspicious || best == Severity::Suspicious {
        Severity::Suspicious
    } else if status == Severity::NoData || best == Severity::NoData {
        Severity::NoData
    } else if status == Severity::Unconfigured || best == Severity::Unconfigured {
        Severity::Unconfigured
    } else if status == Severity::Learning {
        Severity::Learning
    } else {
        best
    }
}

/// Rolling up a list of statuses from `Normal`, first to last.
pub open spec fn aggregate(statuses: Seq<Severity>) -> Severity
    decreases statuses.len(),
{
    if statuses.len() == 0 {
        Severity::Normal
    } else {
        aggregate_step(aggregate(statuses.drop_last()), statuses.last())
    }
}

/// The most urgent status present: critical, then suspicious, no data,
/// unconfigured, learning; `Normal` when none of these occurs.
pub open spec fn most_urgent(statuses: Seq<Severity>) -> Severity {
    if statuses.contains(Severity::Critical) {
        Severity::Critical
    } else if statuses.contains(Severity::Suspicious) {
        Severity::Suspicious
    } else if statuses.contains(Severity::NoData) {
        Severity::NoData
    } else if statuses.contains(Severity::Unconfigured) {
        Severity::Unconfigured
    } else if statuses.contains(Severity::Learning) {
        Severity::Learning
    } else {
        Severity::Normal
    }
}

/// Rolls a list of statuses up into one.
pub fn aggregate_status(statuses: &[Severity]) -> (r: Severity)
    ensures
        r == aggregate(statuses@),
{
    let mut best = Severity::Normal;
    let mut i: usize = 0;
    while i < statuses.len()
        invariant
            i <= statuses@.len(),
            best == aggregate(statuses@.subrange(0, i as int)),
        decreases statuses@.len() - i,
    {
        let status = statuses[i];
        proof {
            assert(statuses@.subrange(0, i + 1).drop_last() == statuses@.subrange(0, i as int));
        }
        best = match (best, status) {
            (_, Severity::Critical) => Severity::Critical,
            (Severity::Critical, _) => Severity::Critical,
            (_, Severity::Suspicious) => Severity::Suspicious,
            (Severity::Suspicious, _) => Severity::Suspicious,
            (_, Severity::NoData) => Severity::NoData,
            (Severity::NoData, _) => Severity::NoData,
            (_, Severity::Unconfigured) => Severity::Unconfigured,
            (Severity::Unconfigured, _) => Severity::Unconfigured,
            (_, Severity::Learning) => Severity::Learning,
            _ => best,
        };
        i = i + 1;
    }
    proof {
        assert(statuses@.subrange(0, statuses@.len() as int) == statuses@);
    }
    best
}

/// The roll-up is the most urgent status in the list.
pub proof fn lemma_aggregate_is_most_urgent(statuses: Seq<Severity>)
    ensures
        aggregate(statuses) == most_urgent(statuses),
    decreases statuses.len(),
{
    if statuses.len() > 0 {
        let init = statuses.drop_last();
        lemma_aggregate_is_most_urgent(init);
        assert(statuses == init.push(statuses.last()));
        assert forall|s: Severity| statuses.contains(s) <==> (init.contains(s) || s == statuses.last()) by {
            if statuses.contains(s) {
                let i = choose|i: int| 0 <= i < statuses.len() && statuses[i] == s;
                if i < init.len() {
                    assert(init[i] == s);
                }
            }
            if init.contains(s) {
                let i = choose|i: int| 0 <= i < init.len() && init[i] == s;
                assert(statuses[i] == s);
            }
            if s == statuses.last() {
                assert(statuses[statuses.len() - 1] == s);
            }
        }
    }
}

/// The roll-up depends only on which statuses occur: reordering or repeating
/// the strings of an inverter never changes its status.
pub proof fn lemma_aggregate_ignores_order(first: Seq<Severity>, second: Seq<Severity>)
    requires
        forall|s: Severity| first.contains(s) <==> second.contains(s),
    ensures
        aggregate(first) == aggregate(second),
{
    lemma_aggregate_is_most_urgent(first);
    lemma_aggregate_is_most_urgent(second);
}

/// What the roll-up reads of a string.
#[derive(Clone, Copy, Debug, PartialEq, Eq, Structural)]
pub struct StringState {
    pub severity: Severity,
    pub connected: bool,
    /// Distinct valid daylight days recorded for the string.
    pub learned_days: usize,
}

/// A string verdict that counts as an alert on the dashboard.
pub open spec fn is_alert(severity: Severity) -> bool {
    severity == Severity::Suspicious || severity == Severity::Critical
}

/// The number of alerting strings.
pub open spec fn alert_count(strings: Seq<StringState>) -> nat
    decreases strings.len(),
{
    if strings.len() == 0 {
        0
    } else {
        alert_count(strings.drop_last()) + if is_alert(strings.last().severity) { 1nat } else { 0nat }
    }
}

/// The fewest learned days among the connected strings, if any string is connected.
pub open spec fn min_connected_learned_days(strings: Seq<StringState>) -> Option<nat>
    decreases strings.len(),
{
    if strings.len() == 0 {
        None
    } else {
        let rest = min_connected_learned_days(strings.drop_last());
        let last = strings.last();
        if !last.connected {
            rest
        } else {
            match rest {
                None => Some(last.learned_days as nat),
                Some(m) => Some(if (last.learned_days as nat) < m { last.learned_days as nat } else { m }),
            }
        }
    }
}

/// The statuses of a list of strings.
pub open spec fn severities(strings: Seq<StringState>) -> Seq<Severity> {
    strings.map_values(|s: StringState| s.severity)
}

/// Days still missing until the analysis has its thirty-day baseline.
pub open spec fn days_until_analysis(learned_days: nat) -> nat {
    if learned_days >= REQUIRED_BASELINE_DAYS { 0 } else { (REQUIRED_BASELINE_DAYS - learned_days) as nat }
}

/// A count read from the database, with negative values taken as zero.
pub open spec fn clamp_count(value: i64) -> usize {
    if value <= 0 { 0 } else { value as usize }
}

/// The roll-up of one inverter.
#[derive(Clone, Copy, Debug, PartialEq, Eq, Structural)]
pub struct InverterRollup {
    pub status: Severity,
    pub learned_days: usize,
    pub days_until_analysis: usize,
    pub discovered_string_count: Option<usize>,
    pub cloud_alarm_count: usize,
    /// Strings configured on the inverter.
    pub string_count: usize,
    /// Configured strings whose verdict is an alert.
    pub alert_count: usize,
}

/// The roll-up of an inverter's strings, with the string count and alarm
/// count the cloud reported for it.
pub open spec fn inverter_rollup_of(
    strings: Seq<StringState>,
    discovered_string_count: Option<i64>,
    cloud_alarm_count: i64,
) -> InverterRollup {
    let learned: nat = match min_connected_learned_days(strings) { Some(m) => m, None => 0 };
    InverterRollup {
        status: if strings.len() == 0 { Severity::Unconfigured } else { aggregate(severities(strings)) },
        learned_days: learned as usize,
        days_until_analysis: days_until_analysis(learned) as usize,
        discovered_string_count: match discovered_string_count {
            Some(v) => if 0 < v && v <= usize::MAX { Some(v as usize) } else { None },
            None => None,
        },
        cloud_alarm_count: clamp_count(cloud_alarm_count),
        string_count: strings.len() as usize,
        alert_count: alert_count(strings) as usize,
    }
}

/// Rolls the strings of an inverter up: its status (unconfigured without
/// strings), its learned days (the fewest among connected strings, 0 if none)
/// and the days still missing, the string count the cloud reported (when
/// positive), and its alert count.
pub fn summarize_inverter(
    strings: &[StringState],
    discovered_string_count: Option<i64>,
    cloud_alarm_count: i64,
) -> (r: InverterRollup)
    ensures
        r.status == (if strings@.len() == 0 { Severity::Unconfigured } else { aggregate(severities(strings@)) }),
        r.learned_days == (match min_connected_learned_days(strings@) { Some(m) => m, None => 0 }),
        r.days_until_analysis == days_until_analysis(r.learned_days as nat),
        r.discovered_string_count == (match discovered_string_count {
            Some(v) => if 0 < v && v <= usize::MAX { Some(v as usize) } else { None },
            None => None,
        }),
        r.discovered_string_count != Some(0usize),
        r.cloud_alarm_count == clamp_count(cloud_alarm_count),
        r.string_count == strings@.len(),
        r.alert_count == alert_count(strings@),
        r == inverter_rollup_of(strings@, discovered_string_count, cloud_alarm_count),
{
    let mut statuses: Vec<Severity> = Vec::new();
    let mut learned: Option<usize> = None;
    let mut alerts: usize = 0;
    let mut i: usize = 0;
    while i < strings.len()
        invariant
            i <= strings@.len(),
            statuses@ == severities(strings@.subrange(0, i as int)),
            learned matches Some(v) ==> min_connected_learned_days(strings@.subrange(0, i as int)) == Some(v as nat),
            learned is None ==> min_connected_learned_days(strings@.subrange(0, i as int)) is None,
            alerts == alert_count(strings@.subrange(0, i as int)),
            alerts <= i,
        decreases strings@.len() - i,
    {
        let s = strings[i];
        proof {
            assert(strings@.subrange(0, i + 1).drop_last() == strings@.subrange(0, i as int));
        }
        statuses.push(s.severity);
        if s.connected {
            learned = match learned {
                None => Some(s.learned_days),
                Some(m) => Some(if s.learned_days < m { s.learned_days } else { m }),
            };
        }
        if s.severity == Severity::Suspicious || s.severity == Severity::Critical {
            alerts = alerts + 1;
        }
        i = i + 1;
        proof {
            assert(statuses@ =~= severities(strings@.subrange(0, i as int)));
        }
    }
    proof {
        assert(strings@.subrange(0, strings@.len() as int) == strings@);
    }
    let status = if strings.len() == 0 { Severity::Unconfigured } else { aggregate_status(statuses.as_slice()) };
    let learned_days = match learned { Some(m) => m, None => 0 };
    let days_until = if learned_days >= REQUIRED_BASELINE_DAYS { 0 } else { REQUIRED_BASELINE_DAYS - learned_days };
    let discovered = match discovered_string_count {
        Some(v) => if 0 < v && v as u64 <= usize::MAX as u64 { Some(v as usize) } else { None },
        None => None,
    };
    let alarms: usize = if cloud_alarm_count <= 0 { 0 } else { cloud_alarm_count as usize };
    InverterRollup {
        status,
        learned_days,
        days_until_analysis: days_until,
        discovered_string_count: discovered,
        cloud_alarm_count: alarms,
        string_count: strings.len(),
        alert_count: alerts,
    }
}

/// Strings configured on all inverters.
pub open spec fn total_strings(inverters: Seq<InverterRollup>) -> nat
    decreases inverters.len(),
{
    if inverters.len() == 0 { 0 } else { total_strings(inverters.drop_last()) + inverters.last().string_count as nat }
}

/// The string counts the cloud reported, summed over the inverters that report one.
pub open spec fn total_discovered(inverters: Seq<InverterRollup>) -> nat
    decreases inverters.len(),
{
    if inverters.len() == 0 {
        0
    } else {
        total_discovered(inverters.drop_last()) + match inverters.last().discovered_string_count {
            Some(v) => v as nat,
            None => 0,
        }
    }
}

/// Alerting strings over all inverters.
pub open spec fn total_alerts(inverters: Seq<InverterRollup>) -> nat
    decreases inverters.len(),
{
    if inverters.len() == 0 { 0 } else { total_alerts(inverters.drop_last()) + inverters.last().alert_count as nat }
}

/// The fewest learned days among the inverters that have strings, if any has.
pub open spec fn min_learned_days_with_strings(inverters: Seq<InverterRollup>) -> Option<nat>
    decreases inverters.len(),
{
    if inverters.len() == 0 {
        None
    } else {
        let rest = min_learned_days_with_strings(inverters.drop_last());
        let last = inverters.last();
        if last.string_count == 0 {
            rest
        } else {
            match rest {
                None => Some(last.learned_days as nat),
                Some(m) => Some(if (last.learned_days as nat) < m { last.learned_days as nat } else { m }),
            }
        }
    }
}

/// The statuses of a list of inverters.
pub open spec fn inverter_statuses(inverters: Seq<InverterRollup>) -> Seq<Severity> {
    inverters.map_values(|i: InverterRollup| i.status)
}

/// The roll-up of one plant.
#[derive(Clone, Copy, Debug, PartialEq, Eq, Structural)]
pub struct PlantRollup {
    pub status: Severity,
    pub cloud_alarm_count: usize,
    pub inverter_count: usize,
    pub string_count: Option<usize>,
    pub alert_count: usize,
    pub learned_days: usize,
    pub days_until_analysis: usize,
}

/// The string count a plant shows: the configured strings when there are
/// any, else the strings the cloud reported, else unknown.
pub open spec fn shown_string_count(configured: nat, discovered: nat) -> Option<nat> {
    if configured > 0 { Some(configured) } else if discovered > 0 { Some(discovered) } else { None }
}

/// The roll-up of a plant's inverters, with the alarm count the cloud
/// reported for the plant.
pub open spec fn plant_rollup_of(
    schema_configured: bool,
    inverters: Seq<InverterRollup>,
    cloud_alarm_count: i64,
) -> PlantRollup {
    let learned: nat = match min_learned_days_with_strings(inverters) { Some(m) => m, None => 0 };
    PlantRollup {
        status: if !schema_configured { Severity::Unconfigured } else { aggregate(inverter_statuses(inverters)) },
        cloud_alarm_count: clamp_count(cloud_alarm_count),
        inverter_count: inverters.len() as usize,
        string_count: match shown_string_count(total_strings(inverters), total_discovered(inverters)) {
            Some(v) => Some(v as usize),
            None => None,
        },
        alert_count: total_alerts(inverters) as usize,
        learned_days: learned as usize,
        days_until_analysis: days_until_analysis(learned) as usize,
    }
}

/// Rolls the inverters of a plant up: unconfigured until the schema is saved,
/// else the most urgent inverter status; the string count to show; the alerts;
/// the fewest learned days among inverters with strings and the days still missing.
pub fn summarize_plant(
    schema_configured: bool,
    inverters: &[InverterRollup],
    cloud_alarm_count: i64,
) -> (r: PlantRollup)
    requires
        total_strings(inverters@) <= usize::MAX,
        total_discovered(inverters@) <= usize::MAX,
        total_alerts(inverters@) <= usize::MAX,
    ensures
        r.status == (if !schema_configured { Severity::Unconfigured } else { aggregate(inverter_statuses(inverters@)) }),
        r.cloud_alarm_count == clamp_count(cloud_alarm_count),
        r.inverter_count == inverters@.len(),
        r.string_count == (match shown_string_count(total_strings(inverters@), total_discovered(inverters@)) {
            Some(v) => Some(v as usize),
            None => None::<usize>,
        }),
        r.string_count != Some(0usize),
        r.alert_count == total_alerts(inverters@),
        r.learned_days == (match min_learned_days_with_strings(inverters@) { Some(m) => m, None => 0 }),
        r.days_until_analysis == days_until_analysis(r.learned_days as nat),
        r == plant_rollup_of(schema_configured, inverters@, cloud_alarm_count),
{
    let mut statuses: Vec<Severity> = Vec::new();
    let mut configured: usize = 0;
    let mut discovered: usize = 0;
    let mut alerts: usize = 0;
    let mut learned: Option<usize> = None;
    let mut i: usize = 0;
    while i < inverters.len()
        invariant
            i <= inverters@.len(),
            total_strings(inverters@) <= usize::MAX,
            total_discovered(inverters@) <= usize::MAX,
            total_alerts(inverters@) <= usize::MAX,
            statuses@ == inverter_statuses(inverters@.subrange(0, i as int)),
            configured == total_strings(inverters@.subrange(0, i as int)),
            discovered == total_discovered(inverters@.subrange(0, i as int)),
            alerts == total_alerts(inverters@.subrange(0, i as int)),
            learned matches Some(v) ==> min_learned_days_with_strings(inverters@.subrange(0, i as int)) == Some(v as nat),
            learned is None ==> min_learned_days_with_strings(inverters@.subrange(0, i as int)) is None,
        decreases inverters@.len() - i,
    {
        let inv = inverters[i];
        proof {
            assert(inverters@.subrange(0, i + 1).drop_last() == inverters@.subrange(0, i as int));
            lemma_totals_grow(inverters@, i as int + 1);
        }
        statuses.push(inv.status);
        configured = configured + inv.string_count;
        discovered = discovered + match inv.discovered_string_count { Some(v) => v, None => 0 };
        alerts = alerts + inv.alert_count;
        if inv.string_count > 0 {
            learned = match learned {
                None => Some(inv.learned_days),
                Some(m) => Some(if inv.learned_days < m { inv.learned_days } else { m }),
            };
        }
        i = i + 1;
        proof {
            assert(statuses@ =~= inverter_statuses(inverters@.subrange(0, i as int)));
        }
    }
    proof {
        assert(inverters@.subrange(0, inverters@.len() as int) == inverters@);
    }
    let status = if !schema_configured { Severity::Unconfigured } else { aggregate_status(statuses.as_slice()) };
    let string_count = if configured > 0 { Some(configured) } else if discovered > 0 { Some(discovered) } else { None };
    let learned_days = match learned { Some(m) => m, None => 0 };
    let days_until = if learned_days >= REQUIRED_BASELINE_DAYS { 0 } else { REQUIRED_BASELINE_DAYS - learned_days };
    let alarms: usize = if cloud_alarm_count <= 0 { 0 } else { cloud_alarm_count as usize };
    PlantRollup {
        status,
        cloud_alarm_count: alarms,
        inverter_count: inverters.len(),
        string_count,
        alert_count: alerts,
        learned_days,
        days_until_analysis: days_until,
    }
}

/// Sums over a prefix never exceed the sums over the whole list.
proof fn lemma_totals_grow(inverters: Seq<InverterRollup>, k: int)
    requires
        0 <= k <= inverters.len(),
    ensures
        total_strings(inverters.subrange(0, k)) <= total_strings(inverters),
        total_discovered(inverters.subrange(0, k)) <= total_discovered(inverters),
        total_alerts(inverters.subrange(0, k)) <= total_alerts(inverters),
    decreases inverters.len() - k,
{
    if k < inverters.len() {
        lemma_totals_grow(inverters, k + 1);
        assert(inverters.subrange(0, k + 1).drop_last() == inverters.subrange(0, k));
    } else {
        assert(inverters.subrange(0, k) == inverters);
    }
}

/// The state iSolarCloud reports leaves the analysis verdicts alone: an
/// inverter's status, alert count, string count and learning progress depend
/// on its strings only, whatever alarm count and string count the cloud gives.
pub proof fn lemma_cloud_state_leaves_inverter_verdicts(
    strings: Seq<StringState>,
    first_discovered: Option<i64>,
    second_discovered: Option<i64>,
    first_alarms: i64,
    second_alarms: i64,
)
    ensures
        ({
            let a = inverter_rollup_of(strings, first_discovered, first_alarms);
            let b = inverter_rollup_of(strings, second_discovered, second_alarms);
            a.status == b.status && a.alert_count == b.alert_count && a.string_count == b.string_count
                && a.learned_days == b.learned_days && a.days_until_analysis == b.days_until_analysis
        }),
{
}

proof fn lemma_same_verdict_totals(a: Seq<InverterRollup>, b: Seq<InverterRollup>)
    requires
        a.len() == b.len(),
        forall|i: int| 0 <= i < a.len() ==> (#[trigger] a[i]).alert_count == b[i].alert_count
            && a[i].string_count == b[i].string_count && a[i].learned_days == b[i].learned_days,
    ensures
        total_alerts(a) == total_alerts(b),
        total_strings(a) == total_strings(b),
        min_learned_days_with_strings(a) == min_learned_days_with_strings(b),
    decreases a.len(),
{
    if a.len() > 0 {
        let (ra, rb) = (a.drop_last(), b.drop_last());
        assert forall|i: int| 0 <= i < ra.len() implies (#[trigger] ra[i]).alert_count == rb[i].alert_count
            && ra[i].string_count == rb[i].string_count && ra[i].learned_days == rb[i].learned_days by {
            assert(ra[i] == a[i] && rb[i] == b[i]);
        }
        lemma_same_verdict_totals(ra, rb);
        assert(a.last() == a[a.len() - 1] && b.last() == b[b.len() - 1]);
    }
}

/// The state iSolarCloud reports leaves a plant's verdicts alone: with the
/// same inverter verdicts (status, alerts, strings, learning), the plant's
/// status, alert count and learning progress are the same, whatever alarm
/// counts and string counts the cloud gives for the plant and its inverters.
pub proof fn lemma_cloud_state_leaves_plant_verdicts(
    schema_configured: bool,
    first: Seq<InverterRollup>,
    second: Seq<InverterRollup>,
    first_alarms: i64,
    second_alarms: i64,
)
    requires
        first.len() == second.len(),
        forall|i: int| 0 <= i < first.len() ==> (#[trigger] first[i]).status == second[i].status
            && first[i].alert_count == second[i].alert_count && first[i].string_count == second[i].string_count
            && first[i].learned_days == second[i].learned_days,
    ensures
        ({
            let a = plant_rollup_of(schema_configured, first, first_alarms);
            let b = plant_rollup_of(schema_configured, second, second_alarms);
            a.status == b.status && a.alert_count == b.alert_count && a.inverter_count == b.inverter_count
                && a.learned_days == b.learned_days && a.days_until_analysis == b.days_until_analysis
        }),
{
    lemma_same_verdict_totals(first, second);
    assert(inverter_statuses(first) =~= inverter_statuses(second));
}

/// The learning indicator never runs past the baseline: learned days plus
/// missing days make thirty until the baseline is complete, and no days are
/// missing afterwards.
pub proof fn lemma_learning_countdown(learned_days: nat)
    ensures
        learned_days < REQUIRED_BASELINE_DAYS ==> learned_days + days_until_analysis(learned_days) == REQUIRED_BASELINE_DAYS,
        learned_days >= REQUIRED_BASELINE_DAYS ==> days_until_analysis(learned_days) == 0,
{
}

/// The id of a string discovered at a position of an inverter: `<inverter>:string:<position>`.
pub open spec fn discovered_string_id_text(inverter_id: Seq<char>, position: nat) -> Seq<char> {
    inverter_id + ":string:"@ + crate::text::decimal(position)
}

/// The label of a string discovered at a position: `String <position>`.
pub open spec fn discovered_string_label_text(position: nat) -> Seq<char> {
    "String "@ + crate::text::decimal(position)
}

/// Each position of an inverter gets its own string id, so strings
/// discovered at different positions never overwrite one another.
pub proof fn lemma_discovered_ids_differ(inverter_id: Seq<char>, first: nat, second: nat)
    requires
        first != second,
    ensures
        discovered_string_id_text(inverter_id, first) != discovered_string_id_text(inverter_id, second),
{
    let prefix = inverter_id + ":string:"@;
    if discovered_string_id_text(inverter_id, first) == discovered_string_id_text(inverter_id, second) {
        let a = discovered_string_id_text(inverter_id, first);
        let b = discovered_string_id_text(inverter_id, second);
        assert(a.subrange(prefix.len() as int, a.len() as int) =~= crate::text::decimal(first));
        assert(b.subrange(prefix.len() as int, b.len() as int) =~= crate::text::decimal(second));
        crate::text::lemma_decimal_injective(first, second);
    }
}

/// The id under which a discovered string is stored.
pub fn discovered_string_id(inverter_id: &str, position: usize) -> (r: String)
    ensures
        r@ == discovered_string_id_text(inverter_id@, position as nat),
{
    let mut id = String::from_str(inverter_id);
    id.append(":string:");
    let digits = crate::text::decimal_text(position as u64);
    id.append(digits.as_str());
    id
}

/// The label under which a discovered string is stored.
pub fn discovered_string_label(position: usize) -> (r: String)
    ensures
        r@ == discovered_string_label_text(position as nat),
{
    let mut label = String::from_str("String ");
    let digits = crate::text::decimal_text(position as u64);
    label.append(digits.as_str());
    label
}

/// Alerts add up: one more string adds one alert exactly when its verdict
/// is suspicious or critical, and one more inverter adds its alert count
/// (and its string count) to the plant's totals.
pub proof fn lemma_alerts_add_up(
    strings: Seq<StringState>,
    extra_string: StringState,
    inverters: Seq<InverterRollup>,
    extra_inverter: InverterRollup,
)
    ensures
        alert_count(strings.push(extra_string)) == alert_count(strings) + (if extra_string.severity
            == Severity::Suspicious || extra_string.severity == Severity::Critical { 1int } else { 0int }),
        total_alerts(inverters.push(extra_inverter)) == total_alerts(inverters) + extra_inverter.alert_count,
        total_strings(inverters.push(extra_inverter)) == total_strings(inverters) + extra_inverter.string_count,
{
    assert(strings.push(extra_string).drop_last() =~= strings);
    assert(inverters.push(extra_inverter).drop_last() =~= inverters);
}

proof fn lemma_total_alerts_concat(first: Seq<InverterRollup>, second: Seq<InverterRollup>)
    ensures
        total_alerts(first + second) == total_alerts(first) + total_alerts(second),
    decreases second.len(),
{
    if second.len() == 0 {
        assert(first + second =~= first);
    } else {
        lemma_total_alerts_concat(first, second.drop_last());
        assert((first + second).drop_last() =~= first + second.drop_last());
        assert((first + second).last() == second.last());
    }
}

/// A plant's alert count is the sum over its inverters: splitting the
/// inverters into two groups splits the alert count into the two groups' counts.
pub proof fn lemma_plant_alerts_are_the_sum(
    schema_configured: bool,
    first: Seq<InverterRollup>,
    second: Seq<InverterRollup>,
    cloud_alarm_count: i64,
)
    requires
        total_alerts(first + second) <= usize::MAX,
    ensures
        plant_rollup_of(schema_configured, first + second, cloud_alarm_count).alert_count
            == plant_rollup_of(schema_configured, first, cloud_alarm_count).alert_count
            + plant_rollup_of(schema_configured, second, cloud_alarm_count).alert_count,
{
    lemma_total_alerts_concat(first, second);
}

} // verus!
