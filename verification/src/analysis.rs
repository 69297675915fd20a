//! The string analysis: which history samples make up the daily baseline,
//! and the decision ladder that turns a measurement into a severity.

use vstd::prelude::*;
use crate::domain::{Severity, REQUIRED_BASELINE_DAYS};
use crate::time::UtcInstant;

verus! {

/// What the baseline selection reads of a stored measurement.
#[derive(Clone, Copy, Debug, PartialEq, Eq, Structural)]
pub struct HistorySample {
    pub sampled_at: UtcInstant,
    pub is_valid_daylight: bool,
    pub has_current: bool,
    pub has_voltage: bool,
}

/// A sample counts towards the baseline when it was taken in valid daylight
/// and carries both a current and a voltage.
pub open spec fn counts(sample: HistorySample) -> bool {
    sample.is_valid_daylight && sample.has_current && sample.has_voltage
}

/// The UTC day of the `i`-th sample.
pub open spec fn day_at(history: Seq<HistorySample>, i: int) -> int {
    history[i].sampled_at.day()
}

/// Sample `i` comes before sample `j` once the history is sorted by time
/// (a stable sort: equal times keep their order in the list).
pub open spec fn sorts_before(history: Seq<HistorySample>, i: int, j: int) -> bool {
    history[i].sampled_at.spec_lt(history[j].sampled_at)
        || (history[i].sampled_at == history[j].sampled_at && i < j)
}

/// `daily` lists, in increasing day order, one index per day on which some
/// sample counts: the sample that comes first on that day.
pub open spec fn is_daily_history(history: Seq<HistorySample>, daily: Seq<usize>) -> bool {
    &&& forall|k: int| 0 <= k < daily.len() ==> #[trigger] daily[k] < history.len() && counts(history[daily[k] as int])
    &&& forall|k: int, l: int| 0 <= k < l < daily.len() ==> day_at(history, #[trigger] daily[k] as int) < day_at(history, #[trigger] daily[l] as int)
    &&& forall|k: int, j: int|
        0 <= k < daily.len() && 0 <= j < history.len() && counts(history[j]) && day_at(history, j) == day_at(history, #[trigger] daily[k] as int) && j != daily[k]
            ==> #[trigger] sorts_before(history, daily[k] as int, j)
    &&& forall|j: int| 0 <= j < history.len() && #[trigger] counts(history[j]) ==> exists|k: int| 0 <= k < daily.len() && day_at(history, #[trigger] daily[k] as int) == day_at(history, j)
}

/// The days on which some sample counts.
pub open spec fn counted_days(history: Seq<HistorySample>) -> Set<int> {
    Set::new(|d: int| exists|j: int| 0 <= j < history.len() && counts(history[j]) && day_at(history, j) == d)
}

/// All samples lie in chrono's range.
pub open spec fn all_wf(history: Seq<HistorySample>) -> bool {
    forall|i: int| 0 <= i < history.len() ==> (#[trigger] history[i]).sampled_at.wf()
}

/// Picks, for every day with a counting sample, the first such sample of the
/// day, and lists them in time order: the daily baseline of the analysis.
pub fn distinct_daily_history(history: &[HistorySample]) -> (daily: Vec<usize>)
    requires
        all_wf(history@),
    ensures
        is_daily_history(history@, daily@),
{
    let n = history.len();
    let mut reps: Vec<usize> = Vec::new();
    let mut i: usize = 0;
    while i < n
        invariant
            n == history@.len(),
            i <= n,
            all_wf(history@),
            forall|k: int| 0 <= k < reps.len() ==> #[trigger] reps@[k] < i && counts(history@[reps@[k] as int]),
            forall|k: int, l: int| 0 <= k < reps.len() && 0 <= l < reps.len() && k != l ==> day_at(history@, #[trigger] reps@[k] as int) != day_at(history@, #[trigger] reps@[l] as int),
            forall|k: int, j: int|
                0 <= k < reps.len() && 0 <= j < i && counts(history@[j]) && day_at(history@, j) == day_at(history@, #[trigger] reps@[k] as int) && j != reps@[k]
                    ==> #[trigger] sorts_before(history@, reps@[k] as int, j),
            forall|j: int| 0 <= j < i && #[trigger] counts(history@[j]) ==> exists|k: int| 0 <= k < reps.len() && day_at(history@, #[trigger] reps@[k] as int) == day_at(history@, j),
        decreases n - i,
    {
        let sample = history[i];
        if sample.is_valid_daylight && sample.has_current && sample.has_voltage {
            let day = sample.sampled_at.day_number();
            let mut p: usize = 0;
            let mut found = false;
            while p < reps.len()
                invariant
                    n == history@.len(),
                    i < n,
                    sample == history@[i as int],
                    day == day_at(history@, i as int),
                    all_wf(history@),
                    p <= reps.len(),
                    forall|k: int| 0 <= k < reps.len() ==> #[trigger] reps@[k] < i,
                    !found ==> forall|k: int| 0 <= k < p ==> day_at(history@, #[trigger] reps@[k] as int) != day,
                    found ==> p < reps.len() && day_at(history@, reps@[p as int] as int) == day,
                ensures
                    found ==> p < reps.len() && day_at(history@, reps@[p as int] as int) == day,
                    !found ==> forall|k: int| 0 <= k < reps.len() ==> day_at(history@, #[trigger] reps@[k] as int) != day,
                decreases reps.len() - p + (if found { 0int } else { 1int }),
            {
                let rep_day = history[reps[p]].sampled_at.day_number();
                if rep_day == day {
                    found = true;
                    break;
                }
                p = p + 1;
            }
            if found {
                let current = reps[p];
                if sample.sampled_at.seconds < history[current].sampled_at.seconds
                    || (sample.sampled_at.seconds == history[current].sampled_at.seconds
                        && sample.sampled_at.nanos < history[current].sampled_at.nanos) {
                    let ghost old_reps = reps@;
                    reps.set(p, i);
                    proof {
                        assert(day_at(history@, reps@[p as int] as int) == day_at(history@, old_reps[p as int] as int));
                        assert forall|k: int, l: int| 0 <= k < reps.len() && 0 <= l < reps.len() && k != l implies day_at(history@, #[trigger] reps@[k] as int) != day_at(history@, #[trigger] reps@[l] as int) by {
                            assert(day_at(history@, old_reps[k] as int) != day_at(history@, old_reps[l] as int));
                            if k == p as int {
                                assert(reps@[l] == old_reps[l]);
                            } else if l == p as int {
                                assert(reps@[k] == old_reps[k]);
                            } else {
                                assert(reps@[k] == old_reps[k] && reps@[l] == old_reps[l]);
                            }
                        }
                        assert forall|k: int, j: int|
                            0 <= k < reps.len() && 0 <= j < i + 1 && counts(history@[j]) && day_at(history@, j) == day_at(history@, #[trigger] reps@[k] as int) && j != reps@[k]
                                implies #[trigger] sorts_before(history@, reps@[k] as int, j) by {
                            if k == p as int {
                                if j != current as int && j < i {
                                    assert(sorts_before(history@, old_reps[k] as int, j));
                                }
                            }
                        }
                        assert forall|j: int| 0 <= j < i + 1 && #[trigger] counts(history@[j]) implies exists|k: int| 0 <= k < reps.len() && day_at(history@, #[trigger] reps@[k] as int) == day_at(history@, j) by {
                            if j < i {
                                let k0 = choose|k: int| 0 <= k < old_reps.len() && day_at(history@, #[trigger] old_reps[k] as int) == day_at(history@, j);
                                if k0 == p as int {
                                    assert(day_at(history@, reps@[k0] as int) == day_at(history@, j));
                                } else {
                                    assert(reps@[k0] == old_reps[k0]);
                                }
                            } else {
                                assert(day_at(history@, reps@[p as int] as int) == day_at(history@, j));
                            }
                        }
                    }
                } else {
                    proof {
                        assert forall|k: int, j: int|
                            0 <= k < reps.len() && 0 <= j < i + 1 && counts(history@[j]) && day_at(history@, j) == day_at(history@, #[trigger] reps@[k] as int) && j != reps@[k]
                                implies #[trigger] sorts_before(history@, reps@[k] as int, j) by {
                            if j == i as int {
                                if k != p as int {
                                    assert(day_at(history@, reps@[k] as int) != day_at(history@, reps@[p as int] as int));
                                }
                            }
                        }
                        assert forall|j: int| 0 <= j < i + 1 && #[trigger] counts(history@[j]) implies exists|k: int| 0 <= k < reps.len() && day_at(history@, #[trigger] reps@[k] as int) == day_at(history@, j) by {
                            if j == i {
                                assert(day_at(history@, reps@[p as int] as int) == day_at(history@, j));
                            }
                        }
                    }
                }
            } else {
                let ghost old_reps = reps@;
                reps.push(i);
                proof {
                    assert forall|k: int| 0 <= k < old_reps.len() implies day_at(history@, #[trigger] old_reps[k] as int) != day_at(history@, i as int) by {}
                    assert forall|k: int, l: int| 0 <= k < reps.len() && 0 <= l < reps.len() && k != l implies day_at(history@, #[trigger] reps@[k] as int) != day_at(history@, #[trigger] reps@[l] as int) by {
                        if k < old_reps.len() && l < old_reps.len() {
                            assert(reps@[k] == old_reps[k] && reps@[l] == old_reps[l]);
                        } else if k < old_reps.len() {
                            assert(reps@[k] == old_reps[k]);
                        } else {
                            assert(reps@[l] == old_reps[l]);
                        }
                    }
                    assert forall|k: int, j: int|
                        0 <= k < reps.len() && 0 <= j < i + 1 && counts(history@[j]) && day_at(history@, j) == day_at(history@, #[trigger] reps@[k] as int) && j != reps@[k]
                            implies #[trigger] sorts_before(history@, reps@[k] as int, j) by {
                        if k < old_reps.len() {
                            assert(reps@[k] == old_reps[k]);
                        } else {
                            if j < i {
                                let k0 = choose|k1: int| 0 <= k1 < old_reps.len() && day_at(history@, #[trigger] old_reps[k1] as int) == day_at(history@, j);
                                assert(false);
                            }
                        }
                    }
                    assert forall|j: int| 0 <= j < i + 1 && #[trigger] counts(history@[j]) implies exists|k: int| 0 <= k < reps.len() && day_at(history@, #[trigger] reps@[k] as int) == day_at(history@, j) by {
                        if j < i {
                            let k0 = choose|k: int| 0 <= k < old_reps.len() && day_at(history@, #[trigger] old_reps[k] as int) == day_at(history@, j);
                            assert(reps@[k0] == old_reps[k0]);
                        } else {
                            assert(reps@[old_reps.len() as int] == i);
                        }
                    }
                }
            }
        }
        i = i + 1;
    }
    reps_in_day_order(history, reps)
}

/// Sorts the representatives of distinct days by their day.
fn reps_in_day_order(history: &[HistorySample], reps: Vec<usize>) -> (daily: Vec<usize>)
    requires
        all_wf(history@),
        forall|k: int| 0 <= k < reps.len() ==> #[trigger] reps@[k] < history@.len() && counts(history@[reps@[k] as int]),
        forall|k: int, l: int| 0 <= k < reps.len() && 0 <= l < reps.len() && k != l ==> day_at(history@, #[trigger] reps@[k] as int) != day_at(history@, #[trigger] reps@[l] as int),
        forall|k: int, j: int|
            0 <= k < reps.len() && 0 <= j < history@.len() && counts(history@[j]) && day_at(history@, j) == day_at(history@, #[trigger] reps@[k] as int) && j != reps@[k]
                ==> #[trigger] sorts_before(history@, reps@[k] as int, j),
        forall|j: int| 0 <= j < history@.len() && #[trigger] counts(history@[j]) ==> exists|k: int| 0 <= k < reps.len() && day_at(history@, #[trigger] reps@[k] as int) == day_at(history@, j),
    ensures
        is_daily_history(history@, daily@),
{
    let mut out: Vec<usize> = Vec::new();
    let mut m: usize = 0;
    while m < reps.len()
        invariant
            m <= reps.len(),
            all_wf(history@),
            forall|k: int| 0 <= k < reps.len() ==> #[trigger] reps@[k] < history@.len(),
            forall|k: int, l: int| 0 <= k < reps.len() && 0 <= l < reps.len() && k != l ==> day_at(history@, #[trigger] reps@[k] as int) != day_at(history@, #[trigger] reps@[l] as int),
            forall|y: usize| out@.contains(y) <==> reps@.subrange(0, m as int).contains(y),
            forall|k: int| 0 <= k < out.len() ==> #[trigger] out@[k] < history@.len(),
            forall|k: int, l: int| 0 <= k < l < out.len() ==> day_at(history@, #[trigger] out@[k] as int) < day_at(history@, #[trigger] out@[l] as int),
        decreases reps.len() - m,
    {
        let x = reps[m];
        let x_day = history[x].sampled_at.day_number();
        let mut pos: usize = 0;
        while pos < out.len() && history[out[pos]].sampled_at.day_number() <= x_day
            invariant
                pos <= out.len(),
                m < reps.len(),
                x == reps@[m as int],
                x < history@.len(),
                x_day == day_at(history@, x as int),
                all_wf(history@),
                forall|k: int| 0 <= k < reps.len() ==> #[trigger] reps@[k] < history@.len(),
                forall|k: int, l: int| 0 <= k < reps.len() && 0 <= l < reps.len() && k != l ==> day_at(history@, #[trigger] reps@[k] as int) != day_at(history@, #[trigger] reps@[l] as int),
                forall|y: usize| out@.contains(y) <==> reps@.subrange(0, m as int).contains(y),
                forall|k: int| 0 <= k < out.len() ==> #[trigger] out@[k] < history@.len(),
                forall|k: int| 0 <= k < pos ==> day_at(history@, #[trigger] out@[k] as int) < x_day,
            decreases out.len() - pos,
        {
            proof {
                let y = out@[pos as int];
                assert(out@.contains(y));
                assert(reps@.subrange(0, m as int).contains(y));
                let q = choose|q: int| 0 <= q < m && reps@.subrange(0, m as int)[q] == y;
                assert(reps@[q] == y);
                assert(day_at(history@, reps@[q] as int) != day_at(history@, reps@[m as int] as int));
            }
            pos = pos + 1;
        }
        let ghost old_out = out@;
        proof {
            assert forall|k: int| pos <= k < old_out.len() implies day_at(history@, #[trigger] old_out[k] as int) > x_day by {
                if k > pos as int {
                    assert(day_at(history@, old_out[pos as int] as int) < day_at(history@, old_out[k] as int));
                }
            }
        }
        out.insert(pos, x);
        proof {
            assert(out@ == old_out.insert(pos as int, x));
            assert forall|k: int, l: int| 0 <= k < l < out.len() implies day_at(history@, #[trigger] out@[k] as int) < day_at(history@, #[trigger] out@[l] as int) by {
                if l < pos as int {
                    assert(out@[k] == old_out[k] && out@[l] == old_out[l]);
                } else if l == pos as int {
                    assert(out@[k] == old_out[k]);
                } else if k < pos as int {
                    assert(out@[k] == old_out[k] && out@[l] == old_out[l - 1]);
                } else if k == pos as int {
                    assert(out@[l] == old_out[l - 1]);
                } else {
                    assert(out@[k] == old_out[k - 1] && out@[l] == old_out[l - 1]);
                }
            }
            assert forall|k: int| 0 <= k < out.len() implies #[trigger] out@[k] < history@.len() by {
                if k < pos as int {
                    assert(out@[k] == old_out[k]);
                } else if k > pos as int {
                    assert(out@[k] == old_out[k - 1]);
                }
            }
            let next = reps@.subrange(0, m + 1);
            assert forall|y: usize| out@.contains(y) <==> next.contains(y) by {
                if out@.contains(y) {
                    let i0 = choose|i0: int| 0 <= i0 < out.len() && out@[i0] == y;
                    if i0 < pos as int {
                        assert(out@[i0] == old_out[i0]);
                        assert(old_out.contains(y));
                        let q = choose|q: int| 0 <= q < m && reps@.subrange(0, m as int)[q] == y;
                        assert(next[q] == y);
                    } else if i0 > pos as int {
                        assert(out@[i0] == old_out[i0 - 1]);
                        assert(old_out.contains(y));
                        let q = choose|q: int| 0 <= q < m && reps@.subrange(0, m as int)[q] == y;
                        assert(next[q] == y);
                    } else {
                        assert(next[m as int] == y);
                    }
                }
                if next.contains(y) {
                    let q = choose|q: int| 0 <= q < next.len() && next[q] == y;
                    if q < m {
                        assert(reps@.subrange(0, m as int)[q] == y);
                        assert(old_out.contains(y));
                        let i0 = choose|i0: int| 0 <= i0 < old_out.len() && old_out[i0] == y;
                        if i0 < pos as int {
                            assert(out@[i0] == y);
                        } else {
                            assert(out@[i0 + 1] == y);
                        }
                    } else {
                        assert(out@[pos as int] == y);
                    }
                }
            }
        }
        m = m + 1;
    }
    proof {
        assert(reps@.subrange(0, reps.len() as int) == reps@);
        assert forall|k: int| 0 <= k < out.len() implies #[trigger] out@[k] < history@.len() && counts(history@[out@[k] as int]) by {
            assert(out@.contains(out@[k]));
            let q = choose|q: int| 0 <= q < reps.len() && reps@[q] == out@[k];
            assert(reps@[q] < history@.len());
        }
        assert forall|k: int, j: int|
            0 <= k < out.len() && 0 <= j < history@.len() && counts(history@[j]) && day_at(history@, j) == day_at(history@, #[trigger] out@[k] as int) && j != out@[k]
                implies #[trigger] sorts_before(history@, out@[k] as int, j) by {
            assert(out@.contains(out@[k]));
            let q = choose|q: int| 0 <= q < reps.len() && reps@[q] == out@[k];
            assert(day_at(history@, j) == day_at(history@, reps@[q] as int));
        }
        assert forall|j: int| 0 <= j < history@.len() && #[trigger] counts(history@[j]) implies exists|k: int| 0 <= k < out.len() && day_at(history@, #[trigger] out@[k] as int) == day_at(history@, j) by {
            let k0 = choose|k: int| 0 <= k < reps.len() && day_at(history@, #[trigger] reps@[k] as int) == day_at(history@, j);
            assert(reps@.contains(reps@[k0]));
            assert(out@.contains(reps@[k0]));
            let i0 = choose|i0: int| 0 <= i0 < out.len() && out@[i0] == reps@[k0];
            assert(day_at(history@, out@[i0] as int) == day_at(history@, j));
        }
    }
    out
}

/// The days listed by a daily history are exactly the days on which some sample counts.
pub proof fn lemma_daily_history_covers_counted_days(history: Seq<HistorySample>, daily: Seq<usize>)
    requires
        is_daily_history(history, daily),
    ensures
        Set::new(|d: int| exists|k: int| 0 <= k < daily.len() && day_at(history, daily[k] as int) == d) == counted_days(history),
{
    let listed = Set::new(|d: int| exists|k: int| 0 <= k < daily.len() && day_at(history, daily[k] as int) == d);
    assert forall|d: int| listed.contains(d) <==> counted_days(history).contains(d) by {
        if listed.contains(d) {
            let k = choose|k: int| 0 <= k < daily.len() && day_at(history, daily[k] as int) == d;
            assert(daily[k] < history.len() && counts(history[daily[k] as int]));
        }
        if counted_days(history).contains(d) {
            let j = choose|j: int| 0 <= j < history.len() && counts(history[j]) && day_at(history, j) == d;
            assert(counts(history[j]));
        }
    }
    assert(listed =~= counted_days(history));
}

/// A sample taken at night, or without a current or a voltage, never adds a
/// day to the baseline.
pub proof fn lemma_non_counting_sample_adds_no_day(history: Seq<HistorySample>, extra: HistorySample)
    requires
        !counts(extra),
    ensures
        counted_days(history.push(extra)) == counted_days(history),
{
    let longer = history.push(extra);
    assert forall|d: int| counted_days(longer).contains(d) <==> counted_days(history).contains(d) by {
        if counted_days(longer).contains(d) {
            let j = choose|j: int| 0 <= j < longer.len() && counts(longer[j]) && day_at(longer, j) == d;
            if j == history.len() {
                assert(longer[j] == extra);
            }
            assert(longer[j] == history[j]);
            assert(0 <= j < history.len() && counts(history[j]) && day_at(history, j) == d);
        }
        if counted_days(history).contains(d) {
            let j = choose|j: int| 0 <= j < history.len() && counts(history[j]) && day_at(history, j) == d;
            assert(longer[j] == history[j]);
            assert(0 <= j < longer.len() && counts(longer[j]) && day_at(longer, j) == d);
        }
    }
    assert(counted_days(longer) =~= counted_days(history));
}

/// What the decision ladder reads about a measurement. The comparisons of
/// currents and voltages (against the zero thresholds, the robust deviation
/// scores of the history and the median of the sibling strings) are made by
/// the caller on floating-point values and handed over as booleans.
#[derive(Clone, Copy, Debug, PartialEq, Eq, Structural)]
pub struct AnalysisSignals {
    /// The plant's connection schema has been saved.
    pub schema_configured: bool,
    /// The schema marks the string as connected.
    pub connected: bool,
    /// The measurement carries both a current and a voltage.
    pub has_current_and_voltage: bool,
    /// The measurement was taken in valid daylight.
    pub is_valid_daylight: bool,
    /// Some sibling string of the inverter produces current.
    pub peers_active: bool,
    /// Current and voltage are both at or below the plant's zero thresholds.
    pub within_zero_thresholds: bool,
    /// The number of distinct days in the measurement's daily baseline.
    pub learned_days: usize,
    /// The current or the voltage deviates from the daily baseline (robust score above 3.5).
    pub historically_abnormal: bool,
    /// The current lies outside 55%..145% of the sibling strings' median current.
    pub peer_abnormal: bool,
}

/// The verdict of the analysis and the reason shown to the user.
pub struct AnalysisOutcome {
    pub severity: Severity,
    pub reason: String,
}

/// The severity the decision ladder gives.
pub open spec fn severity_for(s: AnalysisSignals) -> Severity {
    if !s.schema_configured {
        Severity::Unconfigured
    } else if !s.connected {
        Severity::Disconnected
    } else if !s.has_current_and_voltage {
        Severity::NoData
    } else if !s.is_valid_daylight {
        Severity::Night
    } else if s.peers_active && s.within_zero_thresholds {
        Severity::Critical
    } else if s.learned_days < REQUIRED_BASELINE_DAYS {
        Severity::Learning
    } else if s.historically_abnormal && s.peer_abnormal {
        Severity::Suspicious
    } else {
        Severity::Normal
    }
}

/// The reason the decision ladder gives.
pub open spec fn reason_for(s: AnalysisSignals) -> Seq<char> {
    if !s.schema_configured {
        "GES bağlantı şeması hazırlanmalı"@
    } else if !s.connected {
        "String şemada bağlantısız; alarm değerlendirmesine alınmadı"@
    } else if !s.has_current_and_voltage {
        "Akım veya gerilim değeri API cevabında yok"@
    } else if !s.is_valid_daylight {
        "Gece ölçümü analize dahil edilmedi"@
    } else if s.peers_active && s.within_zero_thresholds {
        "Bağlı string gündüz üretim koşulunda sıfıra yakın"@
    } else if s.learned_days < REQUIRED_BASELINE_DAYS {
        "30 geçerli gündüzün "@ + crate::text::decimal(s.learned_days as nat) + " tanesi toplandı"@
    } else if s.historically_abnormal && s.peer_abnormal {
        "Değer hem bir aylık geçmişten hem de kardeş stringlerden sapıyor"@
    } else {
        "Değerler bir aylık karşılaştırma aralığında"@
    }
}

fn outcome(severity: Severity, reason: &str) -> (r: AnalysisOutcome)
    ensures
        r.severity == severity,
        r.reason@ == reason@,
{
    AnalysisOutcome { severity, reason: String::from_str(reason) }
}

/// Classifies a measurement: unconfigured plant, disconnected string, missing
/// value, night, critical near-zero output, learning, suspicious deviation or normal.
pub fn analyze(signals: &AnalysisSignals) -> (r: AnalysisOutcome)
    ensures
        r.severity == severity_for(*signals),
        r.reason@ == reason_for(*signals),
{
    if !signals.schema_configured {
        return outcome(Severity::Unconfigured, "GES bağlantı şeması hazırlanmalı");
    }
    if !signals.connected {
        return outcome(Severity::Disconnected, "String şemada bağlantısız; alarm değerlendirmesine alınmadı");
    }
    if !signals.has_current_and_voltage {
        return outcome(Severity::NoData, "Akım veya gerilim değeri API cevabında yok");
    }
    if !signals.is_valid_daylight {
        return outcome(Severity::Night, "Gece ölçümü analize dahil edilmedi");
    }
    if signals.peers_active && signals.within_zero_thresholds {
        return outcome(Severity::Critical, "Bağlı string gündüz üretim koşulunda sıfıra yakın");
    }
    if signals.learned_days < REQUIRED_BASELINE_DAYS {
        let mut reason = String::from_str("30 geçerli gündüzün ");
        let count = crate::text::decimal_text(signals.learned_days as u64);
        reason.append(count.as_str());
        reason.append(" tanesi toplandı");
        return AnalysisOutcome { severity: Severity::Learning, reason };
    }
    if signals.historically_abnormal && signals.peer_abnormal {
        return outcome(Severity::Suspicious, "Değer hem bir aylık geçmişten hem de kardeş stringlerden sapıyor");
    }
    outcome(Severity::Normal, "Değerler bir aylık karşılaştırma aralığında")
}

/// A red alarm comes only from a connected string of a configured plant whose
/// current and voltage are both near zero in valid daylight while its siblings
/// produce; and such a measurement always raises it.
pub proof fn lemma_critical_exactly_when_connected_daylight_zero(s: AnalysisSignals)
    ensures
        severity_for(s) == Severity::Critical <==> (s.schema_configured && s.connected
            && s.has_current_and_voltage && s.is_valid_daylight && s.peers_active
            && s.within_zero_thresholds),
{
}

/// A yellow alarm needs a complete baseline of thirty valid days and a
/// deviation from both the history and the sibling strings.
pub proof fn lemma_suspicious_needs_baseline_and_both_deviations(s: AnalysisSignals)
    ensures
        severity_for(s) == Severity::Suspicious ==> (s.learned_days >= REQUIRED_BASELINE_DAYS
            && s.historically_abnormal && s.peer_abnormal && s.is_valid_daylight && s.connected),
{
}

/// Night measurements, disconnected strings and unconfigured plants never raise an alarm.
pub proof fn lemma_no_alarm_at_night_or_when_disconnected(s: AnalysisSignals)
    ensures
        (!s.is_valid_daylight || !s.connected || !s.schema_configured) ==> (severity_for(s)
            != Severity::Critical && severity_for(s) != Severity::Suspicious),
{
}

/// The decision ladder, rung by rung: an unconfigured plant is reported as
/// such; a string the schema marks as not connected is `Disconnected`
/// whatever its readings; a connected string whose reply lacks a current or
/// a voltage has no data; a reading outside valid daylight is night; a
/// daylight reading near zero while siblings produce is critical; below
/// thirty counted days the string is learning (the reason names how many
/// days are in); afterwards it is suspicious only with both deviations and
/// normal otherwise.
pub proof fn lemma_decision_ladder(s: AnalysisSignals)
    ensures
        !s.schema_configured ==> severity_for(s) == Severity::Unconfigured
            && reason_for(s) == "GES bağlantı şeması hazırlanmalı"@,
        s.schema_configured && !s.connected ==> severity_for(s) == Severity::Disconnected
            && reason_for(s) == "String şemada bağlantısız; alarm değerlendirmesine alınmadı"@,
        s.schema_configured && s.connected && !s.has_current_and_voltage ==> severity_for(s) == Severity::NoData
            && reason_for(s) == "Akım veya gerilim değeri API cevabında yok"@,
        s.schema_configured && s.connected && s.has_current_and_voltage && !s.is_valid_daylight
            ==> severity_for(s) == Severity::Night && reason_for(s) == "Gece ölçümü analize dahil edilmedi"@,
        s.schema_configured && s.connected && s.has_current_and_voltage && s.is_valid_daylight && s.peers_active
            && s.within_zero_thresholds ==> severity_for(s) == Severity::Critical
            && reason_for(s) == "Bağlı string gündüz üretim koşulunda sıfıra yakın"@,
        s.schema_configured && s.connected && s.has_current_and_voltage && s.is_valid_daylight
            && !(s.peers_active && s.within_zero_thresholds) && s.learned_days < 30
            ==> severity_for(s) == Severity::Learning
            && reason_for(s) == "30 geçerli gündüzün "@ + crate::text::decimal(s.learned_days as nat) + " tanesi toplandı"@,
        s.schema_configured && s.connected && s.has_current_and_voltage && s.is_valid_daylight
            && !(s.peers_active && s.within_zero_thresholds) && s.learned_days >= 30
            && s.historically_abnormal && s.peer_abnormal
            ==> severity_for(s) == Severity::Suspicious
            && reason_for(s) == "Değer hem bir aylık geçmişten hem de kardeş stringlerden sapıyor"@,
        s.schema_configured && s.connected && s.has_current_and_voltage && s.is_valid_daylight
            && !(s.peers_active && s.within_zero_thresholds) && s.learned_days >= 30
            && !(s.historically_abnormal && s.peer_abnormal)
            ==> severity_for(s) == Severity::Normal
            && reason_for(s) == "Değerler bir aylık karşılaştırma aralığında"@,
{
}

} // verus!
