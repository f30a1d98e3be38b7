use vstd::prelude::*;
use vstd::seq_lib::*;
use vstd::multiset::Multiset;
use crate::statistic::Statistic;
use crate::text::{opt_text, pairs_text};

verus! {

/// One data point as the monitoring service returned it. The timestamp is in
/// seconds since the epoch; each number is held as the text that displays it.
#[derive(Debug)]
pub struct RawDataPoint {
    pub timestamp: i64,
    pub sample_count: Option<String>,
    pub sum: Option<String>,
    pub maximum: Option<String>,
    pub average: Option<String>,
    pub minimum: Option<String>,
    pub extended_statistics: Vec<(String, String)>,
}

/// What a data point holds.
pub ghost struct RawDataPointView {
    pub timestamp: int,
    pub sample_count: Option<Seq<char>>,
    pub sum: Option<Seq<char>>,
    pub maximum: Option<Seq<char>>,
    pub average: Option<Seq<char>>,
    pub minimum: Option<Seq<char>>,
    pub extended_statistics: Seq<(Seq<char>, Seq<char>)>,
}

impl View for RawDataPoint {
    type V = RawDataPointView;

    open spec fn view(&self) -> RawDataPointView {
        RawDataPointView {
            timestamp: self.timestamp as int,
            sample_count: opt_text(self.sample_count),
            sum: opt_text(self.sum),
            maximum: opt_text(self.maximum),
            average: opt_text(self.average),
            minimum: opt_text(self.minimum),
            extended_statistics: pairs_text(self.extended_statistics@),
        }
    }
}

/// The value that a data point carries for a statistic, if any.
pub open spec fn statistic_value(p: RawDataPointView, s: Statistic) -> Option<Seq<char>> {
    match s {
        Statistic::SampleCount => p.sample_count,
        Statistic::Sum => p.sum,
        Statistic::Maximum => p.maximum,
        Statistic::Average => p.average,
        Statistic::Minimum => p.minimum,
    }
}

/// The value of the first entry at or after `from` whose name is `key`.
pub open spec fn lookup_from(entries: Seq<(Seq<char>, Seq<char>)>, key: Seq<char>, from: int) -> Option<
    Seq<char>,
>
    decreases entries.len() - from,
{
    if from < 0 || from >= entries.len() {
        None
    } else if entries[from].0 == key {
        Some(entries[from].1)
    } else {
        lookup_from(entries, key, from + 1)
    }
}

/// The value that a mapping, written as a list of entries, gives to `key`.
pub open spec fn lookup(entries: Seq<(Seq<char>, Seq<char>)>, key: Seq<char>) -> Option<Seq<char>> {
    lookup_from(entries, key, 0)
}

/// Timestamps never decrease along the sequence.
pub open spec fn ascending(s: Seq<RawDataPoint>) -> bool {
    forall|i: int, j: int| 0 <= i <= j < s.len() ==> s[i].timestamp <= s[j].timestamp
}

impl RawDataPoint {
    /// The value carried for a statistic.
    pub fn value_of(&self, s: Statistic) -> (r: &Option<String>)
        ensures
            opt_text(*r) == statistic_value(self@, s),
    {
        match s {
            Statistic::SampleCount => &self.sample_count,
            Statistic::Sum => &self.sum,
            Statistic::Maximum => &self.maximum,
            Statistic::Average => &self.average,
            Statistic::Minimum => &self.minimum,
        }
    }

    /// The value carried for an extended statistic, found by its name.
    pub fn extended_value(&self, key: &String) -> (r: Option<&String>)
        ensures
            (match r {
                Some(v) => Some(v@),
                None => None,
            }) == lookup(self@.extended_statistics, key@),
    {
        let ghost entries = self@.extended_statistics;
        let mut i: usize = 0;
        while i < self.extended_statistics.len()
            invariant
                0 <= i <= self.extended_statistics.len(),
                entries == pairs_text(self.extended_statistics@),
                lookup(entries, key@) == lookup_from(entries, key@, i as int),
            decreases self.extended_statistics.len() - i,
        {
            let entry = &self.extended_statistics[i];
            if entry.0.eq(key) {
                return Some(&entry.1);
            }
            i = i + 1;
        }
        None
    }
}

/// Puts data points in ascending order of timestamp. The result holds the
/// same points as the input, each as often as the input held it.
pub fn sort_data_points(points: Vec<RawDataPoint>) -> (sorted: Vec<RawDataPoint>)
    ensures
        ascending(sorted@),
        sorted@.to_multiset() == points@.to_multiset(),
        sorted@.len() == points@.len(),
{
    let ghost all = points@;
    let mut rest = points;
    let mut sorted: Vec<RawDataPoint> = Vec::new();
    proof {
        broadcast use group_to_multiset_ensures;
        assert(sorted@.to_multiset().add(rest@.to_multiset()) =~= all.to_multiset());
    }
    while rest.len() > 0
        invariant
            ascending(sorted@),
            sorted@.to_multiset().add(rest@.to_multiset()) == all.to_multiset(),
            sorted@.len() + rest@.len() == all.len(),
        decreases rest.len(),
    {
        let ghost before_rest = rest@;
        let ghost before = sorted@;
        let p = rest.pop().unwrap();
        let mut k: usize = 0;
        while k < sorted.len() && sorted[k].timestamp <= p.timestamp
            invariant
                0 <= k <= sorted.len(),
                sorted@ == before,
                forall|j: int| 0 <= j < k ==> sorted@[j].timestamp <= p.timestamp,
            decreases sorted.len() - k,
        {
            k = k + 1;
        }
        sorted.insert(k, p);
        proof {
            broadcast use group_to_multiset_ensures;
            assert(before_rest =~= rest@.push(p));
            assert(sorted@.remove(k as int) =~= before);
            assert(sorted@[k as int] == p);
            assert(sorted@.to_multiset() =~= before.to_multiset().insert(p));
            assert(sorted@.to_multiset().add(rest@.to_multiset()) =~= all.to_multiset());
            assert(ascending(sorted@)) by {
                assert forall|i: int, j: int| 0 <= i <= j < sorted@.len() implies sorted@[i].timestamp
                    <= sorted@[j].timestamp by {
                    if j < k {
                        assert(sorted@[i] == before[i] && sorted@[j] == before[j]);
                    } else if i > k {
                        assert(sorted@[i] == before[i - 1] && sorted@[j] == before[j - 1]);
                    } else if i == k && j > k {
                        assert(sorted@[j] == before[j - 1]);
                        assert(before[k as int].timestamp <= before[j - 1].timestamp);
                    } else if i < k && j > k {
                        assert(sorted@[i] == before[i] && sorted@[j] == before[j - 1]);
                    }
                }
            }
        }
    }
    proof {
        assert(rest@.to_multiset() =~= Multiset::empty()) by {
            broadcast use group_to_multiset_ensures;
            assert(rest@ =~= Seq::empty());
        }
        assert(sorted@.to_multiset().add(Multiset::empty()) =~= sorted@.to_multiset());
    }
    sorted
}

} // verus!
