use vstd::prelude::*;
use crate::data_point::{lookup, statistic_value, RawDataPoint, RawDataPointView};
use crate::metrics_obj::{MetricOut, MetricOutView};
use crate::request::{MetricRequest, MetricRequestView};
use crate::statistic::statistic_name;
use crate::text::opt_text;

verus! {

/// The RFC 3339 text, in UTC, of the instant `secs` seconds after the epoch;
/// none where the calendar in use cannot hold that instant.
pub uninterp spec fn rfc3339_utc(secs: int) -> Option<Seq<char>>;

/// Formats a timestamp through `chrono::DateTime::from_timestamp` (with no
/// nanoseconds) and `DateTime::to_rfc3339`. The contract only gives the
/// outcome its name: the text depends on the seconds alone, and there is none
/// where chrono refuses the instant as out of range.
#[verifier::external_body]
pub(crate) fn human_readable_time(secs: i64) -> (r: Option<String>)
    ensures
        opt_text(r) == rfc3339_utc(secs as int),
{
    match chrono::DateTime::from_timestamp(secs, 0) {
        Some(instant) => Some(instant.to_rfc3339()),
        None => None,
    }
}

/// The extended statistic that a record shows: the requested one, where the
/// data point carries a value under its name.
pub open spec fn shown_extended(req: MetricRequestView, p: RawDataPointView) -> Option<
    (Seq<char>, Seq<char>),
> {
    match req.extended_statistic {
        Some(key) => match lookup(p.extended_statistics, key) {
            Some(value) => Some((key, value)),
            None => None,
        },
        None => None,
    }
}

/// The record of one data point of one request, given the text of its
/// timestamp. The name and the timestamp are always set. The statistic's
/// name is set where one was requested, its value where the data point
/// carries it. The extended statistic's name and value are set together,
/// where one was requested and the data point carries it. All else is empty.
pub open spec fn record_of(req: MetricRequestView, p: RawDataPointView, timestamp: Seq<char>) -> MetricOutView {
    MetricOutView {
        name: req.name,
        dimension: Seq::empty(),
        timestamp,
        extended_stat: match shown_extended(req, p) {
            Some(shown) => shown.0,
            None => Seq::empty(),
        },
        extended_stat_value: match shown_extended(req, p) {
            Some(shown) => shown.1,
            None => Seq::empty(),
        },
        stat: match req.statistic {
            Some(s) => statistic_name(s),
            None => Seq::empty(),
        },
        stat_value: match req.statistic {
            Some(s) => match statistic_value(p, s) {
                Some(value) => value,
                None => Seq::empty(),
            },
            None => Seq::empty(),
        },
    }
}

/// `out` is the record of `point`, whose timestamp has a text.
pub open spec fn is_record_of(req: MetricRequestView, point: RawDataPoint, out: MetricOut) -> bool {
    match rfc3339_utc(point.timestamp as int) {
        Some(timestamp) => out@ == record_of(req, point@, timestamp),
        None => false,
    }
}

/// Every data point has its record, position by position.
pub open spec fn records_of(req: MetricRequestView, points: Seq<RawDataPoint>, outs: Seq<MetricOut>) -> bool {
    &&& outs.len() == points.len()
    &&& forall|i: int| 0 <= i < points.len() ==> #[trigger] is_record_of(req, points[i], outs[i])
}

/// Some data point has a timestamp without a text.
pub open spec fn has_unprintable_timestamp(points: Seq<RawDataPoint>) -> bool {
    exists|i: int| 0 <= i < points.len() && (#[trigger] rfc3339_utc(points[i].timestamp as int)) is None
}

/// Folds one data point into the record of its request, with the text of
/// its timestamp already at hand.
pub fn fold_point(request: &MetricRequest, point: &RawDataPoint, timestamp: String) -> (out: MetricOut)
    ensures
        out@ == record_of(request@, point@, timestamp@),
{
    let mut out = MetricOut::builder();
    out.name(request.name.clone());
    out.timestamp(timestamp);
    if let Some(key) = &request.extended_statistic {
        if let Some(value) = point.extended_value(key) {
            out.extended_stat(key.clone());
            out.extended_stat_value(value.clone());
        }
    }
    if let Some(s) = request.statistic {
        out.stat(s.name());
        if let Some(value) = point.value_of(s) {
            out.stat_value(value.clone());
        }
    }
    out
}

/// Folds one data point into the record of its request. There is no record
/// exactly where the timestamp has no text.
pub fn build_metric_output(request: &MetricRequest, point: &RawDataPoint) -> (r: Option<MetricOut>)
    ensures
        match rfc3339_utc(point.timestamp as int) {
            Some(timestamp) => r matches Some(out) && out@ == record_of(
                request@,
                point@,
                timestamp,
            ),
            None => r is None,
        },
{
    match human_readable_time(point.timestamp) {
        Some(timestamp) => Some(fold_point(request, point, timestamp)),
        None => None,
    }
}

/// Folds the data points of one request into records: one record per data
/// point, in the order of the data points. There are no records exactly
/// where some timestamp has no text.
pub fn normalize_points(request: &MetricRequest, points: &Vec<RawDataPoint>) -> (r: Option<
    Vec<MetricOut>,
>)
    ensures
        r is None <==> has_unprintable_timestamp(points@),
        r matches Some(outs) ==> records_of(request@, points@, outs@),
{
    let mut outs: Vec<MetricOut> = Vec::new();
    let mut i: usize = 0;
    while i < points.len()
        invariant
            0 <= i <= points.len(),
            records_of(request@, points@.subrange(0, i as int), outs@),
        decreases points.len() - i,
    {
        match build_metric_output(request, &points[i]) {
            Some(out) => {
                let ghost before = outs@;
                outs.push(out);
                proof {
                    let done = points@.subrange(0, i + 1);
                    assert forall|j: int| 0 <= j < done.len() implies #[trigger] is_record_of(
                        request@,
                        done[j],
                        outs@[j],
                    ) by {
                        if j < i {
                            assert(is_record_of(
                                request@,
                                points@.subrange(0, i as int)[j],
                                before[j],
                            ));
                        }
                    }
                }
            },
            None => {
                assert(rfc3339_utc(points@[i as int].timestamp as int) is None);
                return None;
            },
        }
        i = i + 1;
    }
    proof {
        assert(points@.subrange(0, i as int) =~= points@);
        if has_unprintable_timestamp(points@) {
            let j = choose|j: int|
                0 <= j < points@.len() && (#[trigger] rfc3339_utc(points@[j].timestamp as int)) is None;
            assert(is_record_of(request@, points@[j], outs@[j]));
        }
    }
    Some(outs)
}

} // verus!
