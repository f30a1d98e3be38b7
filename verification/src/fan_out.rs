use vstd::prelude::*;
use crate::data_point::RawDataPoint;
use crate::error::RequestError;
use crate::metrics_obj::MetricOut;
use crate::normalizer::{has_unprintable_timestamp, normalize_points, records_of};
use crate::request::MetricRequest;

verus! {

/// What one request puts out, given how its query ended: the records of its
/// data points where the query gave some and each timestamp has a text, and
/// nothing otherwise.
pub open spec fn output_of(
    request: MetricRequest,
    outcome: Result<Vec<RawDataPoint>, RequestError>,
    output: Option<Vec<MetricOut>>,
) -> bool {
    match outcome {
        Ok(points) => {
            &&& output is None <==> has_unprintable_timestamp(points@)
            &&& output matches Some(outs) ==> records_of(request@, points@, outs@)
        },
        Err(_) => output is None,
    }
}

/// Pairs each request of a run with the outcome of its query, by position,
/// and folds the data points of every query that succeeded into records. A
/// query that failed leaves its own place empty and touches no other.
pub fn get_peak_time(
    requests: &Vec<MetricRequest>,
    outcomes: &Vec<Result<Vec<RawDataPoint>, RequestError>>,
) -> (outputs: Vec<Option<Vec<MetricOut>>>)
    requires
        requests.len() == outcomes.len(),
    ensures
        outputs.len() == requests.len(),
        forall|i: int|
            0 <= i < requests.len() ==> #[trigger] output_of(requests[i], outcomes[i], outputs[i]),
{
    let mut outputs: Vec<Option<Vec<MetricOut>>> = Vec::new();
    let mut i: usize = 0;
    while i < requests.len()
        invariant
            0 <= i <= requests.len(),
            requests.len() == outcomes.len(),
            outputs.len() == i,
            forall|j: int| 0 <= j < i ==> #[trigger] output_of(requests[j], outcomes[j], outputs[j]),
        decreases requests.len() - i,
    {
        let output = get_single_metric_info(&requests[i], &outcomes[i]);
        outputs.push(output);
        i = i + 1;
    }
    outputs
}

/// Folds the outcome of one request's query into its records.
pub fn get_single_metric_info(
    request: &MetricRequest,
    outcome: &Result<Vec<RawDataPoint>, RequestError>,
) -> (output: Option<Vec<MetricOut>>)
    ensures
        output_of(*request, *outcome, output),
{
    match outcome {
        Ok(points) => normalize_points(request, points),
        Err(_) => None,
    }
}

} // verus!
