use vstd::prelude::*;
use crate::error::RequestError;
use crate::metric_obj::MetricObj;
use crate::metrics_obj::MetricsObj;
use crate::request::{entry_error, MetricRequest};

verus! {

/// What one configuration entry resolves to: its request, or the reason why
/// it has none.
pub open spec fn resolution_of(
    entry: &MetricObj,
    args: &MetricsObj,
    now: int,
    resolution: Result<MetricRequest, RequestError>,
) -> bool {
    match resolution {
        Ok(request) => entry_error(entry, args, now) is None && request.describes_entry(
            entry,
            args,
            now,
        ),
        Err(e) => entry_error(entry, args, now) == Some(e),
    }
}

/// Resolves the decoded entries of a configuration file, each on its own
/// and in order. An entry that is refused leaves the reason in its place and
/// does not stop the others.
pub fn parse_config(entries: &Vec<MetricObj>, args: &MetricsObj, now: i64) -> (resolutions: Vec<
    Result<MetricRequest, RequestError>,
>)
    ensures
        resolutions.len() == entries.len(),
        forall|i: int|
            0 <= i < entries.len() ==> #[trigger] resolution_of(
                &entries[i],
                args,
                now as int,
                resolutions[i],
            ),
{
    let mut resolutions: Vec<Result<MetricRequest, RequestError>> = Vec::new();
    let mut i: usize = 0;
    while i < entries.len()
        invariant
            0 <= i <= entries.len(),
            resolutions.len() == i,
            forall|j: int|
                0 <= j < i ==> #[trigger] resolution_of(
                    &entries[j],
                    args,
                    now as int,
                    resolutions[j],
                ),
        decreases entries.len() - i,
    {
        let resolution = MetricRequest::from_entry(&entries[i], args, now);
        resolutions.push(resolution);
        i = i + 1;
    }
    resolutions
}

} // verus!
