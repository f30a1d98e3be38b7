use vstd::prelude::*;
use crate::data_point::{ascending, sort_data_points, RawDataPoint};
use crate::dimension::{dims_text, Dimension};
use crate::error::RequestError;
use crate::request::{MetricRequest, MetricRequestView};
use crate::statistic::statistic_name;
use crate::text::strings_text;

verus! {

/// One statistics query as the monitoring service takes it. The times are in
/// milliseconds since the epoch; the statistics and the extended statistics
/// are lists of names.
#[derive(Debug)]
pub struct StatisticsQuery {
    pub namespace: String,
    pub metric_name: String,
    pub period: i32,
    pub start_time: i64,
    pub end_time: i64,
    pub dimensions: Vec<Dimension>,
    pub statistics: Vec<String>,
    pub extended_statistics: Vec<String>,
}

/// What a query holds.
pub ghost struct StatisticsQueryView {
    pub namespace: Seq<char>,
    pub metric_name: Seq<char>,
    pub period: int,
    pub start_time: int,
    pub end_time: int,
    pub dimensions: Seq<(Seq<char>, Seq<char>)>,
    pub statistics: Seq<Seq<char>>,
    pub extended_statistics: Seq<Seq<char>>,
}

impl View for StatisticsQuery {
    type V = StatisticsQueryView;

    open spec fn view(&self) -> StatisticsQueryView {
        StatisticsQueryView {
            namespace: self.namespace@,
            metric_name: self.metric_name@,
            period: self.period as int,
            start_time: self.start_time as int,
            end_time: self.end_time as int,
            dimensions: dims_text(self.dimensions@),
            statistics: strings_text(self.statistics@),
            extended_statistics: strings_text(self.extended_statistics@),
        }
    }
}

/// The query of a request: its namespace, name, period, window and
/// dimensions as they stand, the name of its statistic where it has one,
/// and its extended statistic where it has one. Both selectors may be set.
pub open spec fn query_of(req: MetricRequestView) -> StatisticsQueryView {
    StatisticsQueryView {
        namespace: req.namespace,
        metric_name: req.name,
        period: req.period,
        start_time: req.start,
        end_time: req.end,
        dimensions: req.dimensions,
        statistics: match req.statistic {
            Some(s) => seq![statistic_name(s)],
            None => Seq::empty(),
        },
        extended_statistics: match req.extended_statistic {
            Some(name) => seq![name],
            None => Seq::empty(),
        },
    }
}

/// Builds the one query that is sent for a request.
pub fn build_query(request: &MetricRequest) -> (query: StatisticsQuery)
    ensures
        query@ == query_of(request@),
{
    let mut dimensions: Vec<Dimension> = Vec::new();
    let mut i: usize = 0;
    while i < request.dimensions.len()
        invariant
            0 <= i <= request.dimensions.len(),
            dimensions@.len() == i,
            forall|j: int| 0 <= j < i ==> (#[trigger] dimensions@[j])@ == request.dimensions@[j]@,
        decreases request.dimensions.len() - i,
    {
        let d = &request.dimensions[i];
        dimensions.push(Dimension { name: d.name.clone(), value: d.value.clone() });
        i = i + 1;
    }
    let mut statistics: Vec<String> = Vec::new();
    if let Some(s) = request.statistic {
        statistics.push(s.name());
    }
    let mut extended_statistics: Vec<String> = Vec::new();
    if let Some(name) = &request.extended_statistic {
        extended_statistics.push(name.clone());
    }
    proof {
        assert(dims_text(dimensions@) =~= dims_text(request.dimensions@));
        assert(strings_text(statistics@) =~= query_of(request@).statistics);
        assert(strings_text(extended_statistics@) =~= query_of(request@).extended_statistics);
    }
    StatisticsQuery {
        namespace: request.namespace.clone(),
        metric_name: request.name.clone(),
        period: request.period,
        start_time: request.start,
        end_time: request.end,
        dimensions,
        statistics,
        extended_statistics,
    }
}

/// Settles what the monitoring service answered to one query. The data
/// points of an answer come back in ascending order of timestamp, none
/// added and none lost; an answer without data points is an empty list. A
/// failure comes back as `QueryFailed` with the cause that was given.
pub fn fetch_metric_values(outcome: Result<Vec<RawDataPoint>, String>) -> (r: Result<
    Vec<RawDataPoint>,
    RequestError,
>)
    ensures
        match outcome {
            Ok(points) => r matches Ok(sorted) && ascending(sorted@) && sorted@.to_multiset()
                == points@.to_multiset() && sorted@.len() == points@.len(),
            Err(cause) => r == Err::<Vec<RawDataPoint>, RequestError>(
                RequestError::QueryFailed(cause),
            ),
        },
{
    match outcome {
        Ok(points) => Ok(sort_data_points(points)),
        Err(cause) => Err(RequestError::QueryFailed(cause)),
    }
}

} // verus!
