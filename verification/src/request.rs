use vstd::prelude::*;
use vstd::string::*;
use crate::dimension::{
    all_have_equals, build_dimensions_vec, dimensions_from_pairs, dimensions_match, dims_text,
    flag_tokens, Dimension,
};
use crate::error::RequestError;
use crate::metric_obj::MetricObj;
use crate::metrics_obj::MetricsObj;
use crate::start_time_parser::{
    current_time, default_start, resolve_start, resolved_start, start_at, DEFAULT_LOOKBACK_MILLIS,
};
use crate::statistic::{statistic_named, Statistic};
use crate::text::{opt_text, pairs_text};

verus! {

/// The width of a bucket, in seconds, where no period is given.
pub const DEFAULT_PERIOD: i32 = 300;

/// One query, resolved and validated: what to ask of the monitoring service.
/// `start` and `end` are in milliseconds since the epoch.
#[derive(Debug)]
pub struct MetricRequest {
    pub namespace: String,
    pub name: String,
    pub statistic: Option<Statistic>,
    pub extended_statistic: Option<String>,
    pub dimensions: Vec<Dimension>,
    pub period: i32,
    pub start: i64,
    pub end: i64,
}

/// What a request holds.
pub ghost struct MetricRequestView {
    pub namespace: Seq<char>,
    pub name: Seq<char>,
    pub statistic: Option<Statistic>,
    pub extended_statistic: Option<Seq<char>>,
    pub dimensions: Seq<(Seq<char>, Seq<char>)>,
    pub period: int,
    pub start: int,
    pub end: int,
}

impl View for MetricRequest {
    type V = MetricRequestView;

    open spec fn view(&self) -> MetricRequestView {
        MetricRequestView {
            namespace: self.namespace@,
            name: self.name@,
            statistic: self.statistic,
            extended_statistic: opt_text(self.extended_statistic),
            dimensions: dims_text(self.dimensions@),
            period: self.period as int,
            start: self.start as int,
            end: self.end as int,
        }
    }
}

/// The statistic that an optional name selects: none for no name, and a
/// refusal for a name that stands for no statistic.
pub open spec fn selected_statistic(stat: Option<String>) -> Result<Option<Statistic>, RequestError> {
    match stat {
        None => Ok(None),
        Some(name) => match statistic_named(name@) {
            Some(s) => Ok(Some(s)),
            None => Err(RequestError::UnsupportedStatistic),
        },
    }
}

/// The start of the window that the flags ask for, counted back from `now`:
/// by the start-time token, or by twenty days where there is none.
pub open spec fn window_start(args: &MetricsObj, now: int) -> Result<i64, RequestError> {
    match args.start_time {
        Some(token) => resolved_start(now, token@),
        None => start_at(now, DEFAULT_LOOKBACK_MILLIS as int),
    }
}

/// The period that the flags ask for.
pub open spec fn window_period(args: &MetricsObj) -> int {
    match args.period {
        Some(p) => p as int,
        None => DEFAULT_PERIOD as int,
    }
}

/// Why the flags give no request, if they give none. The checks run in this
/// order: required fields, statistic, dimensions, time window.
pub open spec fn flags_error(args: &MetricsObj, now: int) -> Option<RequestError> {
    if args.name is None || args.namespace is None {
        Some(RequestError::MissingRequiredField)
    } else if selected_statistic(args.stat) is Err {
        Some(RequestError::UnsupportedStatistic)
    } else if !all_have_equals(flag_tokens(args)) {
        Some(RequestError::InvalidDimensionToken)
    } else if window_start(args, now) is Err {
        Some(RequestError::InvalidTimeToken)
    } else {
        None
    }
}

/// Why a configuration entry gives no request, if it gives none. The checks
/// run in this order: required fields, statistic, time window.
pub open spec fn entry_error(entry: &MetricObj, args: &MetricsObj, now: int) -> Option<RequestError> {
    if entry.name@.len() == 0 || entry.namespace@.len() == 0 {
        Some(RequestError::MissingRequiredField)
    } else if selected_statistic(entry.stat) is Err {
        Some(RequestError::UnsupportedStatistic)
    } else if window_start(args, now) is Err {
        Some(RequestError::InvalidTimeToken)
    } else {
        None
    }
}

/// The dimensions of a configuration entry; none where it has no mapping.
pub open spec fn entry_dimensions(entry: &MetricObj) -> Seq<(Seq<char>, Seq<char>)> {
    match entry.dimensions {
        Some(pairs) => pairs_text(pairs@),
        None => Seq::empty(),
    }
}

/// Reads an optional statistic name.
pub fn select_statistic(stat: &Option<String>) -> (r: Result<Option<Statistic>, RequestError>)
    ensures
        r == selected_statistic(*stat),
{
    match stat {
        None => Ok(None),
        Some(name) => match Statistic::parse(name) {
            Ok(s) => Ok(Some(s)),
            Err(e) => Err(e),
        },
    }
}

/// The start of the window that the flags ask for, counted back from `now`.
pub fn resolve_window(args: &MetricsObj, now: i64) -> (r: Result<i64, RequestError>)
    ensures
        r == window_start(args, now as int),
{
    match &args.start_time {
        Some(token) => resolve_start(now, token.as_str()),
        None => default_start(now),
    }
}

impl MetricRequest {
    /// The request is the one that the flags describe, with its window
    /// ending at `now`.
    pub open spec fn describes_flags(&self, args: &MetricsObj, now: int) -> bool {
        &&& args.name is Some
        &&& args.namespace is Some
        &&& self.name@ == args.name->0@
        &&& self.namespace@ == args.namespace->0@
        &&& Ok::<Option<Statistic>, RequestError>(self.statistic) == selected_statistic(args.stat)
        &&& opt_text(self.extended_statistic) == opt_text(args.extended_stat)
        &&& dimensions_match(flag_tokens(args), self.dimensions@)
        &&& self.period == window_period(args)
        &&& Ok::<i64, RequestError>(self.start) == window_start(args, now)
        &&& self.end == now
    }

    /// The request is the one that a configuration entry describes, with the
    /// period and the window of the flags, ending at `now`.
    pub open spec fn describes_entry(&self, entry: &MetricObj, args: &MetricsObj, now: int) -> bool {
        &&& self.name@ == entry.name@
        &&& self.namespace@ == entry.namespace@
        &&& Ok::<Option<Statistic>, RequestError>(self.statistic) == selected_statistic(entry.stat)
        &&& opt_text(self.extended_statistic) == opt_text(entry.extended_stat)
        &&& dims_text(self.dimensions@) == entry_dimensions(entry)
        &&& self.period == window_period(args)
        &&& Ok::<i64, RequestError>(self.start) == window_start(args, now)
        &&& self.end == now
    }

    /// Builds the one request of a run without configuration file from the
    /// flags, with `now` in milliseconds since the epoch. The flags are
    /// refused, in this order, where the name or the namespace is absent,
    /// the statistic is unknown, a dimension token holds no `=`, or the
    /// start-time token cannot be resolved.
    pub fn from_flags(args: &MetricsObj, now: i64) -> (r: Result<MetricRequest, RequestError>)
        ensures
            match r {
                Ok(request) => flags_error(args, now as int) is None && request.describes_flags(
                    args,
                    now as int,
                ),
                Err(e) => flags_error(args, now as int) == Some(e),
            },
    {
        let name = match &args.name {
            Some(name) => name.clone(),
            None => {
                return Err(RequestError::MissingRequiredField);
            },
        };
        let namespace = match &args.namespace {
            Some(namespace) => namespace.clone(),
            None => {
                return Err(RequestError::MissingRequiredField);
            },
        };
        let statistic = match select_statistic(&args.stat) {
            Ok(s) => s,
            Err(e) => {
                return Err(e);
            },
        };
        let dimensions = match build_dimensions_vec(args) {
            Ok(d) => d,
            Err(e) => {
                return Err(e);
            },
        };
        let start = match resolve_window(args, now) {
            Ok(s) => s,
            Err(e) => {
                return Err(e);
            },
        };
        let extended_statistic = match &args.extended_stat {
            Some(e) => Some(e.clone()),
            None => None,
        };
        let period = match args.period {
            Some(p) => p,
            None => DEFAULT_PERIOD,
        };
        Ok(
            MetricRequest {
                namespace,
                name,
                statistic,
                extended_statistic,
                dimensions,
                period,
                start,
                end: now,
            },
        )
    }

    /// Builds the request of one configuration entry. The statistic, the
    /// extended statistic and the dimensions are the entry's own; only the
    /// period and the start-time token come from the flags. The entry is
    /// refused, in this order, where its name or namespace is empty, its
    /// statistic is unknown, or the start-time token cannot be resolved.
    pub fn from_entry(entry: &MetricObj, args: &MetricsObj, now: i64) -> (r: Result<
        MetricRequest,
        RequestError,
    >)
        ensures
            match r {
                Ok(request) => entry_error(entry, args, now as int) is None
                    && request.describes_entry(entry, args, now as int),
                Err(e) => entry_error(entry, args, now as int) == Some(e),
            },
    {
        if entry.name.as_str().is_empty() || entry.namespace.as_str().is_empty() {
            return Err(RequestError::MissingRequiredField);
        }
        let statistic = match select_statistic(&entry.stat) {
            Ok(s) => s,
            Err(e) => {
                return Err(e);
            },
        };
        let start = match resolve_window(args, now) {
            Ok(s) => s,
            Err(e) => {
                return Err(e);
            },
        };
        let dimensions = match &entry.dimensions {
            Some(pairs) => dimensions_from_pairs(pairs),
            None => Vec::new(),
        };
        proof {
            assert(dims_text(dimensions@) =~= entry_dimensions(entry));
        }
        let extended_statistic = match &entry.extended_stat {
            Some(e) => Some(e.clone()),
            None => None,
        };
        let period = match args.period {
            Some(p) => p,
            None => DEFAULT_PERIOD,
        };
        Ok(
            MetricRequest {
                namespace: entry.namespace.clone(),
                name: entry.name.clone(),
                statistic,
                extended_statistic,
                dimensions,
                period,
                start,
                end: now,
            },
        )
    }

    /// Builds the one request of a run without configuration file, with its
    /// window ending at the time that the clock gives. For flags that are
    /// refused whatever the time, the refusal is the one `from_flags` names.
    pub fn resolve(args: &MetricsObj) -> (r: Result<MetricRequest, RequestError>)
        ensures
            match r {
                Ok(request) => flags_error(args, request.end as int) is None
                    && request.describes_flags(args, request.end as int),
                Err(e) => exists|now: i64| flags_error(args, now as int) == Some(e),
            },
    {
        let now = current_time();
        MetricRequest::from_flags(args, now)
    }
}

} // verus!
