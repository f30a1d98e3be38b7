use vstd::prelude::*;

verus! {

/// Why a metric request could not be built or answered.
#[derive(Debug, PartialEq, Eq)]
pub enum RequestError {
    /// The relative-time token is not a unit, a colon and an amount.
    InvalidTimeToken,
    /// A dimension token holds no `=`.
    InvalidDimensionToken,
    /// The metric name or the namespace is absent.
    MissingRequiredField,
    /// The statistic is none of the five that a data point carries.
    UnsupportedStatistic,
    /// The monitoring service did not answer the query; the cause is attached.
    QueryFailed(String),
}

impl RequestError {
    /// A short description for the user.
    pub fn message(&self) -> (r: String)
        ensures
            r@ == self.message_text(),
    {
        match self {
            RequestError::InvalidTimeToken => String::from_str("invalid time token"),
            RequestError::InvalidDimensionToken => String::from_str("invalid dimension token"),
            RequestError::MissingRequiredField => String::from_str("missing required field"),
            RequestError::UnsupportedStatistic => String::from_str("unsupported statistic"),
            RequestError::QueryFailed(cause) => String::from_str("query failed: ").concat(
                cause.as_str(),
            ),
        }
    }

    pub open spec fn message_text(&self) -> Seq<char> {
        match self {
            RequestError::InvalidTimeToken => "invalid time token"@,
            RequestError::InvalidDimensionToken => "invalid dimension token"@,
            RequestError::MissingRequiredField => "missing required field"@,
            RequestError::UnsupportedStatistic => "unsupported statistic"@,
            RequestError::QueryFailed(cause) => "query failed: "@ + cause@,
        }
    }
}

} // verus!
