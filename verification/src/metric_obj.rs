use vstd::prelude::*;

verus! {

/// One entry of a configuration file, decoded. An entry that names no metric
/// or no namespace holds the empty string there; the dimensions are the
/// entries of its mapping, in the order in which they were decoded.
#[derive(Debug)]
pub struct MetricObj {
    pub name: String,
    pub namespace: String,
    pub stat: Option<String>,
    pub extended_stat: Option<String>,
    pub dimensions: Option<Vec<(String, String)>>,
}

} // verus!
