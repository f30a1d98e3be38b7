use vstd::prelude::*;

verus! {

/// The flags of one run, with the defaults of the command line filled in.
#[derive(Debug)]
pub struct Args {
    pub metric_name: Option<String>,
    pub config_file: Option<String>,
    pub csv: bool,
    pub namespace: Option<String>,
    pub region: String,
    pub extended_stat: Option<String>,
    pub stat: Option<String>,
    pub duration: i32,
    pub dimensions: Vec<String>,
    pub start_time: String,
}

} // verus!
