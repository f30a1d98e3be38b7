//! Resolution of metric requests, ordering of the data points that come back,
//! and their folding into flat output records.
//!
//! The network call, the command line, the configuration file and the output
//! file are the caller's business; this library holds the rules between them.

pub mod error;
pub mod text;
pub mod start_time_parser;
pub mod statistic;
pub mod metrics_obj;
pub mod data_point;
pub mod args_obj;
pub mod metric_obj;
pub mod dimension;
pub mod request;
pub mod normalizer;
pub mod query;
pub mod fan_out;
pub mod config_parser;
pub mod log;
