use metric_dump::data_point::RawDataPoint;
use metric_dump::error::RequestError;
use metric_dump::fan_out::{get_peak_time, get_single_metric_info};
use metric_dump::log::{header_row, record_line, record_row, Log, SinkAction};
use metric_dump::metrics_obj::MetricOut;
use metric_dump::normalizer::{build_metric_output, fold_point, normalize_points};
use metric_dump::query::fetch_metric_values;
use metric_dump::request::MetricRequest;
use metric_dump::statistic::Statistic;

fn request(name: &str, statistic: Option<Statistic>, extended: Option<&str>) -> MetricRequest {
    MetricRequest {
        namespace: String::from("AWS/EC2"),
        name: String::from(name),
        statistic,
        extended_statistic: extended.map(String::from),
        dimensions: Vec::new(),
        period: 300,
        start: 1_431_000_000_000,
        end: 1_432_000_000_000,
    }
}

fn point(timestamp: i64, sum: Option<f64>, average: Option<f64>, extended: Vec<(&str, f64)>) -> RawDataPoint {
    RawDataPoint {
        timestamp,
        sample_count: None,
        sum: sum.map(|v| v.to_string()),
        maximum: None,
        average: average.map(|v| v.to_string()),
        minimum: None,
        extended_statistics: extended
            .into_iter()
            .map(|(k, v)| (String::from(k), v.to_string()))
            .collect(),
    }
}

fn fields(out: &MetricOut) -> Vec<&str> {
    vec![
        out.name.as_str(),
        out.dimension.as_str(),
        out.timestamp.as_str(),
        out.extended_stat.as_str(),
        out.extended_stat_value.as_str(),
        out.stat.as_str(),
        out.stat_value.as_str(),
    ]
}

#[test]
fn a_new_record_is_blank() {
    let out = MetricOut::builder();
    assert_eq!(fields(&out), vec!["", "", "", "", "", "", ""]);
}

#[test]
fn each_setter_sets_its_own_field() {
    let mut out = MetricOut::builder();
    out.name(String::from("n"));
    assert_eq!(fields(&out), vec!["n", "", "", "", "", "", ""]);
    out.dimension(String::from("d"));
    assert_eq!(fields(&out), vec!["n", "d", "", "", "", "", ""]);
    out.timestamp(String::from("t"));
    assert_eq!(fields(&out), vec!["n", "d", "t", "", "", "", ""]);
    out.extended_stat(String::from("e"));
    assert_eq!(fields(&out), vec!["n", "d", "t", "e", "", "", ""]);
    out.extended_stat_value(String::from("ev"));
    assert_eq!(fields(&out), vec!["n", "d", "t", "e", "ev", "", ""]);
    out.stat(String::from("s"));
    assert_eq!(fields(&out), vec!["n", "d", "t", "e", "ev", "s", ""]);
    out.stat_value(String::from("sv"));
    assert_eq!(fields(&out), vec!["n", "d", "t", "e", "ev", "s", "sv"]);
    out.name(String::from("again"));
    assert_eq!(fields(&out), vec!["again", "d", "t", "e", "ev", "s", "sv"]);
}

#[test]
fn the_sum_of_a_data_point_is_shown_for_the_sum() {
    let out = build_metric_output(
        &request("CPUUtilization", Some(Statistic::Sum), None),
        &point(1_431_648_000, Some(42.0), Some(4.2), Vec::new()),
    )
    .unwrap();
    assert_eq!(out.stat, "Sum");
    assert_eq!(out.stat_value, "42");
    assert_eq!(out.name, "CPUUtilization");
    assert_eq!(out.extended_stat, "");
    assert_eq!(out.extended_stat_value, "");
    assert_eq!(out.dimension, "");
}

#[test]
fn the_timestamp_is_shown_in_utc() {
    let r = request("CPUUtilization", None, None);
    let out = build_metric_output(&r, &point(1_431_648_000, None, None, Vec::new())).unwrap();
    assert_eq!(out.timestamp, "2015-05-15T00:00:00+00:00");
    let out = build_metric_output(&r, &point(0, None, None, Vec::new())).unwrap();
    assert_eq!(out.timestamp, "1970-01-01T00:00:00+00:00");
    let out = build_metric_output(&r, &point(-1, None, None, Vec::new())).unwrap();
    assert_eq!(out.timestamp, "1969-12-31T23:59:59+00:00");
    let out = build_metric_output(&r, &point(1_000_000_000, None, None, Vec::new())).unwrap();
    assert_eq!(out.timestamp, "2001-09-09T01:46:40+00:00");
}

#[test]
fn a_timestamp_beyond_the_calendar_gives_no_record() {
    let r = request("CPUUtilization", Some(Statistic::Sum), None);
    assert!(build_metric_output(&r, &point(i64::MAX, Some(1.0), None, Vec::new())).is_none());
    assert!(build_metric_output(&r, &point(i64::MIN, Some(1.0), None, Vec::new())).is_none());
    let points = vec![
        point(1, Some(1.0), None, Vec::new()),
        point(i64::MAX, Some(1.0), None, Vec::new()),
    ];
    assert!(normalize_points(&r, &points).is_none());
}

#[test]
fn a_statistic_without_value_leaves_the_value_empty() {
    let out = build_metric_output(
        &request("CPUUtilization", Some(Statistic::Maximum), None),
        &point(1_431_648_000, Some(42.0), None, Vec::new()),
    )
    .unwrap();
    assert_eq!(out.stat, "Maximum");
    assert_eq!(out.stat_value, "");
}

#[test]
fn no_selector_leaves_all_values_empty() {
    let out = build_metric_output(
        &request("CPUUtilization", None, None),
        &point(1_431_648_000, Some(42.0), Some(1.0), vec![("p99", 3.0)]),
    )
    .unwrap();
    assert_eq!(
        fields(&out),
        vec!["CPUUtilization", "", "2015-05-15T00:00:00+00:00", "", "", "", ""]
    );
}

#[test]
fn an_extended_statistic_that_is_missing_leaves_its_fields_empty() {
    let out = build_metric_output(
        &request("Latency", None, Some("p99")),
        &point(1_431_648_000, None, None, vec![("p50", 1.25), ("p90", 7.0)]),
    )
    .unwrap();
    assert_eq!(out.extended_stat, "");
    assert_eq!(out.extended_stat_value, "");
    assert_eq!(out.name, "Latency");
}

#[test]
fn an_extended_statistic_that_is_present_is_shown() {
    let out = build_metric_output(
        &request("Latency", Some(Statistic::Average), Some("p99")),
        &point(1_431_648_000, None, Some(0.5), vec![("p50", 1.25), ("p99", 17.75)]),
    )
    .unwrap();
    assert_eq!(
        fields(&out),
        vec!["Latency", "", "2015-05-15T00:00:00+00:00", "p99", "17.75", "Average", "0.5"]
    );
}

#[test]
fn a_record_is_folded_around_a_given_timestamp() {
    let out = fold_point(
        &request("Latency", Some(Statistic::Sum), Some("p50")),
        &point(5, Some(42.0), None, vec![("p50", 2.0)]),
        String::from("then"),
    );
    assert_eq!(fields(&out), vec!["Latency", "", "then", "p50", "2", "Sum", "42"]);
}

#[test]
fn every_data_point_gets_one_record_in_order() {
    let r = request("NetworkIn", Some(Statistic::Sum), None);
    let points = vec![
        point(1_431_648_000, Some(1.0), None, Vec::new()),
        point(1_431_648_300, None, None, Vec::new()),
        point(1_431_648_600, Some(3.5), None, Vec::new()),
    ];
    let outs = normalize_points(&r, &points).unwrap();
    assert_eq!(outs.len(), 3);
    assert_eq!(outs[0].timestamp, "2015-05-15T00:00:00+00:00");
    assert_eq!(outs[1].timestamp, "2015-05-15T00:05:00+00:00");
    assert_eq!(outs[2].timestamp, "2015-05-15T00:10:00+00:00");
    assert_eq!(outs[0].stat_value, "1");
    assert_eq!(outs[1].stat_value, "");
    assert_eq!(outs[2].stat_value, "3.5");
    assert_eq!(normalize_points(&r, &Vec::new()).unwrap().len(), 0);
}

#[test]
fn a_failed_query_leaves_the_others_untouched() {
    let requests = vec![
        request("First", Some(Statistic::Sum), None),
        request("Second", Some(Statistic::Sum), None),
        request("Third", Some(Statistic::Sum), None),
    ];
    let outcomes = vec![
        fetch_metric_values(Ok(vec![point(1_431_648_300, Some(2.0), None, Vec::new()), point(1_431_648_000, Some(1.0), None, Vec::new())])),
        fetch_metric_values(Err(String::from("throttled"))),
        fetch_metric_values(Ok(vec![point(1_431_648_000, Some(3.0), None, Vec::new())])),
    ];
    let outputs = get_peak_time(&requests, &outcomes);
    assert_eq!(outputs.len(), 3);
    let first = outputs[0].as_ref().unwrap();
    assert_eq!(first.len(), 2);
    assert_eq!(first[0].name, "First");
    assert_eq!(first[0].stat_value, "1");
    assert_eq!(first[1].stat_value, "2");
    assert!(outputs[1].is_none());
    assert_eq!(outcomes[1].as_ref().err(), Some(&RequestError::QueryFailed(String::from("throttled"))));
    let third = outputs[2].as_ref().unwrap();
    assert_eq!(third.len(), 1);
    assert_eq!(third[0].name, "Third");
    assert_eq!(third[0].stat_value, "3");
}

#[test]
fn two_requests_give_two_sets_of_records_under_their_names() {
    let requests = vec![
        request("CPUUtilization", Some(Statistic::Average), None),
        request("NetworkIn", Some(Statistic::Sum), None),
    ];
    let outcomes = vec![
        fetch_metric_values(Ok(vec![
            point(1_431_648_300, None, Some(12.5), Vec::new()),
            point(1_431_648_000, None, Some(11.0), Vec::new()),
        ])),
        fetch_metric_values(Ok(vec![point(1_431_648_000, Some(2048.0), None, Vec::new())])),
    ];
    let outputs = get_peak_time(&requests, &outcomes);
    assert_eq!(outputs.len(), 2);
    let cpu = outputs[0].as_ref().unwrap();
    assert_eq!(cpu.len(), 2);
    assert!(cpu.iter().all(|o| o.name == "CPUUtilization" && o.stat == "Average"));
    assert_eq!(cpu[0].stat_value, "11");
    assert_eq!(cpu[1].stat_value, "12.5");
    let net = outputs[1].as_ref().unwrap();
    assert_eq!(net.len(), 1);
    assert_eq!(net[0].name, "NetworkIn");
    assert_eq!(net[0].stat, "Sum");
    assert_eq!(net[0].stat_value, "2048");
}

#[test]
fn a_single_request_is_a_batch_of_one() {
    let r = request("CPUUtilization", Some(Statistic::Sum), None);
    let outcome = fetch_metric_values(Ok(vec![point(1_431_648_000, Some(42.0), None, Vec::new())]));
    let single = get_single_metric_info(&r, &outcome).unwrap();
    assert_eq!(single.len(), 1);
    assert_eq!(single[0].stat_value, "42");
    let failed = fetch_metric_values(Err(String::from("denied")));
    assert!(get_single_metric_info(&r, &failed).is_none());
    assert_eq!(get_peak_time(&Vec::new(), &Vec::new()).len(), 0);
}

fn sample() -> MetricOut {
    fold_point(
        &request("Latency", Some(Statistic::Sum), Some("p50")),
        &point(5, Some(42.0), None, vec![("p50", 2.0)]),
        String::from("2015-05-15T00:00:00+00:00"),
    )
}

#[test]
fn the_header_names_the_fields_of_a_record() {
    assert_eq!(
        header_row(),
        vec!["name", "dimension", "timestamp", "extended_stat", "extended_stat_value", "stat", "stat_value"]
    );
}

#[test]
fn a_row_holds_the_fields_in_the_order_of_the_header() {
    assert_eq!(
        record_row(&sample()),
        vec!["Latency", "", "2015-05-15T00:00:00+00:00", "p50", "2", "Sum", "42"]
    );
}

#[test]
fn a_line_joins_the_fields() {
    assert_eq!(record_line(&sample()), "Latency, , 2015-05-15T00:00:00+00:00, p50, 2, Sum, 42");
    assert_eq!(record_line(&MetricOut::builder()), ", , , , , , ");
}

#[test]
fn a_new_sink_prints_lines() {
    let mut log = Log::new();
    assert!(!log.csv);
    match log.write(&sample()) {
        SinkAction::Print(text) => {
            assert_eq!(text, "Latency, , 2015-05-15T00:00:00+00:00, p50, 2, Sum, 42")
        }
        other => panic!("unexpected {:?}", other),
    }
    assert!(!log.csv);
    assert!(matches!(log.close(), SinkAction::Nothing));
    assert!(log.closed);
}

#[test]
fn a_csv_sink_appends_rows_and_is_flushed() {
    let mut log = Log::new();
    match log.enable_csv() {
        SinkAction::Row(fields) => assert_eq!(fields, header_row()),
        other => panic!("unexpected {:?}", other),
    }
    assert!(log.csv);
    match log.write(&sample()) {
        SinkAction::Row(fields) => assert_eq!(fields, record_row(&sample())),
        other => panic!("unexpected {:?}", other),
    }
    assert!(log.csv);
    assert!(!log.closed);
    assert!(matches!(log.close(), SinkAction::Flush));
    assert!(log.closed);
}

#[test]
fn a_csv_file_is_opened_once_and_flushed_once() {
    let mut log = Log::new();
    assert!(matches!(log.enable_csv(), SinkAction::Row(_)));
    assert!(matches!(log.enable_csv(), SinkAction::Nothing));
    assert!(log.csv);
    assert!(matches!(log.write(&sample()), SinkAction::Row(_)));
    assert!(matches!(log.close(), SinkAction::Flush));
    assert!(matches!(log.close(), SinkAction::Nothing));
    assert!(matches!(log.write(&sample()), SinkAction::Nothing));
    assert!(matches!(log.enable_csv(), SinkAction::Nothing));
    assert!(log.csv && log.closed);
}

#[test]
fn a_closed_sink_takes_no_record() {
    let mut log = Log::new();
    assert!(matches!(log.close(), SinkAction::Nothing));
    assert!(matches!(log.write(&sample()), SinkAction::Nothing));
    assert!(matches!(log.enable_csv(), SinkAction::Nothing));
    assert!(!log.csv && log.closed);
}

#[test]
fn a_csv_run_has_one_row_more_than_records() {
    for n in [0usize, 1, 2, 7] {
        let records: Vec<MetricOut> = (0..n).map(|_| sample()).collect();
        let actions = Log::dump(&records);
        assert_eq!(actions.len(), n + 2);
        let rows = actions.iter().filter(|a| matches!(a, SinkAction::Row(_))).count();
        assert_eq!(rows, n + 1);
        assert!(matches!(&actions[0], SinkAction::Row(fields) if *fields == header_row()));
        for i in 0..n {
            assert!(matches!(&actions[i + 1], SinkAction::Row(fields) if *fields == record_row(&records[i])));
        }
        assert!(matches!(actions[n + 1], SinkAction::Flush));
        let flushes = actions.iter().filter(|a| matches!(a, SinkAction::Flush)).count();
        assert_eq!(flushes, 1);
    }
}

#[test]
fn errors_describe_themselves() {
    assert_eq!(RequestError::InvalidTimeToken.message(), "invalid time token");
    assert_eq!(RequestError::InvalidDimensionToken.message(), "invalid dimension token");
    assert_eq!(RequestError::MissingRequiredField.message(), "missing required field");
    assert_eq!(RequestError::UnsupportedStatistic.message(), "unsupported statistic");
    assert_eq!(RequestError::QueryFailed(String::from("timeout")).message(), "query failed: timeout");
}
