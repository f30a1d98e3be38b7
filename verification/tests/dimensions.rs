use metric_dump::dimension::{build_dimensions_vec, dimensions_from_pairs, parse_dimension, parse_dimensions};
use metric_dump::error::RequestError;
use metric_dump::metrics_obj::MetricsObj;

fn flags(dimensions: Option<Vec<String>>) -> MetricsObj {
    MetricsObj {
        name: None,
        config_file: None,
        csv: None,
        namespace: None,
        region: None,
        extended_stat: None,
        stat: None,
        dimensions,
        period: None,
        start_time: None,
    }
}

#[test]
fn a_token_splits_at_its_equals_sign() {
    let d = parse_dimension("InstanceId=i-0123456789").unwrap();
    assert_eq!(d.name, "InstanceId");
    assert_eq!(d.value, "i-0123456789");
}

#[test]
fn a_token_splits_at_the_first_equals_sign_only() {
    let d = parse_dimension("a=b=c").unwrap();
    assert_eq!(d.name, "a");
    assert_eq!(d.value, "b=c");
    let d = parse_dimension("==").unwrap();
    assert_eq!(d.name, "");
    assert_eq!(d.value, "=");
}

#[test]
fn a_key_or_a_value_may_be_empty() {
    let d = parse_dimension("=").unwrap();
    assert_eq!(d.name, "");
    assert_eq!(d.value, "");
    let d = parse_dimension("key=").unwrap();
    assert_eq!(d.name, "key");
    assert_eq!(d.value, "");
    let d = parse_dimension("=value").unwrap();
    assert_eq!(d.name, "");
    assert_eq!(d.value, "value");
}

#[test]
fn a_token_beyond_ascii_splits_by_characters() {
    let d = parse_dimension("clé=värde€").unwrap();
    assert_eq!(d.name, "clé");
    assert_eq!(d.value, "värde€");
}

#[test]
fn a_token_without_equals_sign_is_refused() {
    assert_eq!(parse_dimension("InstanceId").err(), Some(RequestError::InvalidDimensionToken));
    assert_eq!(parse_dimension("").err(), Some(RequestError::InvalidDimensionToken));
    assert_eq!(parse_dimension("a:b").err(), Some(RequestError::InvalidDimensionToken));
}

#[test]
fn tokens_keep_their_order() {
    let tokens = vec![String::from("b=2"), String::from("a=1"), String::from("c=3")];
    let dims = parse_dimensions(&tokens).unwrap();
    assert_eq!(dims.len(), 3);
    assert_eq!((dims[0].name.as_str(), dims[0].value.as_str()), ("b", "2"));
    assert_eq!((dims[1].name.as_str(), dims[1].value.as_str()), ("a", "1"));
    assert_eq!((dims[2].name.as_str(), dims[2].value.as_str()), ("c", "3"));
}

#[test]
fn one_bad_token_refuses_the_list() {
    let tokens = vec![String::from("a=1"), String::from("oops"), String::from("c=3")];
    assert_eq!(parse_dimensions(&tokens).err(), Some(RequestError::InvalidDimensionToken));
}

#[test]
fn no_tokens_give_no_dimensions() {
    assert_eq!(parse_dimensions(&Vec::new()).unwrap().len(), 0);
    assert_eq!(build_dimensions_vec(&flags(None)).unwrap().len(), 0);
    assert_eq!(build_dimensions_vec(&flags(Some(Vec::new()))).unwrap().len(), 0);
}

#[test]
fn the_flags_give_their_dimensions() {
    let dims = build_dimensions_vec(&flags(Some(vec![String::from("k=v")]))).unwrap();
    assert_eq!(dims.len(), 1);
    assert_eq!(dims[0].name, "k");
    assert_eq!(dims[0].value, "v");
    assert_eq!(
        build_dimensions_vec(&flags(Some(vec![String::from("kv")]))).err(),
        Some(RequestError::InvalidDimensionToken)
    );
}

#[test]
fn a_decoded_mapping_is_taken_as_it_stands() {
    let pairs = vec![
        (String::from("InstanceId"), String::from("i-1")),
        (String::from("Path"), String::from("a=b")),
    ];
    let dims = dimensions_from_pairs(&pairs);
    assert_eq!(dims.len(), 2);
    assert_eq!((dims[0].name.as_str(), dims[0].value.as_str()), ("InstanceId", "i-1"));
    assert_eq!((dims[1].name.as_str(), dims[1].value.as_str()), ("Path", "a=b"));
    assert_eq!(dimensions_from_pairs(&Vec::new()).len(), 0);
}
