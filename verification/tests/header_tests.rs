use xray::error::Error;
use xray::header::{Header, SamplingDecision};

#[test]
fn parse_with_parent_from_str() {
    let h = Header::from_str("Root=1-5759e988-bd862e3fe1be46a994272793;Parent=53995c3f42cd8ad8;Sampled=1")
        .expect("header should parse");
    assert_eq!(h.trace_id, "1-5759e988-bd862e3fe1be46a994272793");
    assert_eq!(h.parent_id, Some("53995c3f42cd8ad8".to_string()));
    assert_eq!(h.sampling_decision, SamplingDecision::Sampled);
    assert!(h.additional_data.is_empty());
}

#[test]
fn parse_no_parent_from_str() {
    let h = Header::from_str("Root=1-5759e988-bd862e3fe1be46a994272793;Sampled=1")
        .expect("header should parse");
    assert_eq!(h.trace_id, "1-5759e988-bd862e3fe1be46a994272793");
    assert_eq!(h.parent_id, None);
    assert_eq!(h.sampling_decision, SamplingDecision::Sampled);
    assert!(h.additional_data.is_empty());
}

#[test]
fn displays_as_header() {
    let mut header = Header::default();
    header.trace_id = "1-5759e988-bd862e3fe1be46a994272793".to_string();
    assert_eq!(header.render(), "Root=1-5759e988-bd862e3fe1be46a994272793");
}

#[test]
fn renders_every_understood_field() {
    let h = Header::from_str("Root=1-5759e988-bd862e3fe1be46a994272793;Parent=53995c3f42cd8ad8;Sampled=1")
        .expect("header should parse");
    assert_eq!(
        h.render(),
        "Root=1-5759e988-bd862e3fe1be46a994272793;Parent=53995c3f42cd8ad8;Sampled=1"
    );
}

#[test]
fn malformed_part_without_equals_fails() {
    assert_eq!(Header::from_str("Root=abc;garbage").unwrap_err(), Error::HeaderParse);
}

#[test]
fn empty_header_text_fails() {
    assert_eq!(Header::from_str("").unwrap_err(), Error::HeaderParse);
}

#[test]
fn trailing_separator_fails() {
    assert_eq!(Header::from_str("Root=abc;").unwrap_err(), Error::HeaderParse);
}

#[test]
fn self_part_is_recognized_and_ignored() {
    let h = Header::from_str("Root=abc;Self=1-22-33").expect("header should parse");
    assert_eq!(h.trace_id, "abc");
    assert!(h.additional_data.is_empty());
}

#[test]
fn unknown_keys_join_the_additional_data() {
    let h = Header::from_str("Root=abc;foo=bar;baz=quux").expect("header should parse");
    assert_eq!(h.trace_id, "abc");
    assert_eq!(
        h.additional_data,
        vec![
            ("foo".to_string(), "bar".to_string()),
            ("baz".to_string(), "quux".to_string()),
        ]
    );
}

#[test]
fn repeated_keys_keep_the_last_value() {
    let h = Header::from_str("foo=1;foo=2").expect("header should parse");
    assert_eq!(h.additional_data, vec![("foo".to_string(), "2".to_string())]);
}

#[test]
fn sampling_values_map_to_their_decisions() {
    assert_eq!(SamplingDecision::from("Sampled=1"), SamplingDecision::Sampled);
    assert_eq!(SamplingDecision::from("Sampled=0"), SamplingDecision::NotSampled);
    assert_eq!(SamplingDecision::from("Sampled=?"), SamplingDecision::Requested);
    assert_eq!(SamplingDecision::from("Sampled=2"), SamplingDecision::Unknown);
    assert_eq!(SamplingDecision::from("Sampled=11"), SamplingDecision::Unknown);
    assert_eq!(SamplingDecision::from("other"), SamplingDecision::Unknown);
}

#[test]
fn later_root_overwrites_earlier() {
    let h = Header::from_str("Root=a;Root=b").expect("header should parse");
    assert_eq!(h.trace_id, "b");
}

#[test]
fn value_may_contain_equals() {
    let h = Header::from_str("Root=a=b;k=v=w").expect("header should parse");
    assert_eq!(h.trace_id, "a=b");
    assert_eq!(h.additional_data, vec![("k".to_string(), "v=w".to_string())]);
}
