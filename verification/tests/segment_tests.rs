use xray::epoch::Seconds;
use xray::segment::{Annotation, Http, Response, Segment, Subsegment};
use xray::segment_id::SegmentId;
use xray::trace_id::TraceId;

#[test]
fn segments_begin_with_names_with_a_max_len() {
    assert_eq!(
        Segment::begin("short", SegmentId::default(), None, TraceId::default()).name,
        "short"
    );
    assert_eq!(
        Segment::begin(
            &String::from_utf8_lossy(&[b'X'; 201]),
            SegmentId::default(),
            None,
            TraceId::default()
        )
        .name
        .len(),
        200
    );
}

#[test]
fn subsegments_begin_with_names_with_a_max_len() {
    assert_eq!(
        Subsegment::begin("short", SegmentId::default(), None, TraceId::default()).name,
        "short"
    );
    assert_eq!(
        Subsegment::begin(
            &String::from_utf8_lossy(&[b'X'; 201]),
            SegmentId::default(),
            None,
            TraceId::default()
        )
        .name
        .len(),
        200
    );
}

fn scorekeep_segment() -> Segment {
    let mut s = Segment::default();
    s.name = "Scorekeep".to_string();
    s.id = SegmentId::Rendered("70de5b6f19ff9a0a".to_string());
    s.start_time = Seconds::from_millis(1_478_293_361_271);
    s.trace_id = TraceId::Rendered("1-581cf771-a006649127e371903a2de979".to_string());
    s.end_time = Some(Seconds::from_millis(1_478_293_361_449));
    s
}

#[test]
fn segments_serialize() {
    assert_eq!(
        r#"{"trace_id":"1-581cf771-a006649127e371903a2de979","id":"70de5b6f19ff9a0a","name":"Scorekeep","start_time":1478293361.271,"end_time":1478293361.449}"#,
        String::from_utf8(scorekeep_segment().to_json()).expect("failed to serialize")
    )
}

#[test]
fn finalized_segment_omits_every_defaulted_field() {
    let v: serde_json::Value =
        serde_json::from_slice(&scorekeep_segment().to_json()).expect("output must be valid");
    let obj = v.as_object().expect("a JSON object");
    let mut keys: Vec<&str> = obj.keys().map(|k| k.as_str()).collect();
    keys.sort();
    assert_eq!(keys, vec!["end_time", "id", "name", "start_time", "trace_id"]);
    assert!(obj.get("in_progress").is_none());
    assert!(obj.get("fault").is_none());
    assert!(obj.get("error").is_none());
    assert!(obj.get("throttle").is_none());
}

#[test]
fn string_escaping_matches_the_wire_schema() {
    let mut s = scorekeep_segment();
    s.name = "a\"b\\c\nd\te\u{1}f\u{e9}".to_string();
    let v: serde_json::Value =
        serde_json::from_slice(&s.to_json()).expect("escaped output must be valid");
    assert_eq!(v["name"].as_str().unwrap(), "a\"b\\c\nd\te\u{1}f\u{e9}");
}

#[test]
fn populated_blocks_serialize_in_declaration_order() {
    let mut s = scorekeep_segment();
    s.in_progress = true;
    s.end_time = None;
    s.fault = true;
    s.parent_id = Some(SegmentId::Rendered("53995c3f42cd8ad8".to_string()));
    s.annotations = Some(vec![
        ("player".to_string(), Annotation::String("meg".to_string())),
        ("round".to_string(), Annotation::Number(7)),
        ("won".to_string(), Annotation::Bool(true)),
    ]);
    s.metadata = Some(vec![("extra".to_string(), "{\"depth\":3}".to_string())]);
    s.http = Some(Http {
        request: None,
        response: Some(Response { status: Some(200), content_length: Some(12) }),
    });
    let bytes = s.to_json();
    let text = String::from_utf8(bytes.clone()).unwrap();
    assert!(text.contains(r#""in_progress":true"#), "{text}");
    assert!(text.contains(r#""fault":true"#), "{text}");
    assert!(text.contains(r#""parent_id":"53995c3f42cd8ad8""#), "{text}");
    let v: serde_json::Value = serde_json::from_slice(&bytes).expect("output must be valid");
    assert_eq!(v["annotations"]["player"].as_str().unwrap(), "meg");
    assert_eq!(v["annotations"]["round"].as_u64().unwrap(), 7);
    assert_eq!(v["annotations"]["won"].as_bool().unwrap(), true);
    assert_eq!(v["metadata"]["extra"]["depth"].as_u64().unwrap(), 3);
    assert_eq!(v["http"]["response"]["status"].as_u64().unwrap(), 200);
    assert_eq!(v["http"]["response"]["content_length"].as_u64().unwrap(), 12);
}

#[test]
fn subsegments_serialize_with_type_tag_and_children() {
    let mut sub = Subsegment::begin(
        "downstream",
        SegmentId::Rendered("53995c3f42cd8ad8".to_string()),
        Some(SegmentId::Rendered("70de5b6f19ff9a0a".to_string())),
        TraceId::Rendered("1-581cf771-a006649127e371903a2de979".to_string()),
    );
    sub.start_time = Seconds::from_millis(1_478_293_361_271);
    sub.namespace = Some("remote".to_string());
    let mut child = Subsegment::begin(
        "nested",
        SegmentId::Rendered("aaaabbbbccccdddd".to_string()),
        None,
        TraceId::Rendered("1-581cf771-a006649127e371903a2de979".to_string()),
    );
    child.start_time = Seconds::from_millis(1_478_293_361_300);
    child.trace_id = None;
    sub.subsegments.push(child);
    let v: serde_json::Value =
        serde_json::from_slice(&sub.to_json()).expect("output must be valid");
    assert_eq!(v["type"].as_str().unwrap(), "subsegment");
    assert_eq!(v["name"].as_str().unwrap(), "downstream");
    assert_eq!(v["namespace"].as_str().unwrap(), "remote");
    assert_eq!(v["in_progress"].as_bool().unwrap(), true);
    assert_eq!(v["parent_id"].as_str().unwrap(), "70de5b6f19ff9a0a");
    assert_eq!(v["subsegments"][0]["name"].as_str().unwrap(), "nested");
    assert_eq!(v["subsegments"][0]["id"].as_str().unwrap(), "aaaabbbbccccdddd");
}

#[test]
fn ending_a_segment_stamps_it_finished() {
    let mut s = Segment::begin("work", SegmentId::new(), None, TraceId::new());
    assert!(s.in_progress);
    assert!(s.end_time.is_none());
    s.end();
    assert!(!s.in_progress);
    assert!(s.end_time.is_some());
    s.end();
    assert!(!s.in_progress);
    assert!(s.end_time.is_some());
}

#[test]
fn timestamps_render_with_three_fractional_digits() {
    let t = Seconds::from_millis(1_478_293_361_005);
    assert_eq!(t.trunc(), 1_478_293_361);
    assert_eq!(t.millis(), 1_478_293_361_005);
    let mut s = scorekeep_segment();
    s.end_time = Some(t);
    let text = String::from_utf8(s.to_json()).unwrap();
    assert!(text.contains(r#""end_time":1478293361.005"#), "{text}");
}
