use xray::transport::packet;

#[test]
fn it_works() {
    assert_eq!(2 + 2, 4);
}

#[test]
fn client_prefixes_packets_with_header() {
    assert_eq!(
        packet(br#"{"foo":"bar"}"#),
        b"{\"format\": \"json\", \"version\": 1}\n{\"foo\":\"bar\"}".to_vec()
    )
}

#[test]
fn packet_keeps_the_body_after_one_newline() {
    let framed = packet(b"{}");
    let pos = framed.iter().position(|b| *b == b'\n').expect("one newline");
    assert_eq!(&framed[..pos], br#"{"format": "json", "version": 1}"#);
    assert_eq!(&framed[pos + 1..], b"{}");
    let line: serde_json::Value =
        serde_json::from_slice(&framed[..pos]).expect("the protocol line is valid");
    assert_eq!(line["format"].as_str().unwrap(), "json");
    assert_eq!(line["version"].as_u64().unwrap(), 1);
}
