use xray::hexbytes::hex_string;
use xray::segment_id::SegmentId;
use xray::trace_id::TraceId;

fn is_hex_lower(c: char) -> bool {
    ('0'..='9').contains(&c) || ('a'..='f').contains(&c)
}

#[test]
fn formats_lowerhex() {
    assert_eq!(hex_string(b"test"), "74657374")
}

#[test]
fn hex_of_empty_is_empty() {
    assert_eq!(hex_string(b""), "");
}

#[test]
fn generated_trace_ids_match_the_canonical_pattern() {
    for _ in 0..32 {
        let rendered = TraceId::new().render();
        let chars: Vec<char> = rendered.chars().collect();
        assert_eq!(chars.len(), 35, "rendered: {rendered}");
        assert_eq!(chars[0], '1');
        assert_eq!(chars[1], '-');
        assert_eq!(chars[10], '-');
        for (i, c) in chars.iter().enumerate() {
            if (2..10).contains(&i) || (11..35).contains(&i) {
                assert!(is_hex_lower(*c), "bad digit {c} in {rendered}");
            }
        }
    }
}

#[test]
fn generated_segment_ids_match_the_canonical_pattern() {
    for _ in 0..32 {
        let rendered = SegmentId::new().render();
        assert_eq!(rendered.chars().count(), 16, "rendered: {rendered}");
        assert!(rendered.chars().all(is_hex_lower), "rendered: {rendered}");
    }
}

#[test]
fn received_identifiers_render_verbatim() {
    let t = TraceId::Rendered("1-581cf771-a006649127e371903a2de979".to_string());
    assert_eq!(t.render(), "1-581cf771-a006649127e371903a2de979");
    let s = SegmentId::Rendered("70de5b6f19ff9a0a".to_string());
    assert_eq!(s.render(), "70de5b6f19ff9a0a");
}

#[test]
fn duplicated_identifiers_render_the_same() {
    let t = TraceId::new();
    assert_eq!(t.dup().render(), t.render());
    let s = SegmentId::new();
    assert_eq!(s.dup().render(), s.render());
}
