use xray::header::Header;
use xray::recorder::{Document, Recorder};

#[test]
fn test_recorder() {
    let mut recorder = Recorder::default();
    let a = recorder.begin_segment("test-segment");
    let b = recorder.begin_subsegment("subsegment-b");
    let c = recorder.begin_subsegment("subsegment-c");
    c.close(&mut recorder);
    b.close(&mut recorder);
    a.close(&mut recorder);
    let docs = recorder.take_outbox();
    assert_eq!(docs.len(), 3);
    match (&docs[0], &docs[1], &docs[2]) {
        (Document::Subsegment(c), Document::Subsegment(b), Document::Segment(a)) => {
            assert_eq!(c.name, "subsegment-c");
            assert_eq!(b.name, "subsegment-b");
            assert_eq!(a.name, "test-segment");
        },
        _ => panic!("expected two subsegments then the root segment"),
    }
}

#[test]
fn subsegment_under_a_segment_joins_its_trace() {
    let mut recorder = Recorder::default();
    let a = recorder.begin_segment("root");
    let root_ctx = recorder.current().expect("a context is active");
    let b = recorder.begin_subsegment("child");
    let sub = b.state.as_ref().expect("an open subsegment holds its document");
    assert_eq!(
        sub.parent_id.as_ref().expect("child has a parent").render(),
        root_ctx.segment_id.render()
    );
    assert_eq!(
        sub.trace_id.as_ref().expect("child carries the trace").render(),
        root_ctx.trace_id.render()
    );
    b.close(&mut recorder);
    a.close(&mut recorder);
}

#[test]
fn closing_a_nested_scope_restores_the_previous_context() {
    let mut recorder = Recorder::default();
    let a = recorder.begin_segment("root");
    let before = recorder.current().expect("a context is active");
    let b = recorder.begin_subsegment("child");
    let during = recorder.current().expect("the nested context is active");
    assert_ne!(during.segment_id.render(), before.segment_id.render());
    b.close(&mut recorder);
    let after = recorder.current().expect("the outer context is restored");
    assert_eq!(after.segment_id.render(), before.segment_id.render());
    assert_eq!(after.trace_id.render(), before.trace_id.render());
    assert_eq!(after.parent_id.is_none(), before.parent_id.is_none());
    a.close(&mut recorder);
    assert!(recorder.current().is_none());
}

fn abrupt_worker(recorder: &mut Recorder) -> Result<(), ()> {
    let open = recorder.begin_subsegment("doomed");
    // the instrumented code path fails and leaves early; the scope is still
    // closed on the way out, as a scope guard would do
    let failed = true;
    if failed {
        open.close(recorder);
        return Err(());
    }
    open.close(recorder);
    Ok(())
}

#[test]
fn every_scope_emits_exactly_one_finished_document() {
    let mut recorder = Recorder::default();
    let open = recorder.begin_segment("one");
    open.close(&mut recorder);
    assert_eq!(recorder.outbox.len(), 1);
    match &recorder.outbox[0] {
        Document::Segment(s) => {
            assert!(!s.in_progress);
            assert!(s.end_time.is_some());
        },
        _ => panic!("expected a segment"),
    }
    assert!(abrupt_worker(&mut recorder).is_err());
    assert_eq!(recorder.outbox.len(), 2);
    match &recorder.outbox[1] {
        Document::Subsegment(s) => {
            assert_eq!(s.name, "doomed");
            assert!(!s.in_progress);
            assert!(s.end_time.is_some());
        },
        _ => panic!("expected a subsegment"),
    }
}

#[test]
fn taking_the_document_out_disarms_the_scope() {
    let mut recorder = Recorder::default();
    let mut open = recorder.begin_subsegment("manual");
    let doc = open.subsegment().take().expect("the scope held its document");
    assert_eq!(doc.name, "manual");
    open.close(&mut recorder);
    assert!(recorder.take_outbox().is_empty());
}

#[test]
fn subsegment_without_context_falls_back_to_the_inbound_header() {
    let header = Header::from_str(
        "Root=1-5759e988-bd862e3fe1be46a994272793;Parent=53995c3f42cd8ad8;Sampled=1",
    )
    .expect("header should parse");
    let mut recorder = Recorder::new(Some(header));
    let open = recorder.begin_subsegment("from-header");
    let sub = open.state.as_ref().unwrap();
    assert_eq!(
        sub.trace_id.as_ref().unwrap().render(),
        "1-5759e988-bd862e3fe1be46a994272793"
    );
    assert_eq!(sub.parent_id.as_ref().unwrap().render(), "53995c3f42cd8ad8");
    open.close(&mut recorder);
}

#[test]
fn subsegment_with_nothing_starts_a_parentless_context() {
    let mut recorder = Recorder::default();
    let open = recorder.begin_subsegment("orphan");
    let sub = open.state.as_ref().unwrap();
    assert!(sub.parent_id.is_none());
    let trace = sub.trace_id.as_ref().unwrap().render();
    assert_eq!(trace.chars().count(), 35);
    assert!(trace.starts_with("1-"));
    open.close(&mut recorder);
}

#[test]
fn beginning_a_segment_overwrites_an_active_context() {
    let mut recorder = Recorder::default();
    let a = recorder.begin_segment("first");
    let first_ctx = recorder.current().unwrap();
    let b = recorder.begin_segment("second");
    let second_ctx = recorder.current().unwrap();
    assert_ne!(first_ctx.trace_id.render(), second_ctx.trace_id.render());
    b.close(&mut recorder);
    // the overwritten context comes back when the overwriting scope closes
    assert_eq!(
        recorder.current().unwrap().trace_id.render(),
        first_ctx.trace_id.render()
    );
    a.close(&mut recorder);
}

#[test]
fn set_and_restore_weave_a_context_through() {
    let mut recorder = Recorder::default();
    let a = recorder.begin_segment("root");
    let carried = recorder.current().unwrap();
    a.close(&mut recorder);
    assert!(recorder.current().is_none());
    let guard = recorder.set(carried.dup());
    assert_eq!(
        recorder.current().unwrap().segment_id.render(),
        carried.segment_id.render()
    );
    guard.restore(&mut recorder);
    assert!(recorder.current().is_none());
}

#[test]
fn take_outbox_leaves_the_queue_empty() {
    let mut recorder = Recorder::default();
    let a = recorder.begin_segment("only");
    a.close(&mut recorder);
    assert_eq!(recorder.take_outbox().len(), 1);
    assert!(recorder.take_outbox().is_empty());
}
