//! The context-propagation engine: one explicit active-context slot per
//! thread of execution, scoped acquisition that saves and restores the slot,
//! and the guarantee that every opened scope hands off exactly one finalized
//! document.
//!
//! The slot is an explicit value rather than hidden thread-local state: each
//! thread owns its own `Recorder`, and a context crossing a thread boundary
//! is carried and reinstalled by the caller.

use vstd::prelude::*;
use crate::epoch::Seconds;
use crate::header::Header;
use crate::segment::{truncated_name, Segment, Subsegment};
use crate::segment_id::{SegmentId, SegmentIdV};
use crate::trace_id::{TraceId, TraceIdV};

verus! {

/// The minimal propagation record: what trace and what unit of work are
/// currently active.
#[derive(Debug)]
pub struct Context {
    /// The trace being recorded.
    pub trace_id: TraceId,
    /// The unit of work that called into the current one, when known.
    pub parent_id: Option<SegmentId>,
    /// The unit of work currently active.
    pub segment_id: SegmentId,
}

/// The mathematical value of a [`Context`].
pub struct ContextV {
    /// The trace being recorded.
    pub trace_id: TraceIdV,
    /// The calling unit of work, when known.
    pub parent_id: Option<SegmentIdV>,
    /// The unit of work currently active.
    pub segment_id: SegmentIdV,
}

impl View for Context {
    type V = ContextV;

    open spec fn view(&self) -> ContextV {
        ContextV {
            trace_id: self.trace_id@,
            parent_id: match self.parent_id {
                Some(ref p) => Some(p@),
                None => None,
            },
            segment_id: self.segment_id@,
        }
    }
}

impl Context {
    /// An identical copy.
    pub fn dup(&self) -> (c: Context)
        ensures
            c@ == self@,
    {
        Context {
            trace_id: self.trace_id.dup(),
            parent_id: match &self.parent_id {
                Some(p) => Some(p.dup()),
                None => None,
            },
            segment_id: self.segment_id.dup(),
        }
    }
}

/// The value held by an active-context slot.
pub open spec fn slot_view(s: Option<Context>) -> Option<ContextV> {
    match s {
        Some(c) => Some(c@),
        None => None,
    }
}

/// A finished document on its way to the transport.
#[derive(Debug)]
pub enum Document {
    /// A finished segment.
    Segment(Segment),
    /// A finished subsegment.
    Subsegment(Subsegment),
}

/// The slot transition when a scope opens: the new context is installed and
/// whatever was active is saved.
pub open spec fn open_slot(slot: Option<ContextV>, c: ContextV) -> (Option<ContextV>, Option<
    ContextV,
>) {
    (Some(c), slot)
}

/// The slot transition when a scope closes: the saved value is reinstalled
/// unchanged.
pub open spec fn close_slot(saved: Option<ContextV>) -> Option<ContextV> {
    saved
}

/// Law (strict restore): closing a scope puts the slot back to exactly the
/// value that was active immediately before the scope opened, whatever
/// context the scope installed.
pub proof fn lemma_scope_restores(slot: Option<ContextV>, c: ContextV)
    ensures
        close_slot(open_slot(slot, c).1) == slot,
        open_slot(slot, c).0 == Some(c),
{
}

/// `s` finalized at time `t`: `end_time` stamped, `in_progress` cleared,
/// every other field unchanged.
pub open spec fn finalized_segment(s: Segment, t: Seconds) -> Segment {
    Segment { end_time: Some(t), in_progress: false, ..s }
}

/// `s` finalized at time `t`: `end_time` stamped, `in_progress` cleared,
/// every other field unchanged.
pub open spec fn finalized_subsegment(s: Subsegment, t: Seconds) -> Subsegment {
    Subsegment { end_time: Some(t), in_progress: false, ..s }
}

/// Law (documents leave finalized): a finalized document always has its end
/// time set and is no longer in progress, and finalization touches nothing
/// else.
pub proof fn lemma_finalized_closed(s: Segment, sub: Subsegment, t: Seconds)
    ensures
        finalized_segment(s, t).end_time == Some(t),
        finalized_segment(s, t).in_progress == false,
        finalized_segment(s, t).name == s.name,
        finalized_segment(s, t).trace_id == s.trace_id,
        finalized_segment(s, t).id == s.id,
        finalized_segment(s, t).start_time == s.start_time,
        finalized_subsegment(sub, t).end_time == Some(t),
        finalized_subsegment(sub, t).in_progress == false,
        finalized_subsegment(sub, t).name == sub.name,
        finalized_subsegment(sub, t).trace_id == sub.trace_id,
        finalized_subsegment(sub, t).id == sub.id,
        finalized_subsegment(sub, t).start_time == sub.start_time,
{
}

/// The per-thread engine: the active-context slot, the inbound propagation
/// header it may fall back on, and the queue of finished documents the
/// caller drains to the transport.
#[derive(Debug)]
pub struct Recorder {
    /// The active context, or none.
    pub slot: Option<Context>,
    /// A pre-formed propagation header for the current invocation, handed in
    /// once at construction and consulted only when no context is active.
    pub inbound_header: Option<Header>,
    /// Finished documents awaiting transmission, oldest first; each is sent
    /// as one datagram and the queue is drained after every scope close.
    pub outbox: Vec<Document>,
}

/// The saved state of the context slot; restoring it ends the scope that
/// replaced it.
pub struct Current {
    /// The slot value to reinstall.
    pub prev: Option<Context>,
}

impl Current {
    /// Puts the slot back to the saved value.
    pub fn restore(self, rec: &mut Recorder)
        ensures
            final(rec).slot == self.prev,
            slot_view(final(rec).slot) == close_slot(slot_view(self.prev)),
            final(rec).inbound_header == old(rec).inbound_header,
            final(rec).outbox@ == old(rec).outbox@,
    {
        rec.slot = self.prev;
    }
}

impl Recorder {
    /// An engine with an empty slot and outbox and the given inbound header.
    pub fn new(inbound_header: Option<Header>) -> (r: Recorder)
        ensures
            r.slot is None,
            r.inbound_header == inbound_header,
            r.outbox@ == Seq::<Document>::empty(),
    {
        Recorder { slot: None, inbound_header, outbox: Vec::new() }
    }

    /// Queues one finished document for transmission.
    fn emit(&mut self, d: Document)
        ensures
            final(self).outbox@ == old(self).outbox@.push(d),
            final(self).slot == old(self).slot,
            final(self).inbound_header == old(self).inbound_header,
    {
        self.outbox.push(d);
    }

    /// Hands over every queued document, oldest first, leaving the queue
    /// empty.
    pub fn take_outbox(&mut self) -> (docs: Vec<Document>)
        ensures
            docs@ == old(self).outbox@,
            final(self).outbox@ == Seq::<Document>::empty(),
            final(self).slot == old(self).slot,
            final(self).inbound_header == old(self).inbound_header,
    {
        let mut docs: Vec<Document> = Vec::new();
        core::mem::swap(&mut docs, &mut self.outbox);
        docs
    }

    /// Installs `ctx` as the active context, handing back the previous slot
    /// value for the caller to restore; meant for weaving a context across
    /// thread boundaries.
    pub fn set(&mut self, ctx: Context) -> (cur: Current)
        ensures
            final(self).slot == Some(ctx),
            cur.prev == old(self).slot,
            ({
                let r = open_slot(slot_view(old(self).slot), ctx@);
                slot_view(final(self).slot) == r.0 && slot_view(cur.prev) == r.1
            }),
            final(self).inbound_header == old(self).inbound_header,
            final(self).outbox@ == old(self).outbox@,
    {
        let prev = self.slot.take();
        self.slot = Some(ctx);
        Current { prev }
    }

    /// A copy of the active context on this slot, if any.
    pub fn current(&self) -> (c: Option<Context>)
        ensures
            slot_view(c) == slot_view(self.slot),
    {
        match &self.slot {
            Some(c) => Some(c.dup()),
            None => None,
        }
    }

    /// Opens a brand-new trace: a fresh trace and segment identifier with no
    /// parent, installed regardless of any context already active (which is
    /// saved and will be restored at close, but is otherwise discarded).
    pub fn begin_segment(&mut self, name: &str) -> (open: OpenSegment)
        ensures
            final(self).inbound_header == old(self).inbound_header,
            final(self).outbox@ == old(self).outbox@,
            open.current.prev == old(self).slot,
            final(self).slot matches Some(c) && c@ == open.context@,
            open.context.parent_id is None,
            open.context.trace_id@ matches TraceIdV::New { bytes, .. } && bytes.len() == 12,
            open.context.segment_id@ matches SegmentIdV::New { bytes } && bytes.len() == 8,
            open.state matches Some(seg) && seg.name@ == truncated_name(name@) && seg.id@
                == open.context.segment_id@ && seg.trace_id@ == open.context.trace_id@
                && seg.parent_id is None && seg.in_progress == true && seg.end_time is None,
    {
        let trace_id = TraceId::new();
        let segment_id = SegmentId::new();
        let context = Context { trace_id, parent_id: None, segment_id };
        let current = self.set(context.dup());
        let seg = Segment::begin(name, context.segment_id.dup(), None, context.trace_id.dup());
        OpenSegment { current, context, state: Some(seg) }
    }

    /// Opens a nested unit of work: under an active context it joins that
    /// trace with the active unit as parent; with no active context it joins
    /// the trace named by the inbound header; with neither it starts a new,
    /// parentless context.
    pub fn begin_subsegment(&mut self, name: &str) -> (open: OpenSubsegment)
        ensures
            final(self).inbound_header == old(self).inbound_header,
            final(self).outbox@ == old(self).outbox@,
            open.current.prev == old(self).slot,
            final(self).slot matches Some(c) && c@ == open.context@,
            open.context.segment_id@ matches SegmentIdV::New { bytes } && bytes.len() == 8,
            match old(self).slot {
                Some(c) => open.context.trace_id@ == c@.trace_id && (open.context.parent_id matches
                    Some(p) && p@ == c@.segment_id),
                None => match old(self).inbound_header {
                    Some(h) => open.context.trace_id@ == (TraceIdV::Rendered {
                        chars: h@.trace_id,
                    }) && (match h@.parent_id {
                        Some(pc) => open.context.parent_id matches Some(p) && p@
                            == (SegmentIdV::Rendered { chars: pc }),
                        None => open.context.parent_id is None,
                    }),
                    None => open.context.parent_id is None && (open.context.trace_id@ matches
                        TraceIdV::New { bytes, .. } && bytes.len() == 12),
                },
            },
            open.state matches Some(sub) && sub.name@ == truncated_name(name@) && sub.id@
                == open.context.segment_id@ && (sub.trace_id matches Some(t) && t@
                == open.context.trace_id@) && sub.in_progress == true && sub.end_time is None
                && sub.type_@ == "subsegment"@ && (match open.context.parent_id {
                Some(p) => sub.parent_id matches Some(q) && q@ == p@,
                None => sub.parent_id is None,
            }),
    {
        let context = match &self.slot {
            Some(c) => Context {
                trace_id: c.trace_id.dup(),
                parent_id: Some(c.segment_id.dup()),
                segment_id: SegmentId::new(),
            },
            None => match &self.inbound_header {
                Some(h) => Context {
                    trace_id: TraceId::Rendered(h.trace_id.clone()),
                    parent_id: match &h.parent_id {
                        Some(p) => Some(SegmentId::Rendered(p.clone())),
                        None => None,
                    },
                    segment_id: SegmentId::new(),
                },
                None => Context {
                    trace_id: TraceId::new(),
                    parent_id: None,
                    segment_id: SegmentId::new(),
                },
            },
        };
        let current = self.set(context.dup());
        let parent = match &context.parent_id {
            Some(p) => Some(p.dup()),
            None => None,
        };
        let sub = Subsegment::begin(name, context.segment_id.dup(), parent, context.trace_id.dup());
        OpenSubsegment { current, context, state: Some(sub) }
    }
}

impl Default for Recorder {
    /// An engine with an empty slot and outbox and no inbound header.
    fn default() -> (r: Recorder)
        ensures
            r.slot is None,
            r.inbound_header is None,
            r.outbox@ == Seq::<Document>::empty(),
    {
        Recorder::new(None)
    }
}

/// An open segment scope: the document being built, the context it installed,
/// and the saved slot value. Closing it finalizes and queues the document —
/// exactly once, since closing consumes the scope — and restores the slot.
pub struct OpenSegment {
    /// The saved slot value to restore at close.
    pub current: Current,
    /// The context this scope installed.
    pub context: Context,
    /// The document being built; taking it out transfers the duty to finish
    /// and send it to the caller.
    pub state: Option<Segment>,
}

impl OpenSegment {
    /// Ends the scope: restores the slot to the value saved when the scope
    /// opened, and — unless the document was already taken out — stamps it
    /// finished and queues it, exactly once.
    pub fn close(self, rec: &mut Recorder)
        ensures
            final(rec).slot == self.current.prev,
            final(rec).inbound_header == old(rec).inbound_header,
            match self.state {
                Some(seg) => exists|t: Seconds|
                    final(rec).outbox@ == old(rec).outbox@.push(
                        Document::Segment(finalized_segment(seg, t)),
                    ),
                None => final(rec).outbox@ == old(rec).outbox@,
            },
    {
        let OpenSegment { current, context: _, state } = self;
        match state {
            Some(mut seg) => {
                let ghost s0 = seg;
                seg.end();
                proof {
                    let t = seg.end_time->0;
                    assert(seg == finalized_segment(s0, t));
                }
                rec.emit(Document::Segment(seg));
            },
            None => {},
        }
        current.restore(rec);
    }
}

/// An open subsegment scope: the document being built, the context it
/// installed, and the saved slot value. Closing it finalizes and queues the
/// document — exactly once, since closing consumes the scope — and restores
/// the slot.
pub struct OpenSubsegment {
    /// The saved slot value to restore at close.
    pub current: Current,
    /// The context this scope installed.
    pub context: Context,
    /// The document being built; taking it out transfers the duty to finish
    /// and send it to the caller.
    pub state: Option<Subsegment>,
}

impl OpenSubsegment {
    /// The document being built, for the instrumented code to populate or
    /// take out.
    pub fn subsegment(&mut self) -> (r: &mut Option<Subsegment>)
        ensures
            *r == old(self).state,
            final(self).state == *final(r),
            final(self).current == old(self).current,
            final(self).context == old(self).context,
    {
        &mut self.state
    }

    /// Ends the scope: restores the slot to the value saved when the scope
    /// opened, and — unless the document was already taken out — stamps it
    /// finished and queues it, exactly once.
    pub fn close(self, rec: &mut Recorder)
        ensures
            final(rec).slot == self.current.prev,
            final(rec).inbound_header == old(rec).inbound_header,
            match self.state {
                Some(sub) => exists|t: Seconds|
                    final(rec).outbox@ == old(rec).outbox@.push(
                        Document::Subsegment(finalized_subsegment(sub, t)),
                    ),
                None => final(rec).outbox@ == old(rec).outbox@,
            },
    {
        let OpenSubsegment { current, context: _, state } = self;
        match state {
            Some(mut sub) => {
                let ghost s0 = sub;
                sub.end();
                proof {
                    let t = sub.end_time->0;
                    assert(sub == finalized_subsegment(s0, t));
                }
                rec.emit(Document::Subsegment(sub));
            },
            None => {},
        }
        current.restore(rec);
    }
}

} // verus!
