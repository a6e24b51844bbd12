//! Segment identifiers: generation, canonical text form, and the shape law
//! of generated values.

use vstd::prelude::*;
use crate::entropy::random_bytes;
use crate::hexbytes::{
    hex_of, hex_string, is_hex_digit_byte, is_hex_digit_char, lemma_hex_of_shape,
};
use crate::text::{ascii_chars, copy_bytes};

verus! {

/// Identifies one unit of work within a trace.
///
/// A freshly generated identifier holds eight random bytes; one received from
/// upstream keeps its rendered text verbatim.
#[derive(Debug)]
pub enum SegmentId {
    /// A freshly generated identifier: eight random bytes.
    New(Vec<u8>),
    /// An identifier received from upstream, kept verbatim.
    Rendered(String),
}

/// The mathematical value of a [`SegmentId`].
pub enum SegmentIdV {
    /// A freshly generated identifier.
    New { bytes: Seq<u8> },
    /// An identifier received from upstream.
    Rendered { chars: Seq<char> },
}

impl View for SegmentId {
    type V = SegmentIdV;

    open spec fn view(&self) -> SegmentIdV {
        match *self {
            SegmentId::New(bytes) => SegmentIdV::New { bytes: bytes@ },
            SegmentId::Rendered(s) => SegmentIdV::Rendered { chars: s@ },
        }
    }
}

/// A generated segment identifier carries exactly eight random bytes.
pub open spec fn segment_id_wf(v: SegmentIdV) -> bool {
    match v {
        SegmentIdV::New { bytes } => bytes.len() == 8,
        SegmentIdV::Rendered { .. } => true,
    }
}

/// The canonical text of a segment identifier: a received one verbatim; a
/// generated one as two lowercase hexadecimal digits per random byte.
pub open spec fn segment_id_chars(v: SegmentIdV) -> Seq<char> {
    match v {
        SegmentIdV::New { bytes } => ascii_chars(hex_of(bytes)),
        SegmentIdV::Rendered { chars } => chars,
    }
}

impl SegmentId {
    /// Generates a fresh identifier from eight bytes of the process-wide
    /// random source.
    pub fn new() -> (v: SegmentId)
        ensures
            v@ matches SegmentIdV::New { bytes } && bytes.len() == 8,
            segment_id_wf(v@),
    {
        SegmentId::New(random_bytes(8))
    }

    /// An identical copy.
    pub fn dup(&self) -> (v: SegmentId)
        ensures
            v@ == self@,
    {
        match self {
            SegmentId::New(bytes) => SegmentId::New(copy_bytes(bytes)),
            SegmentId::Rendered(s) => SegmentId::Rendered(s.clone()),
        }
    }

    /// The canonical text form.
    pub fn render(&self) -> (s: String)
        ensures
            s@ == segment_id_chars(self@),
    {
        match self {
            SegmentId::New(bytes) => hex_string(bytes.as_slice()),
            SegmentId::Rendered(s) => s.clone(),
        }
    }
}

impl Default for SegmentId {
    /// A freshly generated identifier.
    fn default() -> (v: SegmentId)
        ensures
            v@ matches SegmentIdV::New { bytes } && bytes.len() == 8,
            segment_id_wf(v@),
    {
        SegmentId::new()
    }
}

/// Law: the canonical text of every generated segment identifier is exactly
/// sixteen lowercase hexadecimal digits.
pub proof fn lemma_generated_segment_id_pattern(bytes: Seq<u8>)
    requires
        bytes.len() == 8,
    ensures
        ({
            let s = segment_id_chars(SegmentIdV::New { bytes });
            &&& s.len() == 16
            &&& forall|i: int| 0 <= i < 16 ==> is_hex_digit_char(#[trigger] s[i])
        }),
{
    lemma_hex_of_shape(bytes);
    let s = segment_id_chars(SegmentIdV::New { bytes });
    assert forall|i: int| 0 <= i < 16 implies is_hex_digit_char(#[trigger] s[i]) by {
        assert(is_hex_digit_byte(hex_of(bytes)[i]));
        assert(s[i] == hex_of(bytes)[i] as char);
    }
}

} // verus!
