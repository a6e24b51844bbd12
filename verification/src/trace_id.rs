//! Trace identifiers: generation, canonical text form, and the shape law of
//! generated values.

use vstd::prelude::*;
use crate::entropy::random_bytes;
use crate::epoch::unix_seconds;
use crate::hexbytes::{
    hex_fixed, hex_of, is_hex_digit_byte, is_hex_digit_char, lemma_hex_fixed_shape,
    lemma_hex_of_shape, pow16, push_hex, push_hex_fixed,
};
use crate::text::{ascii_chars, copy_bytes, string_from_ascii};

verus! {

/// Correlates the units of work of one end-to-end request.
///
/// A freshly generated identifier holds its creation time in whole epoch
/// seconds plus twelve random bytes; an identifier received from upstream
/// keeps its rendered text verbatim and is never re-validated.
#[derive(Debug)]
pub enum TraceId {
    /// A freshly generated identifier: epoch seconds and twelve random bytes.
    New(u64, Vec<u8>),
    /// An identifier received from upstream, kept verbatim.
    Rendered(String),
}

/// The mathematical value of a [`TraceId`].
pub enum TraceIdV {
    /// A freshly generated identifier.
    New { secs: u64, bytes: Seq<u8> },
    /// An identifier received from upstream.
    Rendered { chars: Seq<char> },
}

impl View for TraceId {
    type V = TraceIdV;

    open spec fn view(&self) -> TraceIdV {
        match *self {
            TraceId::New(secs, bytes) => TraceIdV::New { secs, bytes: bytes@ },
            TraceId::Rendered(s) => TraceIdV::Rendered { chars: s@ },
        }
    }
}

/// A generated trace identifier carries exactly twelve random bytes.
pub open spec fn trace_id_wf(t: TraceIdV) -> bool {
    match t {
        TraceIdV::New { bytes, .. } => bytes.len() == 12,
        TraceIdV::Rendered { .. } => true,
    }
}

/// The canonical text of a trace identifier: a received one verbatim; a
/// generated one as `1-`, eight hexadecimal digits of the epoch seconds,
/// `-`, and two hexadecimal digits per random byte.
pub open spec fn trace_id_chars(t: TraceIdV) -> Seq<char> {
    match t {
        TraceIdV::New { secs, bytes } => ascii_chars(
            seq![49u8, 45u8] + hex_fixed(secs as nat, 8) + seq![45u8] + hex_of(bytes),
        ),
        TraceIdV::Rendered { chars } => chars,
    }
}

impl TraceId {
    /// Generates a fresh identifier from the wall clock and twelve bytes of
    /// the process-wide random source.
    pub fn new() -> (t: TraceId)
        ensures
            t@ matches TraceIdV::New { secs, bytes } && bytes.len() == 12,
            trace_id_wf(t@),
    {
        TraceId::New(unix_seconds(), random_bytes(12))
    }

    /// An identical copy.
    pub fn dup(&self) -> (t: TraceId)
        ensures
            t@ == self@,
    {
        match self {
            TraceId::New(secs, bytes) => TraceId::New(*secs, copy_bytes(bytes)),
            TraceId::Rendered(s) => TraceId::Rendered(s.clone()),
        }
    }

    /// The canonical text form.
    pub fn render(&self) -> (s: String)
        ensures
            s@ == trace_id_chars(self@),
    {
        match self {
            TraceId::New(secs, bytes) => {
                let mut buf: Vec<u8> = Vec::new();
                buf.push(49);
                buf.push(45);
                push_hex_fixed(&mut buf, *secs, 8);
                buf.push(45);
                push_hex(&mut buf, bytes.as_slice());
                proof {
                    lemma_hex_fixed_shape(*secs as nat, 8);
                    lemma_hex_of_shape(bytes@);
                    let whole = seq![49u8, 45u8] + hex_fixed(*secs as nat, 8) + seq![45u8]
                        + hex_of(bytes@);
                    assert(buf@ =~= whole);
                    assert forall|i: int| 0 <= i < buf@.len() implies buf@[i] < 0x80 by {
                        let hl = hex_fixed(*secs as nat, 8).len() as int;
                        if 2 <= i < 2 + hl {
                            assert(buf@[i] == hex_fixed(*secs as nat, 8)[i - 2]);
                        } else if 3 + hl <= i {
                            assert(buf@[i] == hex_of(bytes@)[i - 3 - hl]);
                        }
                    }
                }
                string_from_ascii(buf)
            },
            TraceId::Rendered(s) => s.clone(),
        }
    }
}

impl Default for TraceId {
    /// A freshly generated identifier.
    fn default() -> (t: TraceId)
        ensures
            t@ matches TraceIdV::New { secs, bytes } && bytes.len() == 12,
            trace_id_wf(t@),
    {
        TraceId::new()
    }
}

/// Law: the canonical text of every generated trace identifier matches
/// `1-xxxxxxxx-xxxxxxxxxxxxxxxxxxxxxxxx`, eight then twenty-four lowercase
/// hexadecimal digits, whenever the recorded epoch seconds fit the
/// eight-digit field.
pub proof fn lemma_generated_trace_id_pattern(secs: u64, bytes: Seq<u8>)
    requires
        bytes.len() == 12,
        secs < 0x100000000,
    ensures
        ({
            let s = trace_id_chars(TraceIdV::New { secs, bytes });
            &&& s.len() == 35
            &&& s[0] == '1'
            &&& s[1] == '-'
            &&& s[10] == '-'
            &&& forall|i: int|
                (2 <= i < 10 || 11 <= i < 35) ==> is_hex_digit_char(#[trigger] s[i])
        }),
{
    lemma_hex_fixed_shape(secs as nat, 8);
    assert(pow16(8) == 0x100000000) by {
        reveal_with_fuel(pow16, 9);
    }
    lemma_hex_of_shape(bytes);
    let whole = seq![49u8, 45u8] + hex_fixed(secs as nat, 8) + seq![45u8] + hex_of(bytes);
    let s = trace_id_chars(TraceIdV::New { secs, bytes });
    assert(s.len() == 35);
    assert(whole[0] == 49u8 && whole[1] == 45u8 && whole[10] == 45u8);
    assert forall|i: int| (2 <= i < 10 || 11 <= i < 35) implies is_hex_digit_char(
        #[trigger] s[i],
    ) by {
        if 2 <= i < 10 {
            assert(whole[i] == hex_fixed(secs as nat, 8)[i - 2]);
        } else {
            assert(whole[i] == hex_of(bytes)[i - 11]);
        }
        assert(is_hex_digit_byte(whole[i]));
        assert(s[i] == whole[i] as char);
    }
}

} // verus!
