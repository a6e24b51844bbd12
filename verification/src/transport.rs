//! Wire framing for the collector: one datagram per document, a fixed
//! protocol line followed by the document body.

use vstd::prelude::*;
use vstd::string::StringSliceAdditionalSpecFns;
use crate::text::{append_bytes, append_lit};

verus! {

/// The protocol line that opens every collector datagram, newline included.
pub open spec fn daemon_header_bytes() -> Seq<u8> {
    "{\"format\": \"json\", \"version\": 1}\n".spec_bytes()
}

/// Frames one document body as a collector datagram: the protocol line, then
/// the body, with no other separator.
pub fn packet(body: &[u8]) -> (r: Vec<u8>)
    ensures
        r@ == daemon_header_bytes() + body@,
{
    let mut buf: Vec<u8> = Vec::new();
    append_lit(&mut buf, "{\"format\": \"json\", \"version\": 1}\n");
    append_bytes(&mut buf, body);
    assert(buf@ =~= daemon_header_bytes() + body@);
    buf
}

} // verus!
