//! Byte-buffer text building: appending raw bytes and string literals,
//! decimal rendering, and turning ASCII byte buffers back into strings.

use vstd::prelude::*;
use vstd::string::StringSliceAdditionalSpecFns;

verus! {

/// The characters that a sequence of ASCII bytes denotes, one character per
/// byte.
pub open spec fn ascii_chars(bs: Seq<u8>) -> Seq<char> {
    bs.map_values(|b: u8| b as char)
}

/// Decimal digit bytes of `n`, most significant first, without leading zeros.
pub open spec fn dec_bytes(n: nat) -> Seq<u8>
    decreases n,
{
    if n < 10 {
        seq![(48 + n) as u8]
    } else {
        dec_bytes(n / 10) + seq![(48 + n % 10) as u8]
    }
}

/// Appends every byte of `bs` to `buf`, in order.
pub fn append_bytes(buf: &mut Vec<u8>, bs: &[u8])
    ensures
        final(buf)@ == old(buf)@ + bs@,
{
    let mut i: usize = 0;
    while i < bs.len()
        invariant
            0 <= i <= bs@.len(),
            buf@ == old(buf)@ + bs@.take(i as int),
        decreases bs@.len() - i,
    {
        buf.push(bs[i]);
        proof {
            assert(bs@.take(i + 1) =~= bs@.take(i as int).push(bs@[i as int]));
            assert(old(buf)@ + bs@.take(i + 1) =~= (old(buf)@ + bs@.take(i as int)).push(
                bs@[i as int],
            ));
        }
        i = i + 1;
    }
    assert(bs@.take(bs@.len() as int) =~= bs@);
}

/// Appends the UTF-8 bytes of `s` to `buf`.
pub fn append_lit(buf: &mut Vec<u8>, s: &str)
    ensures
        final(buf)@ == old(buf)@ + s.spec_bytes(),
{
    append_bytes(buf, s.as_bytes());
}

/// Appends the decimal digits of `n` to `buf`.
pub fn push_dec(buf: &mut Vec<u8>, n: u64)
    ensures
        final(buf)@ == old(buf)@ + dec_bytes(n as nat),
    decreases n,
{
    if n < 10 {
        buf.push(48 + (n as u8));
        assert(old(buf)@ + dec_bytes(n as nat) =~= old(buf)@.push((48 + n) as u8));
    } else {
        push_dec(buf, n / 10);
        buf.push(48 + ((n % 10) as u8));
        assert(old(buf)@ + dec_bytes(n as nat) =~= (old(buf)@ + dec_bytes((n / 10) as nat)).push(
            (48 + n % 10) as u8,
        ));
    }
}

/// Concatenation of sequences is associative.
pub proof fn lemma_concat_assoc<T>(a: Seq<T>, b: Seq<T>, c: Seq<T>)
    ensures
        (a + b) + c == a + (b + c),
{
    assert((a + b) + c =~= a + (b + c));
}

/// An identical copy of a byte vector.
pub fn copy_bytes(v: &Vec<u8>) -> (r: Vec<u8>)
    ensures
        r@ == v@,
{
    let mut r: Vec<u8> = Vec::new();
    append_bytes(&mut r, v.as_slice());
    assert(r@ =~= v@);
    r
}

/// Relies on `String::from_utf8`: bytes below 0x80 decode to exactly those
/// characters, one character per byte.
#[verifier::external_body]
pub(crate) fn string_from_ascii(bytes: Vec<u8>) -> (r: String)
    requires
        forall|i: int| 0 <= i < bytes@.len() ==> bytes@[i] < 0x80,
    ensures
        r@ == ascii_chars(bytes@),
{
    String::from_utf8(bytes).unwrap_or_default()
}

} // verus!
