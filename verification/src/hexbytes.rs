//! Lowercase hexadecimal rendering of byte slices and integers, as used by
//! the canonical text form of trace and segment identifiers.

use vstd::prelude::*;
use crate::text::ascii_chars;
use crate::text::string_from_ascii;

verus! {

/// The lowercase hexadecimal digit byte for a value below 16.
pub open spec fn hex_digit(d: u8) -> u8
    recommends
        d < 16,
{
    if d < 10 {
        (48 + d) as u8
    } else {
        (87 + d) as u8
    }
}

/// Lowercase hexadecimal rendering of a byte sequence, two digits per byte.
pub open spec fn hex_of(bs: Seq<u8>) -> Seq<u8>
    decreases bs.len(),
{
    if bs.len() == 0 {
        Seq::<u8>::empty()
    } else {
        hex_of(bs.drop_last()) + seq![
            hex_digit((bs.last() / 16) as u8),
            hex_digit((bs.last() % 16) as u8),
        ]
    }
}

/// `n` in lowercase hexadecimal, zero-padded on the left to at least `w`
/// digits (more digits appear only when `n` does not fit in `w`).
pub open spec fn hex_fixed(n: nat, w: nat) -> Seq<u8>
    decreases n, w,
{
    if n < 16 && w <= 1 {
        seq![hex_digit(n as u8)]
    } else {
        hex_fixed(n / 16, if w <= 1 {
            0
        } else {
            (w - 1) as nat
        }) + seq![hex_digit((n % 16) as u8)]
    }
}

/// 16 to the power `w`.
pub open spec fn pow16(w: nat) -> nat
    decreases w,
{
    if w == 0 {
        1
    } else {
        16 * pow16((w - 1) as nat)
    }
}

/// Whether `b` is the byte of a lowercase hexadecimal digit: `0-9` or `a-f`.
pub open spec fn is_hex_digit_byte(b: u8) -> bool {
    (48 <= b && b <= 57) || (97 <= b && b <= 102)
}

/// Whether `c` is a lowercase hexadecimal digit character: `0-9` or `a-f`.
pub open spec fn is_hex_digit_char(c: char) -> bool {
    (48 <= c as u32 && c as u32 <= 57) || (97 <= c as u32 && c as u32 <= 102)
}

/// Each digit byte of a hexadecimal byte rendering is `0-9` or `a-f`, and the
/// rendering has exactly two digits per input byte.
pub proof fn lemma_hex_of_shape(bs: Seq<u8>)
    ensures
        hex_of(bs).len() == 2 * bs.len(),
        forall|i: int| 0 <= i < hex_of(bs).len() ==> is_hex_digit_byte(#[trigger] hex_of(bs)[i]),
    decreases bs.len(),
{
    if bs.len() > 0 {
        lemma_hex_of_shape(bs.drop_last());
    }
}

/// A fixed-width hexadecimal rendering has `0-9`/`a-f` digits only, at least
/// `w` of them, and exactly `w` of them whenever `n` fits in `w` digits.
pub proof fn lemma_hex_fixed_shape(n: nat, w: nat)
    ensures
        hex_fixed(n, w).len() >= w,
        w >= 1 && n < pow16(w) ==> hex_fixed(n, w).len() == w,
        forall|i: int|
            0 <= i < hex_fixed(n, w).len() ==> is_hex_digit_byte(#[trigger] hex_fixed(n, w)[i]),
    decreases n, w,
{
    if !(n < 16 && w <= 1) {
        lemma_hex_fixed_shape(n / 16, if w <= 1 {
            0
        } else {
            (w - 1) as nat
        });
    }
}

/// Hexadecimal digit bytes are ASCII.
pub proof fn lemma_hex_digit_bytes_ascii(bs: Seq<u8>)
    requires
        forall|i: int| 0 <= i < bs.len() ==> is_hex_digit_byte(#[trigger] bs[i]),
    ensures
        forall|i: int| 0 <= i < bs.len() ==> bs[i] < 0x80,
{
}

/// Appends the two lowercase hexadecimal digits of one byte.
fn push_hex_byte(buf: &mut Vec<u8>, b: u8)
    ensures
        final(buf)@ == old(buf)@ + seq![hex_digit((b / 16) as u8), hex_digit((b % 16) as u8)],
{
    let hi: u8 = b / 16;
    let lo: u8 = b % 16;
    buf.push(if hi < 10 {
        48 + hi
    } else {
        87 + hi
    });
    buf.push(if lo < 10 {
        48 + lo
    } else {
        87 + lo
    });
    assert(old(buf)@ + seq![hex_digit((b / 16) as u8), hex_digit((b % 16) as u8)] =~= old(
        buf,
    )@.push(hex_digit((b / 16) as u8)).push(hex_digit((b % 16) as u8)));
}

/// Appends the lowercase hexadecimal rendering of `bs`, two digits per byte.
pub fn push_hex(buf: &mut Vec<u8>, bs: &[u8])
    ensures
        final(buf)@ == old(buf)@ + hex_of(bs@),
{
    let mut i: usize = 0;
    while i < bs.len()
        invariant
            0 <= i <= bs@.len(),
            buf@ == old(buf)@ + hex_of(bs@.take(i as int)),
        decreases bs@.len() - i,
    {
        push_hex_byte(buf, bs[i]);
        proof {
            assert(bs@.take(i + 1).drop_last() =~= bs@.take(i as int));
            assert(bs@.take(i + 1).last() == bs@[i as int]);
            assert(old(buf)@ + hex_of(bs@.take(i + 1)) =~= (old(buf)@ + hex_of(
                bs@.take(i as int),
            )) + seq![hex_digit((bs@[i as int] / 16) as u8), hex_digit((bs@[i as int] % 16) as u8)]);
        }
        i = i + 1;
    }
    assert(bs@.take(bs@.len() as int) =~= bs@);
}

/// Appends `n` in lowercase hexadecimal, left-padded with zeros to at least
/// `w` digits.
pub fn push_hex_fixed(buf: &mut Vec<u8>, n: u64, w: usize)
    ensures
        final(buf)@ == old(buf)@ + hex_fixed(n as nat, w as nat),
    decreases n, w,
{
    if n < 16 && w <= 1 {
        let d: u8 = n as u8;
        buf.push(if d < 10 {
            48 + d
        } else {
            87 + d
        });
        assert(old(buf)@ + hex_fixed(n as nat, w as nat) =~= old(buf)@.push(hex_digit(n as u8)));
    } else {
        push_hex_fixed(buf, n / 16, if w <= 1 {
            0
        } else {
            w - 1
        });
        let d: u8 = (n % 16) as u8;
        buf.push(if d < 10 {
            48 + d
        } else {
            87 + d
        });
        assert(old(buf)@ + hex_fixed(n as nat, w as nat) =~= (old(buf)@ + hex_fixed(
            (n / 16) as nat,
            if w <= 1 {
                0nat
            } else {
                (w - 1) as nat
            },
        )).push(hex_digit((n % 16) as u8)));
    }
}

/// The lowercase hexadecimal string for a byte slice, two digits per byte.
pub fn hex_string(bytes: &[u8]) -> (s: String)
    ensures
        s@ == ascii_chars(hex_of(bytes@)),
{
    let mut buf: Vec<u8> = Vec::new();
    push_hex(&mut buf, bytes);
    proof {
        lemma_hex_of_shape(bytes@);
        lemma_hex_digit_bytes_ascii(hex_of(bytes@));
        assert(buf@ =~= hex_of(bytes@));
    }
    string_from_ascii(buf)
}

} // verus!
