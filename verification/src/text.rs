//! ASCII text helpers: byte-to-char views, decimal rendering of numbers,
//! and the one conversion that turns verified ASCII bytes into a `String`.

use vstd::prelude::*;

verus! {

/// The characters a byte sequence spells, one char per byte.
pub open spec fn chars_of(bytes: Seq<u8>) -> Seq<char> {
    Seq::new(bytes.len(), |i: int| bytes[i] as char)
}

/// Relies on String::from_utf8: bytes below 0x80 are single-byte UTF-8
/// scalars, so they decode to a string of exactly those characters.
#[verifier::external_body]
pub(crate) fn ascii_to_string(bytes: Vec<u8>) -> (r: String)
    requires
        forall|i: int| 0 <= i < bytes@.len() ==> bytes@[i] < 0x80,
    ensures
        r@ == chars_of(bytes@),
{
    String::from_utf8(bytes).unwrap_or_default()
}

/// The byte shown for a raw wire byte in a display string: printable ASCII
/// other than the quote and backslash passes through, anything else shows
/// as `?`, so a display string always embeds cleanly in JSON.
pub open spec fn displayable(b: u8) -> u8 {
    if 0x20 <= b <= 0x7E && b != 0x22 && b != 0x5C {
        b
    } else {
        0x3F
    }
}

/// Executable form of `displayable`.
pub fn display_byte(b: u8) -> (r: u8)
    ensures
        r == displayable(b),
{
    if 0x20 <= b && b <= 0x7E && b != 0x22 && b != 0x5C {
        b
    } else {
        0x3F
    }
}

/// The decimal ASCII rendering of `n`, most significant digit first, with
/// no leading zeros (a lone `0` for zero).
pub open spec fn dec_bytes(n: nat) -> Seq<u8>
    decreases n,
{
    if n < 10 {
        seq![(0x30 + n) as u8]
    } else {
        dec_bytes(n / 10) + seq![(0x30 + n % 10) as u8]
    }
}

/// The characters of the decimal rendering of `n`.
pub open spec fn dec_chars(n: nat) -> Seq<char> {
    chars_of(dec_bytes(n))
}

/// Every byte of a decimal rendering is an ASCII digit.
pub proof fn lemma_dec_bytes_ascii(n: nat)
    ensures
        forall|i: int| 0 <= i < dec_bytes(n).len()
            ==> 0x30 <= #[trigger] dec_bytes(n)[i] <= 0x39,
    decreases n,
{
    if n >= 10 {
        lemma_dec_bytes_ascii(n / 10);
        let prefix = dec_bytes(n / 10);
        let whole = dec_bytes(n);
        assert(whole == prefix + seq![(0x30 + n % 10) as u8]);
        assert forall|i: int| 0 <= i < whole.len()
            implies 0x30 <= #[trigger] whole[i] <= 0x39 by {
            if i < prefix.len() {
                assert(whole[i] == prefix[i]);
            } else {
                assert(whole[i] == (0x30 + n % 10) as u8);
            }
        }
    }
}

/// Append the decimal ASCII rendering of `n` to `out`.
pub fn push_dec(n: u32, out: &mut Vec<u8>)
    ensures
        final(out)@ == old(out)@ + dec_bytes(n as nat),
    decreases n,
{
    if n < 10 {
        out.push(0x30 + n as u8);
        proof {
            assert(out@ =~= old(out)@ + dec_bytes(n as nat));
        }
    } else {
        proof {
            assert(n / 10 < n) by (nonlinear_arith)
                requires
                    n >= 10,
            ;
        }
        push_dec(n / 10, out);
        out.push(0x30 + (n % 10) as u8);
        proof {
            assert(out@ =~= old(out)@ + dec_bytes(n as nat));
        }
    }
}

/// The decimal rendering of `n` as a `String`.
pub fn dec_string(n: u32) -> (r: String)
    ensures
        r@ == dec_chars(n as nat),
{
    let mut bytes: Vec<u8> = Vec::new();
    push_dec(n, &mut bytes);
    proof {
        lemma_dec_bytes_ascii(n as nat);
        assert(bytes@ =~= dec_bytes(n as nat));
    }
    ascii_to_string(bytes)
}

} // verus!
