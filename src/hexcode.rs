//! Hexadecimal text on bytes, through the `hex` crate.
use vstd::prelude::*;

verus! {

/// The lowercase ASCII digit for a value below sixteen.
pub open spec fn lower_hex_digit(n: u8) -> u8 {
    if n < 10 {
        (48 + n) as u8
    } else {
        (87 + n) as u8
    }
}

/// Lowercase hexadecimal text of `b`: two digits per byte, high nibble first.
pub open spec fn hex_text(b: Seq<u8>) -> Seq<u8> {
    Seq::new(
        2 * b.len(),
        |i: int|
            if i % 2 == 0 {
                lower_hex_digit(b[i / 2] / 16)
            } else {
                lower_hex_digit(b[i / 2] % 16)
            },
    )
}

pub open spec fn is_hex_char(c: u8) -> bool {
    (48 <= c <= 57) || (65 <= c <= 70) || (97 <= c <= 102)
}

pub open spec fn hex_char_value(c: u8) -> u8 {
    if c <= 57 {
        (c - 48) as u8
    } else if c <= 70 {
        (c - 55) as u8
    } else {
        (c - 87) as u8
    }
}

/// Text that decodes as hexadecimal: an even number of digits of either case.
pub open spec fn is_hex_input(s: Seq<u8>) -> bool {
    &&& s.len() % 2 == 0
    &&& forall|i: int| 0 <= i < s.len() ==> is_hex_char(#[trigger] s[i])
}

/// The bytes that hexadecimal text stands for.
pub open spec fn unhex(s: Seq<u8>) -> Seq<u8> {
    Seq::new(
        s.len() / 2,
        |i: int| (hex_char_value(s[2 * i]) * 16 + hex_char_value(s[2 * i + 1])) as u8,
    )
}

/// Relies on `hex::encode`: lowercase digits, two per byte, high nibble first.
#[verifier::external_body]
pub(crate) fn encode_hex(data: &[u8]) -> (r: Vec<u8>)
    ensures
        r@ == hex_text(data@),
{
    hex::encode(data).into_bytes()
}

/// Relies on `hex::decode`: it accepts exactly an even number of digits of
/// either case and returns the bytes they stand for.
#[verifier::external_body]
pub(crate) fn decode_hex(text: &[u8]) -> (r: Option<Vec<u8>>)
    ensures
        r is Some <==> is_hex_input(text@),
        r matches Some(v) ==> v@ == unhex(text@),
{
    hex::decode(text).ok()
}

/// Hexadecimal text is valid input and decodes back to the bytes it was made from.
pub proof fn lemma_hex_round_trip(b: Seq<u8>)
    ensures
        is_hex_input(hex_text(b)),
        unhex(hex_text(b)) == b,
{
    let h = hex_text(b);
    assert forall|i: int| 0 <= i < h.len() implies is_hex_char(#[trigger] h[i]) by {
        assert(b[i / 2] / 16 < 16);
        assert(b[i / 2] % 16 < 16);
    }
    assert(h.len() % 2 == 0) by (nonlinear_arith)
        requires h.len() == 2 * b.len();
    assert(h.len() / 2 == b.len()) by (nonlinear_arith)
        requires h.len() == 2 * b.len();
    assert forall|i: int| 0 <= i < b.len() implies #[trigger] unhex(h)[i] == b[i] by {
        assert((2 * i) % 2 == 0 && (2 * i) / 2 == i) by (nonlinear_arith);
        assert((2 * i + 1) % 2 == 1 && (2 * i + 1) / 2 == i) by (nonlinear_arith);
        assert(2 * i + 1 < h.len()) by (nonlinear_arith)
            requires i < b.len(), h.len() == 2 * b.len();
        let x = b[i];
        assert(hex_char_value(lower_hex_digit(x / 16)) == x / 16);
        assert(hex_char_value(lower_hex_digit(x % 16)) == x % 16);
        assert((x / 16) * 16 + x % 16 == x);
    }
    assert(unhex(h) =~= b);
}

} // verus!

verus! {

/// The value of one hexadecimal digit of either case.
pub fn hex_digit_value(c: u8) -> (r: Option<u8>)
    ensures
        r == (if is_hex_char(c) { Some(hex_char_value(c)) } else { None::<u8> }),
{
    if 48 <= c && c <= 57 {
        Some(c - 48)
    } else if 65 <= c && c <= 70 {
        Some(c - 55)
    } else if 97 <= c && c <= 102 {
        Some(c - 87)
    } else {
        None
    }
}

} // verus!
