//! Lowercase hexadecimal text and its decoding, stated over character codes.
use vstd::prelude::*;

verus! {

/// The character code of the lowercase hex digit for a nibble `n` (0..16).
pub open spec fn hex_digit_code(n: int) -> u32 {
    if n < 10 {
        (48 + n) as u32
    } else {
        (87 + n) as u32
    }
}

/// The nibble that position `i` of the hex text of `b` stands for.
pub open spec fn hex_nibble(b: Seq<u8>, i: int) -> int {
    if i % 2 == 0 {
        b[i / 2] as int / 16
    } else {
        b[i / 2] as int % 16
    }
}

/// `s` is the lowercase hex text of `b`: two digits per byte, high nibble first.
pub open spec fn is_hex_of(s: Seq<char>, b: Seq<u8>) -> bool {
    &&& s.len() == 2 * b.len()
    &&& forall|i: int| 0 <= i < s.len() ==> #[trigger] (s[i] as u32) == hex_digit_code(hex_nibble(b, i))
}

/// The value of a hex digit of either case, or `None` for any other character.
pub open spec fn hex_value(c: char) -> Option<int> {
    let k = c as u32;
    if 48 <= k <= 57 {
        Some(k - 48)
    } else if 97 <= k <= 102 {
        Some(k - 87)
    } else if 65 <= k <= 70 {
        Some(k - 55)
    } else {
        None
    }
}

/// `s` is an even number of hex digits, of either case.
pub open spec fn is_hex_text(s: Seq<char>) -> bool {
    &&& s.len() % 2 == 0
    &&& forall|i: int| 0 <= i < s.len() ==> (#[trigger] hex_value(s[i])) is Some
}

/// `v` holds the bytes that the hex text `s` spells, two digits per byte.
pub open spec fn decodes_to(s: Seq<char>, v: Seq<u8>) -> bool {
    &&& s.len() == 2 * v.len()
    &&& forall|i: int|
        0 <= i < v.len() ==> #[trigger] (v[i] as int) == hex_value(s[2 * i])->0 * 16 + hex_value(
            s[2 * i + 1],
        )->0
}

/// Relies on hex::encode: each byte becomes two digits from "0123456789abcdef".
#[verifier::external_body]
pub(crate) fn to_hex(b: &[u8]) -> (r: String)
    ensures
        is_hex_of(r@, b@),
{
    hex::encode(b)
}

/// Relies on hex::decode: `Ok` exactly for an even count of hex digits of
/// either case, each pair giving one byte, high digit first.
#[verifier::external_body]
pub(crate) fn from_hex(s: &str) -> (r: Option<Vec<u8>>)
    ensures
        r is Some <==> is_hex_text(s@),
        r matches Some(v) ==> decodes_to(s@, v@),
{
    hex::decode(s).ok()
}

/// Hex text holds no comma and no space.
pub proof fn lemma_hex_has_no_separator_char(s: Seq<char>, b: Seq<u8>, i: int)
    requires
        is_hex_of(s, b),
        0 <= i < s.len(),
    ensures
        s[i] as u32 != 44,
        s[i] as u32 != 32,
        !(65 <= s[i] as u32 <= 90),
{
    assert(s[i] as u32 == hex_digit_code(hex_nibble(b, i)));
    assert(0 <= hex_nibble(b, i) < 16);
}

} // verus!
