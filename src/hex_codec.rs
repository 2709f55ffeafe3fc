//! Hexadecimal text of byte strings, as carried in a message's signature frame.
use vstd::prelude::*;

verus! {

/// The lowercase hexadecimal digit for a value below sixteen.
pub open spec fn hex_digit(n: u8) -> u8 {
    if n < 10 {
        (48 + n) as u8
    } else {
        (87 + n) as u8
    }
}

/// Lowercase hexadecimal text of `b`: two digits per byte, high nibble first.
pub open spec fn hex_lower(b: Seq<u8>) -> Seq<u8>
    decreases b.len(),
{
    if b.len() == 0 {
        seq![]
    } else {
        seq![hex_digit(b[0] / 16), hex_digit(b[0] % 16)] + hex_lower(b.skip(1))
    }
}

/// The value of one hexadecimal digit, of either case.
pub open spec fn hex_value(c: u8) -> Option<u8> {
    if 48 <= c <= 57 {
        Some((c - 48) as u8)
    } else if 97 <= c <= 102 {
        Some((c - 87) as u8)
    } else if 65 <= c <= 70 {
        Some((c - 55) as u8)
    } else {
        None
    }
}

/// `s` is an even number of hexadecimal digits.
pub open spec fn is_hex(s: Seq<u8>) -> bool {
    &&& s.len() % 2 == 0
    &&& forall|i: int| 0 <= i < s.len() ==> (#[trigger] hex_value(s[i])) is Some
}

/// The bytes that the hexadecimal text `s` spells, two digits per byte.
pub open spec fn hex_decoded(s: Seq<u8>) -> Seq<u8>
    decreases s.len(),
{
    if s.len() < 2 {
        seq![]
    } else {
        seq![(hex_value(s[0])->0 * 16 + hex_value(s[1])->0) as u8] + hex_decoded(s.skip(2))
    }
}

/// Relies on hex::encode: lowercase digits, two per byte, high nibble first.
#[verifier::external_body]
pub(crate) fn encode_hex(b: &Vec<u8>) -> (r: Vec<u8>)
    ensures
        r@ == hex_lower(b@),
{
    hex::encode(b).into_bytes()
}

/// Relies on hex::decode: it fails on an odd length or a non-hex character,
/// and otherwise returns the bytes that each pair of digits spells.
#[verifier::external_body]
pub(crate) fn decode_hex(s: &Vec<u8>) -> (r: Option<Vec<u8>>)
    ensures
        r is Some <==> is_hex(s@),
        r is Some ==> r->0@ == hex_decoded(s@),
{
    hex::decode(s).ok()
}

/// Lowercase hexadecimal text is made of digits and letters only.
pub proof fn lemma_hex_lower_chars(b: Seq<u8>)
    ensures
        hex_lower(b).len() == 2 * b.len(),
        forall|i: int|
            0 <= i < hex_lower(b).len() ==> {
                let c = #[trigger] hex_lower(b)[i];
                (48 <= c <= 57 || 97 <= c <= 102)
            },
    decreases b.len(),
{
    if b.len() > 0 {
        lemma_hex_lower_chars(b.skip(1));
        let d = seq![hex_digit(b[0] / 16), hex_digit(b[0] % 16)];
        assert forall|i: int| 0 <= i < hex_lower(b).len() implies {
            let c = #[trigger] hex_lower(b)[i];
            (48 <= c <= 57 || 97 <= c <= 102)
        } by {
            if i >= 2 {
                assert(hex_lower(b)[i] == hex_lower(b.skip(1))[i - 2]);
            }
        }
    }
}

/// Decoding the lowercase hexadecimal text of `b` gives `b` back.
pub proof fn lemma_hex_round_trip(b: Seq<u8>)
    ensures
        is_hex(hex_lower(b)),
        hex_decoded(hex_lower(b)) == b,
    decreases b.len(),
{
    lemma_hex_lower_chars(b);
    if b.len() > 0 {
        lemma_hex_round_trip(b.skip(1));
        let h = hex_lower(b);
        assert(h.skip(2) =~= hex_lower(b.skip(1)));
        assert(hex_value(h[0])->0 * 16 + hex_value(h[1])->0 == b[0]);
        assert(hex_decoded(h) =~= b);
    } else {
        assert(hex_decoded(hex_lower(b)) =~= b);
    }
    assert forall|i: int| 0 <= i < hex_lower(b).len() implies (#[trigger] hex_value(
        hex_lower(b)[i],
    )) is Some by {}
}

} // verus!
