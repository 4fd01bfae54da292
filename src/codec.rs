use vstd::prelude::*;
use vstd::string::*;

use crate::error::Error;

verus! {

/// The lowercase hex digit for a nibble.
pub open spec fn hex_char(n: int) -> char {
    if n < 10 {
        (('0' as int) + n) as char
    } else {
        (('a' as int) + n - 10) as char
    }
}

/// Two lowercase digits per byte, high nibble first.
pub open spec fn hex_of(b: Seq<u8>) -> Seq<char> {
    Seq::new(
        2 * b.len(),
        |k: int|
            if k % 2 == 0 {
                hex_char(b[k / 2] as int / 16)
            } else {
                hex_char(b[k / 2] as int % 16)
            },
    )
}

/// A hex digit in either case, as the decoder takes it.
pub open spec fn is_hex_digit(c: char) -> bool {
    ('0' <= c && c <= '9') || ('a' <= c && c <= 'f') || ('A' <= c && c <= 'F')
}

/// The value of a hex digit.
pub open spec fn digit_value(c: char) -> int {
    if '0' <= c && c <= '9' {
        c as int - '0' as int
    } else if 'a' <= c && c <= 'f' {
        c as int - 'a' as int + 10
    } else {
        c as int - 'A' as int + 10
    }
}

/// An even number of hex digits.
pub open spec fn is_hex_body(s: Seq<char>) -> bool {
    s.len() % 2 == 0 && forall|i: int| 0 <= i < s.len() ==> is_hex_digit(#[trigger] s[i])
}

/// `s` spells the bytes `b`, two digits per byte.
pub open spec fn body_decodes_to(s: Seq<char>, b: Seq<u8>) -> bool {
    &&& s.len() == 2 * b.len()
    &&& forall|i: int|
        0 <= i < b.len() ==> #[trigger] b[i] as int == 16 * digit_value(s[2 * i]) + digit_value(
            s[2 * i + 1],
        )
}

/// The wire prefix.
pub open spec fn prefix() -> Seq<char> {
    seq!['0', 'x']
}

pub open spec fn has_prefix(s: Seq<char>) -> bool {
    s.len() >= 2 && s[0] == '0' && s[1] == 'x'
}

/// A well-formed wire string: `0x` followed by an even number of hex digits.
pub open spec fn is_wire_hex(s: Seq<char>) -> bool {
    has_prefix(s) && is_hex_body(s.skip(2))
}

/// The wire string `s` carries the bytes `b`.
pub open spec fn wire_decodes_to(s: Seq<char>, b: Seq<u8>) -> bool {
    is_wire_hex(s) && body_decodes_to(s.skip(2), b)
}

/// The wire form of `b`.
pub open spec fn wire_of(b: Seq<u8>) -> Seq<char> {
    prefix() + hex_of(b)
}

/// Relies on hex::encode: two lowercase digits per byte, high nibble first.
#[verifier::external_body]
fn hex_encode(b: &[u8]) -> (r: String)
    ensures
        r@ == hex_of(b@),
{
    hex::encode(b)
}

#[verifier::external_type_specification]
#[verifier::external_body]
pub struct ExFromHexError(hex::FromHexError);

/// Relies on hex::decode: it accepts exactly an even number of hex digits of
/// either case and gives one byte per pair, high nibble first. A character
/// outside ASCII is never a digit, and its bytes fail the digit test.
#[verifier::external_body]
fn hex_decode(s: &str) -> (r: Result<Vec<u8>, hex::FromHexError>)
    ensures
        r is Ok <==> is_hex_body(s@),
        r matches Ok(v) ==> body_decodes_to(s@, v@),
{
    hex::decode(s)
}

/// Encodes bytes as `0x` followed by two lowercase hex digits per byte.
pub fn encode(bytes: &[u8]) -> (r: String)
    ensures
        r@ == wire_of(bytes@),
{
    let mut r = String::from_str("0x");
    let digits = hex_encode(bytes);
    proof {
        reveal_strlit("0x");
    }
    r.append(digits.as_str());
    proof {
        assert(r@ =~= wire_of(bytes@));
    }
    r
}

/// Decodes a `0x`-prefixed hex string; anything else is an `Encoding` error.
pub fn decode(s: &str) -> (r: Result<Vec<u8>, Error>)
    ensures
        r is Ok <==> is_wire_hex(s@),
        r matches Ok(v) ==> wire_decodes_to(s@, v@),
        r matches Err(e) ==> e is Encoding,
        !has_prefix(s@) || s@.len() % 2 == 1 || (exists|i: int|
            2 <= i < s@.len() && !is_hex_digit(#[trigger] s@[i])) ==> r is Err,
{
    let n = s.unicode_len();
    if n < 2 || s.get_char(0) != '0' || s.get_char(1) != 'x' {
        return Err(Error::Encoding("expected a 0x-prefixed hex encoded string"));
    }
    let body = s.substring_char(2, n);
    proof {
        assert(body@ =~= s@.skip(2));
    }
    match hex_decode(body) {
        Ok(v) => {
            proof {
                assert forall|i: int| 2 <= i < s@.len() implies is_hex_digit(s@[i]) by {
                    assert(body@[i - 2] == s@[i]);
                }
            }
            Ok(v)
        },
        Err(_) => Err(Error::Encoding("invalid hex string")),
    }
}

proof fn lemma_digit_of_nibble(n: int)
    requires
        0 <= n < 16,
    ensures
        is_hex_digit(hex_char(n)),
        digit_value(hex_char(n)) == n,
{
}

/// The digits of `b` are hex digits that spell exactly `b`.
proof fn lemma_hex_of_decodes(b: Seq<u8>)
    ensures
        is_hex_body(hex_of(b)),
        body_decodes_to(hex_of(b), b),
{
    let h = hex_of(b);
    assert forall|i: int| 0 <= i < h.len() implies is_hex_digit(#[trigger] h[i]) by {
        lemma_digit_of_nibble(b[i / 2] as int / 16);
        lemma_digit_of_nibble(b[i / 2] as int % 16);
    }
    assert forall|i: int| 0 <= i < b.len() implies #[trigger] b[i] as int == 16 * digit_value(
        h[2 * i],
    ) + digit_value(h[2 * i + 1]) by {
        assert((2 * i) / 2 == i);
        assert((2 * i + 1) / 2 == i);
        assert((2 * i) % 2 == 0);
        assert((2 * i + 1) % 2 == 1);
        lemma_digit_of_nibble(b[i] as int / 16);
        lemma_digit_of_nibble(b[i] as int % 16);
    }
}

/// A hex body spells at most one byte sequence.
proof fn lemma_body_decodes_unique(s: Seq<char>, a: Seq<u8>, b: Seq<u8>)
    requires
        body_decodes_to(s, a),
        body_decodes_to(s, b),
    ensures
        a == b,
{
    assert forall|i: int| 0 <= i < a.len() implies a[i] == b[i] by {
        assert(a[i] as int == b[i] as int);
    }
    assert(a =~= b);
}

/// Decoding a wire string, encoding the bytes and decoding again gives the
/// same bytes: the encoding of what a wire string carries is itself a wire
/// string, and it carries those bytes and no others.
pub proof fn lemma_decode_encode_decode(s: Seq<char>, b: Seq<u8>)
    requires
        wire_decodes_to(s, b),
    ensures
        is_wire_hex(wire_of(b)),
        wire_decodes_to(wire_of(b), b),
        forall|c: Seq<u8>| #[trigger] wire_decodes_to(wire_of(b), c) ==> c == b,
{
    lemma_encode_is_wire(b);
    assert forall|c: Seq<u8>| #[trigger] wire_decodes_to(wire_of(b), c) implies c == b by {
        lemma_body_decodes_unique(wire_of(b).skip(2), b, c);
    }
}

/// The encoding of any bytes is a well-formed wire string that decodes to them.
pub proof fn lemma_encode_is_wire(b: Seq<u8>)
    ensures
        is_wire_hex(wire_of(b)),
        wire_decodes_to(wire_of(b), b),
{
    lemma_hex_of_decodes(b);
    assert(wire_of(b).skip(2) =~= hex_of(b));
}

} // verus!
