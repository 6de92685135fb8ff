//! Identifier validation.
//!
//! Payload references (the triggering attempt, the scope) are UUID
//! strings; a payload holding anything else is rejected before any
//! configuration is read. Validation is the `uuid` crate's: its parser
//! accepts exactly the simple, hyphenated, braced and URN shapes, stated
//! below over the input's bytes.

use vstd::prelude::*;
use vstd::string::StringSliceAdditionalSpecFns;

verus! {

/// An ASCII hexadecimal digit, either case.
pub open spec fn spec_hex_digit(b: u8) -> bool {
    (48 <= b && b <= 57)  // '0'..='9'
    || (97 <= b && b <= 102)  // 'a'..='f'
    || (65 <= b && b <= 70)  // 'A'..='F'
}

/// 32 hexadecimal digits and nothing else.
pub open spec fn spec_uuid_simple(b: Seq<u8>) -> bool {
    b.len() == 32 && forall|i: int| 0 <= i < 32 ==> spec_hex_digit(#[trigger] b[i])
}

/// Five hexadecimal groups split by hyphens at positions 8, 13, 18, 23.
pub open spec fn spec_uuid_hyphenated(b: Seq<u8>) -> bool {
    &&& b.len() == 36
    &&& b[8] == 45 && b[13] == 45 && b[18] == 45 && b[23] == 45
    &&& forall|i: int|
        (0 <= i < 36 && i != 8 && i != 13 && i != 18 && i != 23) ==> spec_hex_digit(
            #[trigger] b[i],
        )
}

/// A hyphenated UUID wrapped in braces.
pub open spec fn spec_uuid_braced(b: Seq<u8>) -> bool {
    b.len() == 38 && b[0] == 123 && b[37] == 125 && spec_uuid_hyphenated(b.subrange(1, 37))
}

/// The byte at a position of the prefix `urn:uuid:`, lowercased.
pub open spec fn spec_lower_byte(b: u8) -> u8 {
    if 65 <= b && b <= 90 {
        (b + 32) as u8
    } else {
        b
    }
}

/// A hyphenated UUID behind the prefix `urn:uuid:`, the prefix compared
/// without regard to ASCII case.
pub open spec fn spec_uuid_urn(b: Seq<u8>) -> bool {
    &&& b.len() == 45
    &&& spec_lower_byte(b[0]) == 117  // 'u'
    &&& spec_lower_byte(b[1]) == 114  // 'r'
    &&& spec_lower_byte(b[2]) == 110  // 'n'
    &&& b[3] == 58  // ':'
    &&& spec_lower_byte(b[4]) == 117  // 'u'
    &&& spec_lower_byte(b[5]) == 117  // 'u'
    &&& spec_lower_byte(b[6]) == 105  // 'i'
    &&& spec_lower_byte(b[7]) == 100  // 'd'
    &&& b[8] == 58  // ':'
    &&& spec_uuid_hyphenated(b.skip(9))
}

/// The shapes the `uuid` crate's parser accepts.
pub open spec fn spec_uuid_valid(b: Seq<u8>) -> bool {
    spec_uuid_simple(b) || spec_uuid_hyphenated(b) || spec_uuid_braced(b) || spec_uuid_urn(b)
}

/// Relies on `uuid::Uuid::parse_str`: it succeeds exactly on the simple
/// (32 hex digits), hyphenated (8-4-4-4-12), braced and `urn:uuid:` forms,
/// judged over the input's bytes with hex digits of either case.
#[verifier::external_body]
fn parse_str_is_ok(s: &str) -> (r: bool)
    ensures
        r == spec_uuid_valid(s.spec_bytes()),
{
    uuid::Uuid::parse_str(s).is_ok()
}

/// The same judgement over a character sequence: validity of its UTF-8
/// encoding.
pub open spec fn spec_uuid_valid_chars(s: Seq<char>) -> bool {
    spec_uuid_valid(vstd::utf8::encode_utf8(s))
}

/// Whether the string is a UUID in one of the accepted shapes.
pub fn is_valid_uuid(s: &str) -> (r: bool)
    ensures
        r == spec_uuid_valid(s.spec_bytes()),
        r == spec_uuid_valid_chars(s@),
{
    parse_str_is_ok(s)
}

} // verus!
