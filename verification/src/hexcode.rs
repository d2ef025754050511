//! Hexadecimal text: function selectors and addresses.

use vstd::prelude::*;

verus! {

/// A hexadecimal digit of either case.
pub open spec fn is_hex_digit(c: char) -> bool {
    ('0' <= c && c <= '9') || ('a' <= c && c <= 'f') || ('A' <= c && c <= 'F')
}

/// The value of a hexadecimal digit.
pub open spec fn hex_value(c: char) -> int {
    if '0' <= c && c <= '9' {
        c as int - '0' as int
    } else if 'a' <= c && c <= 'f' {
        c as int - 'a' as int + 10
    } else {
        c as int - 'A' as int + 10
    }
}

/// The bytes that pairs of hexadecimal digits stand for.
pub open spec fn hex_bytes(digits: Seq<char>) -> Seq<u8> {
    Seq::new(
        digits.len() / 2,
        |i: int| (16 * hex_value(digits[2 * i]) + hex_value(digits[2 * i + 1])) as u8,
    )
}

/// Bytes as the characters of the same number.
pub open spec fn byte_chars(text: Seq<u8>) -> Seq<char> {
    Seq::new(text.len(), |i: int| text[i] as char)
}

/// Why a text is not the hexadecimal form of any bytes.
#[derive(Debug, Clone, Copy, PartialEq, Eq)]
pub enum HexError {
    /// The first character that is no hexadecimal digit, and where it stands.
    InvalidHexCharacter { c: char, index: usize },
    /// The digits do not pair up.
    OddLength,
    /// The text is too long or too short for where its bytes go.
    InvalidStringLength,
}

/// `hex::decode` of a text in bytes. An odd length is refused first, then the
/// first byte that is no hexadecimal digit; else each pair of digits is a byte.
#[verifier::external_body]
fn decode(text: &[u8]) -> (r: Result<Vec<u8>, HexError>)
    ensures
        match r {
            Ok(bytes) => {
                &&& text@.len() % 2 == 0
                &&& forall|i: int| 0 <= i < text@.len() ==> is_hex_digit(#[trigger] byte_chars(text@)[i])
                &&& bytes@ == hex_bytes(byte_chars(text@))
            },
            Err(HexError::OddLength) => text@.len() % 2 == 1,
            Err(HexError::InvalidHexCharacter { c, index }) => {
                &&& text@.len() % 2 == 0
                &&& index < text@.len()
                &&& c == byte_chars(text@)[index as int]
                &&& !is_hex_digit(c)
                &&& forall|i: int| 0 <= i < index ==> is_hex_digit(#[trigger] byte_chars(text@)[i])
            },
            Err(HexError::InvalidStringLength) => false,
        },
{
    match hex::decode(text) {
        Ok(bytes) => Ok(bytes),
        Err(hex::FromHexError::InvalidHexCharacter { c, index }) => {
            Err(HexError::InvalidHexCharacter { c, index })
        }
        Err(hex::FromHexError::OddLength) => Err(HexError::OddLength),
        Err(hex::FromHexError::InvalidStringLength) => Err(HexError::InvalidStringLength),
    }
}

/// The selector of `slot0()` of a Uniswap V3 pool.
pub const SLOT0_CALL: &'static str = "0x3850c7bd";

/// The selector of `getReserves()` of a Uniswap V2 pair.
pub const GET_RESERVES_CALL: &'static str = "0x0902f1ac";

/// The data of a call without arguments: the bytes of the selector's digits
/// after the `0x`.
pub fn call_data(selector: &str) -> (r: Result<Vec<u8>, HexError>)
    requires
        selector.is_ascii(),
        selector@.len() >= 2,
    ensures
        ({
            let digits = selector@.skip(2);
            match r {
                Ok(bytes) => {
                    &&& digits.len() % 2 == 0
                    &&& forall|i: int| 0 <= i < digits.len() ==> is_hex_digit(#[trigger] digits[i])
                    &&& bytes@ == hex_bytes(digits)
                },
                Err(HexError::OddLength) => digits.len() % 2 == 1,
                Err(HexError::InvalidHexCharacter { c, index }) => {
                    &&& digits.len() % 2 == 0
                    &&& index < digits.len()
                    &&& c == digits[index as int]
                    &&& !is_hex_digit(c)
                    &&& forall|i: int| 0 <= i < index ==> is_hex_digit(#[trigger] digits[i])
                },
                Err(HexError::InvalidStringLength) => false,
            }
        }),
{
    let text = selector.as_bytes();
    let digits = vstd::slice::slice_subrange(text, 2, text.len());
    assert(byte_chars(digits@) =~= selector@.skip(2));
    decode(digits)
}

} // verus!
