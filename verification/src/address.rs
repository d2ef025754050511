//! Account addresses and their textual form.

use crate::hexcode::{hex_bytes, is_hex_digit};
use ethers::types::H160;
use vstd::prelude::*;

verus! {

/// The 20-byte address of an account or a contract.
#[derive(Debug, Clone, Copy, PartialEq, Eq)]
pub struct Address {
    pub bytes: [u8; 20],
}

impl View for Address {
    type V = Seq<u8>;

    open spec fn view(&self) -> Seq<u8> {
        self.bytes@
    }
}

/// A text that is no address.
#[derive(Debug, Clone, Copy, PartialEq, Eq)]
pub struct InvalidAddress;

/// A blank that may stand between the digits of an address.
pub open spec fn is_blank(c: char) -> bool {
    c == ' ' || c == '\t' || c == '\r' || c == '\n'
}

/// A text without the `0x` that it may start with.
pub open spec fn unprefixed(text: Seq<char>) -> Seq<char> {
    if text.len() >= 2 && text[0] == '0' && text[1] == 'x' {
        text.skip(2)
    } else {
        text
    }
}

/// What is left of an address without its prefix and its blanks.
pub open spec fn address_digits(text: Seq<char>) -> Seq<char> {
    unprefixed(text).filter(|c: char| !is_blank(c))
}

/// The address that a text stands for: 40 hexadecimal digits, with or without
/// a `0x` before them, blanks aside.
pub open spec fn parsed_address(text: Seq<char>) -> Option<Seq<u8>> {
    let digits = address_digits(text);
    if digits.len() == 40 && (forall|i: int| 0 <= i < 40 ==> is_hex_digit(#[trigger] digits[i])) {
        Some(hex_bytes(digits))
    } else {
        None
    }
}

/// `<H160 as FromStr>::from_str`, reached by `str::parse`. It drops a leading
/// `0x`, skips spaces, tabs and line ends, and succeeds just where exactly 40
/// hexadecimal digits are left, which it reads in pairs. The reason that it
/// gives for a refusal is dropped.
#[verifier::external_body]
fn parse_h160(text: &str) -> (r: Option<[u8; 20]>)
    ensures
        match r {
            Some(bytes) => parsed_address(text@) == Some(bytes@),
            None => parsed_address(text@) is None,
        },
{
    match text.parse::<H160>() {
        Ok(address) => Some(address.0),
        Err(_) => None,
    }
}

impl Address {
    /// Reads an address.
    pub fn parse(text: &str) -> (r: Result<Address, InvalidAddress>)
        ensures
            match r {
                Ok(address) => parsed_address(text@) == Some(address@),
                Err(_) => parsed_address(text@) is None,
            },
    {
        match parse_h160(text) {
            Some(bytes) => Ok(Address { bytes }),
            None => Err(InvalidAddress),
        }
    }

    /// Tells whether two addresses are the same.
    pub fn same(&self, other: &Address) -> (r: bool)
        ensures
            r == (self@ == other@),
    {
        let mut i: usize = 0;
        while i < 20
            invariant
                i <= 20,
                forall|j: int| 0 <= j < i ==> self.bytes@[j] == other.bytes@[j],
            decreases 20 - i,
        {
            if self.bytes[i] != other.bytes[i] {
                assert(self@[i as int] != other@[i as int]);
                return false;
            }
            i = i + 1;
        }
        assert(self@ =~= other@);
        true
    }
}

/// A text without blanks loses none.
pub proof fn lemma_no_blanks(text: Seq<char>)
    requires
        forall|i: int| 0 <= i < text.len() ==> !is_blank(#[trigger] text[i]),
    ensures
        text.filter(|c: char| !is_blank(c)) == text,
    decreases text.len(),
{
    reveal(Seq::filter);
    if text.len() > 0 {
        lemma_no_blanks(text.drop_last());
        assert(text.drop_last().push(text.last()) =~= text);
    }
}

/// Forty hexadecimal digits behind a `0x` are an address: the bytes of the
/// digits.
pub proof fn law_prefixed_digits_parse(text: Seq<char>)
    requires
        text.len() == 42,
        text[0] == '0',
        text[1] == 'x',
        forall|i: int| 2 <= i < 42 ==> is_hex_digit(#[trigger] text[i]),
    ensures
        parsed_address(text) == Some(hex_bytes(text.skip(2))),
{
    let digits = text.skip(2);
    assert forall|i: int| 0 <= i < 40 implies is_hex_digit(#[trigger] digits[i]) by {
        assert(digits[i] == text[i + 2]);
    }
    lemma_no_blanks(digits);
}

} // verus!
