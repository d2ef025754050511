//! What the reading of selectors and addresses is for, in terms of what goes in
//! and what comes out.

use crate::address::{
    address_digits, is_blank, lemma_no_blanks, unprefixed, Address, InvalidAddress,
};
use crate::hexcode::{call_data, hex_bytes, hex_value, is_hex_digit, HexError};
use vstd::prelude::*;

verus! {

/// A character is a way to write a digit below sixteen: `0` to `9`, then `a` to
/// `f` or `A` to `F`.
pub open spec fn writes_digit(c: char, digit: int) -> bool {
    ||| 0 <= digit < 10 && c as int == 48 + digit
    ||| 10 <= digit < 16 && c as int == 97 + digit - 10
    ||| 10 <= digit < 16 && c as int == 65 + digit - 10
}

/// A text is a way to write bytes, each as its high and its low digit.
pub open spec fn writes_bytes(text: Seq<char>, bytes: Seq<u8>) -> bool {
    &&& text.len() == 2 * bytes.len()
    &&& forall|i: int|
        0 <= i < bytes.len() ==> {
            &&& writes_digit(text[2 * i], #[trigger] bytes[i] as int / 16)
            &&& writes_digit(text[2 * i + 1], bytes[i] as int % 16)
        }
}

/// Hexadecimal digits are the characters that write one.
proof fn lemma_digits(c: char)
    ensures
        is_hex_digit(c) <==> exists|digit: int| writes_digit(c, digit),
        forall|digit: int| #[trigger] writes_digit(c, digit) ==> hex_value(c) == digit,
        is_hex_digit(c) ==> writes_digit(c, hex_value(c)),
{
    if is_hex_digit(c) {
        assert(writes_digit(c, hex_value(c)));
    }
}

/// A text that writes bytes is made of digits, which stand for those bytes.
proof fn lemma_writes(text: Seq<char>, bytes: Seq<u8>)
    requires
        writes_bytes(text, bytes),
    ensures
        hex_bytes(text) == bytes,
        forall|i: int| 0 <= i < text.len() ==> is_hex_digit(#[trigger] text[i]),
{
    assert forall|i: int| 0 <= i < bytes.len() implies hex_bytes(text)[i] == bytes[i] by {
        lemma_digits(text[2 * i]);
        lemma_digits(text[2 * i + 1]);
        assert(writes_digit(text[2 * i], bytes[i] as int / 16));
        assert(writes_digit(text[2 * i + 1], bytes[i] as int % 16));
    }
    assert(hex_bytes(text) =~= bytes);
    assert forall|i: int| 0 <= i < text.len() implies is_hex_digit(#[trigger] text[i]) by {
        let b = bytes[i / 2];
        lemma_digits(text[i]);
        assert(writes_digit(text[2 * (i / 2)], b as int / 16));
        assert(writes_digit(text[2 * (i / 2) + 1], b as int % 16));
    }
}

/// The data of a call are the bytes that are written after the first two
/// characters of the selector.
pub proof fn law_call_data_reads_back(
    selector: &str,
    bytes: Seq<u8>,
    r: Result<Vec<u8>, HexError>,
)
    requires
        selector.is_ascii(),
        selector@.len() >= 2,
        writes_bytes(selector@.skip(2), bytes),
        call_ensures(call_data, (selector,), r),
    ensures
        call_requires(call_data, (selector,)),
        r is Ok,
        r->Ok_0@ == bytes,
{
    lemma_writes(selector@.skip(2), bytes);
}

/// A selector of odd length is refused for it.
pub proof fn law_odd_call_data_refused(selector: &str, r: Result<Vec<u8>, HexError>)
    requires
        selector.is_ascii(),
        selector@.len() >= 2,
        selector@.len() % 2 == 1,
        call_ensures(call_data, (selector,), r),
    ensures
        call_requires(call_data, (selector,)),
        r is Err,
        r->Err_0 is OddLength,
{
}

/// A selector of even length is refused for the first character after the first
/// two that writes no digit, counted from there.
pub proof fn law_bad_digit_refused(selector: &str, at: int, r: Result<Vec<u8>, HexError>)
    requires
        selector.is_ascii(),
        selector@.len() % 2 == 0,
        2 <= at < selector@.len(),
        forall|digit: int| !writes_digit(selector@[at], digit),
        forall|i: int|
            2 <= i < at ==> exists|digit: int| writes_digit(#[trigger] selector@[i], digit),
        call_ensures(call_data, (selector,), r),
    ensures
        call_requires(call_data, (selector,)),
        r is Err,
        r->Err_0 is InvalidHexCharacter,
        r->Err_0->c == selector@[at],
        r->Err_0->index == at - 2,
{
    let digits = selector@.skip(2);
    lemma_digits(selector@[at]);
    assert(digits[at - 2] == selector@[at]);
    assert forall|i: int| 0 <= i < at - 2 implies is_hex_digit(#[trigger] digits[i]) by {
        lemma_digits(selector@[i + 2]);
        assert(digits[i] == selector@[i + 2]);
    }
}

/// An address is read from the forty digits that write its bytes, with a `0x`
/// before them or without.
pub proof fn law_address_reads_back(
    text: &str,
    bytes: Seq<u8>,
    r: Result<Address, InvalidAddress>,
)
    requires
        bytes.len() == 20,
        writes_bytes(text@, bytes) || (text@.len() == 42 && text@[0] == '0' && text@[1] == 'x'
            && writes_bytes(text@.skip(2), bytes)),
        call_ensures(Address::parse, (text,), r),
    ensures
        call_requires(Address::parse, (text,)),
        r is Ok,
        r->Ok_0.bytes@ == bytes,
{
    let digits = if text@.len() == 42 {
        text@.skip(2)
    } else {
        text@
    };
    lemma_writes(digits, bytes);
    if text@.len() == 40 {
        assert(is_hex_digit(text@[1]));
    }
    assert(unprefixed(text@) == digits);
    lemma_no_blanks(digits);
    assert(address_digits(text@) == digits);
}

/// A text that is read as an address writes its bytes: without the `0x` that it
/// may start with and without its blanks, it is their forty digits.
pub proof fn law_only_addresses_are_read(text: &str, r: Result<Address, InvalidAddress>)
    requires
        call_ensures(Address::parse, (text,), r),
        r is Ok,
    ensures
        ({
            let rest = if text@.len() >= 2 && text@[0] == '0' && text@[1] == 'x' {
                text@.skip(2)
            } else {
                text@
            };
            writes_bytes(
                rest.filter(|c: char| !(c == ' ' || c == '\t' || c == '\r' || c == '\n')),
                r->Ok_0.bytes@,
            )
        }),
{
    let rest = unprefixed(text@);
    let f = |c: char| !is_blank(c);
    let g = |c: char| !(c == ' ' || c == '\t' || c == '\r' || c == '\n');
    assert(f =~= g);
    let digits = address_digits(text@);
    let bytes = r->Ok_0.bytes@;
    assert(bytes == hex_bytes(digits));
    assert forall|i: int| 0 <= i < bytes.len() implies {
        &&& writes_digit(digits[2 * i], #[trigger] bytes[i] as int / 16)
        &&& writes_digit(digits[2 * i + 1], bytes[i] as int % 16)
    } by {
        lemma_digits(digits[2 * i]);
        lemma_digits(digits[2 * i + 1]);
        assert(is_hex_digit(digits[2 * i]) && is_hex_digit(digits[2 * i + 1]));
    }
}

/// A blank behind the first two characters of a text makes no difference.
pub proof fn law_blanks_are_skipped(
    text: &str,
    spaced: &str,
    at: int,
    blank: char,
    r: Result<Address, InvalidAddress>,
    r_spaced: Result<Address, InvalidAddress>,
)
    requires
        2 <= at <= text@.len(),
        blank == ' ' || blank == '\t' || blank == '\r' || blank == '\n',
        spaced@ == text@.take(at) + seq![blank] + text@.skip(at),
        call_ensures(Address::parse, (text,), r),
        call_ensures(Address::parse, (spaced,), r_spaced),
    ensures
        r is Ok <==> r_spaced is Ok,
        r is Ok ==> r->Ok_0.bytes@ == r_spaced->Ok_0.bytes@,
{
    let f = |c: char| !is_blank(c);
    let start = if text@[0] == '0' && text@[1] == 'x' {
        2int
    } else {
        0int
    };
    let front = text@.subrange(start, at);
    let back = text@.skip(at);
    assert(spaced@[0] == text@[0] && spaced@[1] == text@[1]);
    assert(unprefixed(text@) =~= front + back);
    assert(unprefixed(spaced@) =~= (front + seq![blank]) + back);
    Seq::filter_distributes_over_add(front, back, f);
    Seq::filter_distributes_over_add(front + seq![blank], back, f);
    Seq::filter_distributes_over_add(front, seq![blank], f);
    reveal_with_fuel(Seq::filter, 2);
    assert(seq![blank].drop_last() =~= Seq::empty());
    assert(seq![blank].filter(f) =~= Seq::empty());
    assert(front.filter(f) + Seq::empty() =~= front.filter(f));
}

/// Two addresses are the same where all their twenty bytes are.
pub proof fn law_same_address(a: &Address, b: &Address, r: bool)
    requires
        call_ensures(Address::same, (a, b), r),
    ensures
        r <==> forall|i: int| 0 <= i < 20 ==> #[trigger] a.bytes@[i] == b.bytes@[i],
        call_requires(Address::same, (a, b)),
{
    if forall|i: int| 0 <= i < 20 ==> #[trigger] a.bytes@[i] == b.bytes@[i] {
        assert(a.bytes@ =~= b.bytes@);
    }
}

} // verus!
