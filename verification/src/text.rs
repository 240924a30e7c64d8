//! Small helpers on text and on raw bytes.

use vstd::prelude::*;
use vstd::utf8::{decode_utf8, valid_utf8};

verus! {

/// `head` followed by `tail`.
pub fn concat(head: &str, tail: &str) -> (text: String)
    ensures
        text@ == head@ + tail@,
{
    let mut text = head.to_owned();
    text.append(tail);
    text
}

/// A vector that holds the bytes of `source`.
pub fn copy_bytes(source: &[u8]) -> (bytes: Vec<u8>)
    ensures
        bytes@ == source@,
{
    let mut bytes: Vec<u8> = Vec::new();
    for i in 0..source.len()
        invariant
            bytes@ == source@.subrange(0, i as int),
    {
        bytes.push(source[i]);
    }
    bytes
}

/// Whether the two byte strings are equal.
pub fn same_bytes(left: &[u8], right: &[u8]) -> (same: bool)
    ensures
        same == (left@ == right@),
{
    if left.len() != right.len() {
        return false;
    }
    for i in 0..left.len()
        invariant
            left@.len() == right@.len(),
            forall|j: int| 0 <= j < i ==> left@[j] == right@[j],
    {
        if left[i] != right[i] {
            return false;
        }
    }
    assert(left@ == right@);
    true
}

/// What `String::from_utf8_lossy` makes of `bytes`.
pub uninterp spec fn lossy_text(bytes: Seq<u8>) -> Seq<char>;

/// Calls `String::from_utf8_lossy`.
///
/// The text is a function of the bytes. Bytes that are valid UTF-8 come out as the text
/// that they encode; what stands for an invalid sequence is left to that function.
#[verifier::external_body]
pub(crate) fn to_lossy_text(bytes: &[u8]) -> (text: String)
    ensures
        text@ == lossy_text(bytes@),
        valid_utf8(bytes@) ==> text@ == decode_utf8(bytes@),
{
    String::from_utf8_lossy(bytes).into_owned()
}

/// Whether `byte` is an ASCII decimal digit.
pub open spec fn is_digit(byte: u8) -> bool {
    0x30 <= byte <= 0x39
}

/// The number that a string of decimal digits denotes.
pub open spec fn decimal_value(digits: Seq<u8>) -> nat
    decreases digits.len(),
{
    if digits.len() == 0 {
        0
    } else {
        10 * decimal_value(digits.drop_last()) + (digits.last() - 0x30) as nat
    }
}

/// The digits of an unsigned number in `bytes`: what follows an optional leading `+`.
pub open spec fn unsigned_digits(bytes: Seq<u8>) -> Seq<u8> {
    if bytes.len() > 0 && bytes[0] == 0x2b {
        bytes.drop_first()
    } else {
        bytes
    }
}

/// The unsigned 32-bit number that `bytes` spells out in decimal, if it does.
pub open spec fn parsed_u32(bytes: Seq<u8>) -> Option<u32> {
    let digits = unsigned_digits(bytes);
    if digits.len() > 0 && (forall|i: int| 0 <= i < digits.len() ==> is_digit(#[trigger] digits[i]))
        && decimal_value(digits) <= u32::MAX {
        Some(decimal_value(digits) as u32)
    } else {
        None
    }
}

/// More digits never make a number smaller.
proof fn lemma_decimal_value_grows(digits: Seq<u8>, n: int)
    requires
        0 <= n <= digits.len(),
    ensures
        decimal_value(digits.subrange(0, n)) <= decimal_value(digits),
    decreases digits.len() - n,
{
    if n < digits.len() {
        lemma_decimal_value_grows(digits, n + 1);
        let longer = digits.subrange(0, n + 1);
        assert(longer.drop_last() == digits.subrange(0, n));
    } else {
        assert(digits.subrange(0, n) == digits);
    }
}

/// Reads an unsigned 32-bit decimal number: an optional `+`, then digits and nothing else.
pub fn parse_u32(bytes: &[u8]) -> (number: Option<u32>)
    ensures
        number == parsed_u32(bytes@),
{
    let start: usize = if bytes.len() > 0 && bytes[0] == 0x2b { 1 } else { 0 };
    let ghost digits = unsigned_digits(bytes@);
    assert(digits == bytes@.subrange(start as int, bytes@.len() as int));
    if start == bytes.len() {
        return None;
    }
    let mut value: u64 = 0;
    let mut i: usize = start;
    while i < bytes.len()
        invariant
            start <= i <= bytes@.len(),
            digits == bytes@.subrange(start as int, bytes@.len() as int),
            digits == unsigned_digits(bytes@),
            forall|j: int| 0 <= j < i - start ==> is_digit(#[trigger] digits[j]),
            value == decimal_value(digits.subrange(0, i - start)),
            value <= u32::MAX,
        decreases bytes@.len() - i,
    {
        let byte: u8 = bytes[i];
        assert(byte == digits[i - start]);
        if byte < 0x30 || byte > 0x39 {
            return None;
        }
        let ghost longer = digits.subrange(0, i - start + 1);
        assert(longer.drop_last() == digits.subrange(0, i - start));
        value = value * 10 + (byte - 0x30) as u64;
        if value > u32::MAX as u64 {
            proof {
                lemma_decimal_value_grows(digits, i - start + 1);
            }
            return None;
        }
        i = i + 1;
    }
    assert(digits.subrange(0, i - start) == digits);
    Some(value as u32)
}


/// One digit is read as its value, and one more digit behind a number multiplies it by ten and
/// adds to it, as long as there is room; where there is none, nothing is read.
pub proof fn law_digits_add_up(bytes: Seq<u8>, digit: u8)
    requires
        0x30 <= digit <= 0x39,
    ensures
        parsed_u32(seq![digit]) == Some((digit - 0x30) as u32),
        parsed_u32(seq![0x2b, digit]) == Some((digit - 0x30) as u32),
        parsed_u32(bytes) matches Some(number) ==> parsed_u32(bytes.push(digit)) == if 10 * number
            + (digit - 0x30) <= 0xffff_ffff {
            Some((10 * number + (digit - 0x30)) as u32)
        } else {
            None
        },
{
    reveal_with_fuel(decimal_value, 3);
    let one = seq![digit];
    let signed = seq![0x2bu8, digit];
    assert(unsigned_digits(one) =~= one);
    assert(unsigned_digits(signed) =~= one);
    assert(one.drop_last() =~= Seq::<u8>::empty());
    if let Some(number) = parsed_u32(bytes) {
        let longer = bytes.push(digit);
        let digits = unsigned_digits(bytes);
        let more = unsigned_digits(longer);
        assert(more =~= digits.push(digit));
        assert(more.drop_last() =~= digits);
        assert(forall|i: int| 0 <= i < more.len() ==> is_digit(#[trigger] more[i])) by {
            assert(forall|i: int| 0 <= i < digits.len() ==> more[i] == #[trigger] digits[i]);
        }
    }
}

/// Nothing is read where there is no digit, or where a byte is neither a digit nor a leading
/// plus sign.
pub proof fn law_other_bytes_are_no_number(bytes: Seq<u8>, i: int)
    ensures
        parsed_u32(Seq::empty()) is None,
        parsed_u32(seq![0x2b]) is None,
        0 <= i < bytes.len() && !(0x30 <= bytes[i] <= 0x39) && !(i == 0 && bytes[i] == 0x2b)
            ==> parsed_u32(bytes) is None,
{
    assert(unsigned_digits(seq![0x2bu8]) =~= Seq::<u8>::empty());
    if 0 <= i < bytes.len() && !(0x30 <= bytes[i] <= 0x39) && !(i == 0 && bytes[i] == 0x2b) {
        let digits = unsigned_digits(bytes);
        if bytes[0] == 0x2b {
            assert(digits[i - 1] == bytes[i]);
            assert(!is_digit(digits[i - 1]));
        } else {
            assert(!is_digit(digits[i]));
        }
    }
}

/// A number stays what it is behind a plus sign; behind a number that is too large already,
/// more digits give nothing either.
pub proof fn law_plus_sign_changes_nothing(bytes: Seq<u8>, digit: u8)
    requires
        bytes.len() > 0,
        forall|i: int| 0 <= i < bytes.len() ==> 0x30 <= #[trigger] bytes[i] <= 0x39,
        0x30 <= digit <= 0x39,
    ensures
        parsed_u32(seq![0x2b] + bytes) == parsed_u32(bytes),
        parsed_u32(bytes) is None ==> parsed_u32(bytes.push(digit)) is None,
{
    let signed = seq![0x2bu8] + bytes;
    assert(unsigned_digits(signed) =~= bytes);
    assert(unsigned_digits(bytes) =~= bytes);
    let more = bytes.push(digit);
    assert(unsigned_digits(more) =~= more);
    assert(more.drop_last() =~= bytes);
    assert(forall|i: int| 0 <= i < bytes.len() ==> is_digit(#[trigger] bytes[i]));
}

} // verus!
