//! Reading a load offset as a user writes it: hexadecimal, with or without
//! a leading `0x`.

use vstd::prelude::*;

verus! {

/// The value of a hexadecimal digit given as an ASCII byte, in either case.
pub open spec fn digit_value(byte: u8) -> Option<int> {
    if 0x30 <= byte <= 0x39 {
        Some(byte - 0x30)
    } else if 0x41 <= byte <= 0x46 {
        Some(byte - 0x41 + 10)
    } else if 0x61 <= byte <= 0x66 {
        Some(byte - 0x61 + 10)
    } else {
        None
    }
}

/// Whether `text` starts with the two bytes `0x`.
pub open spec fn has_prefix(text: Seq<u8>) -> bool {
    text.len() >= 2 && text[0] == 0x30 && text[1] == 0x78
}

/// `text` without any `0x` at its start, however often it is repeated.
pub open spec fn without_prefixes(text: Seq<u8>) -> Seq<u8>
    decreases text.len(),
{
    if has_prefix(text) {
        without_prefixes(text.skip(2))
    } else {
        text
    }
}

/// `text` without a plus sign at its start.
pub open spec fn without_sign(text: Seq<u8>) -> Seq<u8> {
    if text.len() > 0 && text[0] == 0x2B {
        text.skip(1)
    } else {
        text
    }
}

/// Whether every byte of `digits` is a hexadecimal digit.
pub open spec fn all_digits(digits: Seq<u8>) -> bool {
    forall|i: int| 0 <= i < digits.len() ==> (#[trigger] digit_value(digits[i])) is Some
}

/// The number that hexadecimal `digits` spell, most significant digit first.
pub open spec fn number(digits: Seq<u8>) -> int
    decreases digits.len(),
{
    if digits.len() == 0 {
        0
    } else {
        16 * number(digits.drop_last()) + digit_value(digits.last()).unwrap()
    }
}

/// The offset that `text` spells: after any leading `0x` and an optional
/// plus sign, one or more hexadecimal digits whose value fits in sixteen
/// bits. Any other text spells none.
pub open spec fn offset_of(text: Seq<u8>) -> Option<u16> {
    let digits = without_sign(without_prefixes(text));
    if digits.len() > 0 && all_digits(digits) && number(digits) <= 0xFFFF {
        Some(number(digits) as u16)
    } else {
        None
    }
}

/// A number does not shrink when more digits follow.
proof fn lemma_number_grows(digits: Seq<u8>, n: int)
    requires
        0 <= n <= digits.len(),
        all_digits(digits),
    ensures
        0 <= number(digits.take(n)) <= number(digits),
    decreases digits.len() - n,
{
    if n == digits.len() {
        assert(digits.take(n) =~= digits);
        lemma_number_nonnegative(digits);
    } else {
        lemma_number_grows(digits, n + 1);
        let longer = digits.take(n + 1);
        assert(longer.drop_last() =~= digits.take(n));
        assert(longer.last() == digits[n]);
        assert(digit_value(digits[n]) is Some);
        assert forall|i: int| 0 <= i < digits.take(n).len() implies (#[trigger] digit_value(
            digits.take(n)[i],
        )) is Some by {
            assert(digits.take(n)[i] == digits[i]);
        }
        lemma_number_nonnegative(digits.take(n));
    }
}

/// A number is never negative.
proof fn lemma_number_nonnegative(digits: Seq<u8>)
    requires
        all_digits(digits),
    ensures
        0 <= number(digits),
    decreases digits.len(),
{
    if digits.len() > 0 {
        assert forall|i: int| 0 <= i < digits.drop_last().len() implies (#[trigger] digit_value(
            digits.drop_last()[i],
        )) is Some by {
            assert(digits.drop_last()[i] == digits[i]);
        }
        lemma_number_nonnegative(digits.drop_last());
        assert(digit_value(digits.last()) is Some);
    }
}

/// The value of the hexadecimal digit `byte`, if it is one.
fn digit(byte: u8) -> (value: Option<u8>)
    ensures
        match value {
            Some(v) => digit_value(byte) == Some(v as int),
            None => digit_value(byte) is None,
        },
{
    if byte >= 0x30 && byte <= 0x39 {
        Some(byte - 0x30)
    } else if byte >= 0x41 && byte <= 0x46 {
        Some(byte - 0x41 + 10)
    } else if byte >= 0x61 && byte <= 0x66 {
        Some(byte - 0x61 + 10)
    } else {
        None
    }
}

/// Reads a load offset from `text`: hexadecimal digits in either case,
/// behind any leading `0x` and an optional plus sign. Returns `None` where
/// `text` holds no digits, holds anything else, or spells a number beyond
/// sixteen bits.
pub fn parse_offset(text: &[u8]) -> (offset: Option<u16>)
    ensures
        offset == offset_of(text@),
{
    let mut start: usize = 0;
    assert(text@.skip(0) =~= text@);
    while text.len() - start >= 2 && text[start] == 0x30 && text[start + 1] == 0x78
        invariant
            start <= text.len(),
            without_prefixes(text@) == without_prefixes(text@.skip(start as int)),
        decreases text.len() - start,
    {
        assert(text@.skip(start as int).skip(2) =~= text@.skip(start + 2));
        start += 2;
    }
    assert(without_prefixes(text@) == text@.skip(start as int));
    if start < text.len() && text[start] == 0x2B {
        assert(text@.skip(start as int).skip(1) =~= text@.skip(start + 1));
        start += 1;
    }
    let ghost digits = text@.skip(start as int);
    assert(digits == without_sign(without_prefixes(text@)));
    if start == text.len() {
        return None;
    }
    let mut value: u32 = 0;
    let mut i: usize = start;
    while i < text.len()
        invariant
            start <= i <= text.len(),
            digits == text@.skip(start as int),
            digits == without_sign(without_prefixes(text@)),
            all_digits(digits.take(i - start)),
            value == number(digits.take(i - start)),
            value <= 0xFFFF,
        decreases text.len() - i,
    {
        let ghost seen = digits.take(i - start);
        let ghost next = digits.take(i - start + 1);
        proof {
            assert(next.drop_last() =~= seen);
            assert(next.last() == text@[i as int]);
        }
        match digit(text[i]) {
            None => {
                assert(digit_value(digits[i - start]) is None);
                return None;
            },
            Some(d) => {
                assert forall|k: int| 0 <= k < next.len() implies (#[trigger] digit_value(
                    next[k],
                )) is Some by {
                    if k < next.len() - 1 {
                        assert(next[k] == seen[k]);
                    }
                }
                value = value * 16 + d as u32;
                assert(value == number(next));
                if value > 0xFFFF {
                    proof {
                        if all_digits(digits) {
                            lemma_number_grows(digits, i - start + 1);
                        }
                    }
                    return None;
                }
            },
        }
        i += 1;
    }
    assert(digits.take(i - start) =~= digits);
    Some(value as u16)
}

} // verus!
