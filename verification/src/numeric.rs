//! Reading a number that the user typed.

use vstd::prelude::*;
use vstd::string::StrSliceExecFns;

verus! {

broadcast use vstd::string::group_string_axioms;

/// Whether `c` is one of the ten decimal digits.
pub open spec fn is_digit(c: char) -> bool {
    '0' <= c && c <= '9'
}

/// The number that the digit `c` stands for.
pub open spec fn digit_value(c: char) -> nat {
    (c as int - '0' as int) as nat
}

/// Whether `digits` holds decimal digits only.
pub open spec fn all_digits(digits: Seq<char>) -> bool {
    forall|i: int| 0 <= i < digits.len() ==> is_digit(#[trigger] digits[i])
}

/// The number that `digits` writes in base ten, the last digit counting once.
pub open spec fn decimal_value(digits: Seq<char>) -> nat
    decreases digits.len(),
{
    if digits.len() == 0 {
        0
    } else {
        10 * decimal_value(digits.drop_last()) + digit_value(digits.last())
    }
}

/// `text` without the plus sign that it may begin with.
pub open spec fn unsigned_part(text: Seq<char>) -> Seq<char> {
    if text.len() > 0 && text[0] == '+' {
        text.skip(1)
    } else {
        text
    }
}

/// The number that `text` writes: an optional plus sign, then at least one decimal digit and
/// nothing else, with a value that fits in 32 bits. Any other text writes no number.
pub open spec fn parsed_u32(text: Seq<char>) -> Option<u32> {
    let digits = unsigned_part(text);
    if digits.len() > 0 && all_digits(digits) && decimal_value(digits) <= u32::MAX {
        Some(decimal_value(digits) as u32)
    } else {
        None
    }
}

/// A longer number is no smaller: what a sequence of digits writes is at least what any of
/// its beginnings writes.
proof fn lemma_decimal_value_grows(digits: Seq<char>, n: int)
    requires
        0 <= n <= digits.len(),
    ensures
        decimal_value(digits.take(n)) <= decimal_value(digits),
    decreases digits.len() - n,
{
    if n == digits.len() {
        assert(digits.take(n) =~= digits);
    } else {
        lemma_decimal_value_grows(digits, n + 1);
        assert(digits.take(n + 1).drop_last() =~= digits.take(n));
    }
}

/// Reads the number that `text` writes, if it writes one.
pub fn parse_u32(text: &str) -> (number: Option<u32>)
    ensures
        number == parsed_u32(text@),
{
    if !text.is_ascii() {
        proof {
            let i = choose|i: int|
                0 <= i < text@.len() && !('\0' <= #[trigger] text@[i] <= '\u{7f}');
            if text@.len() > 0 && text@[0] == '+' {
                assert(unsigned_part(text@)[i - 1] == text@[i]);
            }
        }
        return None;
    }
    let len = text.unicode_len();
    let start: usize = if len > 0 && text.get_ascii(0) == 43u8 {
        1
    } else {
        0
    };
    let ghost digits = unsigned_part(text@);
    if start == len {
        return None;
    }
    let mut value: u64 = 0;
    let mut i: usize = start;
    while i < len
        invariant
            start <= i <= len,
            len == text@.len(),
            text.is_ascii(),
            digits == text@.skip(start as int),
            digits == unsigned_part(text@),
            all_digits(digits.take(i - start)),
            value == decimal_value(digits.take(i - start)),
            value <= u32::MAX,
        decreases len - i,
    {
        let byte = text.get_ascii(i);
        assert(digits.take(i - start + 1).drop_last() =~= digits.take(i - start));
        assert(digits.take(i - start + 1).last() == text@[i as int]);
        if byte < 48u8 || byte > 57u8 {
            return None;
        }
        let next = value * 10 + (byte - 48u8) as u64;
        if next > u32::MAX as u64 {
            proof {
                lemma_decimal_value_grows(digits, i - start + 1);
            }
            return None;
        }
        value = next;
        i += 1;
        assert(all_digits(digits.take(i - start)));
    }
    assert(digits.take(len - start) =~= digits);
    Some(value as u32)
}

} // verus!
