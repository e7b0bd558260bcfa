//! Reading the numeric fields: unsigned 32-bit numbers in decimal.

use vstd::prelude::*;
use vstd::string::StringExecFns;
use vstd::string::StringSliceAdditionalSpecFns;
use crate::error::LogError;
use crate::error::LogErrorView;

verus! {

/// Whether `b` is one of the ASCII digits `0` to `9`.
pub open spec fn is_digit(b: u8) -> bool {
    0x30 <= b <= 0x39
}

/// Whether `s` holds ASCII digits and nothing else.
pub open spec fn all_digits(s: Seq<u8>) -> bool {
    forall|i: int| 0 <= i < s.len() ==> is_digit(#[trigger] s[i])
}

/// The number that the decimal digits `s` write, most significant first.
pub open spec fn digits_value(s: Seq<u8>) -> nat
    decreases s.len(),
{
    if s.len() == 0 {
        0
    } else {
        digits_value(s.drop_last()) * 10 + (s.last() - 0x30) as nat
    }
}

/// The text without the one plus sign that may stand before the digits. A
/// plus sign alone is left as it is, and so is no number.
pub open spec fn unsigned_part(text: Seq<u8>) -> Seq<u8> {
    if text.len() > 1 && text[0] == 0x2b {
        text.subrange(1, text.len() as int)
    } else {
        text
    }
}

/// The unsigned 32-bit number that the bytes `text` write in decimal: an
/// optional plus sign, then one digit or more, with a value that fits.
/// `None` for any other text.
pub open spec fn decimal_u32(text: Seq<u8>) -> Option<u32> {
    let digits = unsigned_part(text);
    if digits.len() > 0 && all_digits(digits) && digits_value(digits) <= u32::MAX {
        Some(digits_value(digits) as u32)
    } else {
        None
    }
}

/// What validating the text `text` gives: its number, or the numeric error
/// that carries the text.
pub open spec fn validated_u32(text: Seq<char>) -> Result<u32, LogErrorView> {
    match decimal_u32(vstd::utf8::encode_utf8(text)) {
        Some(n) => Ok(n),
        None => Err(LogErrorView::NumericError(text)),
    }
}

/// A number is never smaller than the number that a prefix of its digits
/// writes.
proof fn lemma_prefix_value(s: Seq<u8>, k: int)
    requires
        0 <= k <= s.len(),
        all_digits(s),
    ensures
        digits_value(s.take(k)) <= digits_value(s),
    decreases s.len() - k,
{
    if k == s.len() {
        assert(s.take(k) == s);
    } else {
        lemma_prefix_value(s, k + 1);
        assert(s.take(k + 1).drop_last() == s.take(k));
        assert(is_digit(s.take(k + 1).last()));
    }
}

/// Reads `text` as an unsigned 32-bit number in decimal.
pub fn parse_u32(text: &str) -> (r: Result<u32, LogError>)
    ensures
        match r {
            Ok(n) => validated_u32(text@) == Ok::<u32, LogErrorView>(n),
            Err(e) => validated_u32(text@) == Err::<u32, LogErrorView>(e@),
        },
{
    let bytes = text.as_bytes();
    let n: usize = bytes.len();
    let start: usize = if n > 1 && bytes[0] == 0x2b { 1 } else { 0 };
    let ghost digits = unsigned_part(bytes@);
    if start == n {
        return Err(LogError::NumericError(String::from_str(text)));
    }
    let mut value: u32 = 0;
    let mut i: usize = start;
    while i < n
        invariant
            start <= i <= n,
            n == bytes@.len(),
            bytes@ == vstd::utf8::encode_utf8(text@),
            digits == unsigned_part(bytes@),
            digits == bytes@.subrange(start as int, n as int),
            all_digits(digits.take(i - start)),
            value == digits_value(digits.take(i - start)),
        decreases n - i,
    {
        let b: u8 = bytes[i];
        let ghost seen = digits.take(i - start);
        let ghost next = digits.take(i + 1 - start);
        proof {
            assert(next.drop_last() == seen);
            assert(next.last() == b);
        }
        if b < 0x30 || b > 0x39 {
            proof {
                assert(!is_digit(digits[i - start]));
            }
            return Err(LogError::NumericError(String::from_str(text)));
        }
        let d: u32 = (b - 0x30) as u32;
        if value > (u32::MAX - d) / 10 {
            proof {
                assert(digits_value(next) > u32::MAX);
                if all_digits(digits) {
                    lemma_prefix_value(digits, i + 1 - start);
                }
            }
            return Err(LogError::NumericError(String::from_str(text)));
        }
        value = value * 10 + d;
        i = i + 1;
    }
    proof {
        assert(digits.take(n - start) == digits);
    }
    Ok(value)
}

} // verus!
