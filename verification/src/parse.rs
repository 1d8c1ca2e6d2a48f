//! The grammar of configuration numbers: a string denotes a value for
//! `interval_secs` or `num_rounds` exactly when it is a nonempty run of
//! ASCII decimal digits, optionally preceded by a single `+`, whose value
//! fits in `u32`.  A `-`, or any other character, rejects the whole string.

use vstd::prelude::*;

verus! {

/// `c` is an ASCII decimal digit.
pub open spec fn is_dec_digit(c: char) -> bool {
    48 <= c as int <= 57
}

/// The numeric value of a decimal digit.
pub open spec fn digit_val(c: char) -> int {
    c as int - 48
}

/// Every character of `s` is an ASCII decimal digit.
pub open spec fn all_dec_digits(s: Seq<char>) -> bool {
    forall|i: int| 0 <= i < s.len() ==> is_dec_digit(#[trigger] s[i])
}

/// The digit part of a configuration number: everything after an optional
/// single leading `+`, which carries no meaning.
pub open spec fn digits_part(s: Seq<char>) -> Seq<char> {
    if s.len() > 0 && s[0] == '+' {
        s.subrange(1, s.len() as int)
    } else {
        s
    }
}

/// The number denoted by a run of decimal digits, most significant first.
pub open spec fn dec_value(s: Seq<char>) -> int
    decreases s.len(),
{
    if s.len() == 0 {
        0
    } else {
        dec_value(s.drop_last()) * 10 + digit_val(s.last())
    }
}

/// What parsing a configuration number returns: the value denoted by the
/// digit part when it is nonempty, all digits, and at most `u32::MAX`;
/// nothing otherwise.
pub open spec fn spec_parse_u32(s: Seq<char>) -> Option<u32> {
    let digits = digits_part(s);
    if digits.len() > 0 && all_dec_digits(digits) && dec_value(digits) <= u32::MAX {
        Some(dec_value(digits) as u32)
    } else {
        None
    }
}

/// Parse a decimal `u32`: an optional leading `+`, then at least one ASCII
/// digit, with a value at most `u32::MAX`.
pub fn parse_u32(s: &str) -> (r: Option<u32>)
    ensures
        r == spec_parse_u32(s@),
{
    let n = s.unicode_len();
    let start: usize = if n > 0 && s.get_char(0) == '+' {
        1
    } else {
        0
    };
    proof {
        assert(digits_part(s@) =~= s@.subrange(start as int, n as int));
    }
    if n == start {
        return None;
    }
    let ghost digits = s@.subrange(start as int, n as int);
    let mut acc: u64 = 0;
    let mut i: usize = start;
    while i < n
        invariant
            n == s@.len(),
            start <= i <= n,
            start < n,
            digits == s@.subrange(start as int, n as int),
            digits == digits_part(s@),
            forall|j: int| start <= j < i ==> is_dec_digit(#[trigger] s@[j]),
            dec_value(s@.subrange(start as int, i as int)) <= u32::MAX ==> acc == dec_value(
                s@.subrange(start as int, i as int),
            ),
            dec_value(s@.subrange(start as int, i as int)) > u32::MAX ==> acc > u32::MAX,
            acc <= 0xffff_ffffu64 * 10 + 9,
        decreases n - i,
    {
        let c = s.get_char(i);
        let cv = c as u32;
        if cv < 48 || cv > 57 {
            proof {
                assert(digits[i - start] == s@[i as int]);
                assert(!is_dec_digit(digits[i - start]));
            }
            return None;
        }
        let d = (cv - 48) as u64;
        proof {
            assert(s@.subrange(start as int, i as int + 1).drop_last() =~= s@.subrange(
                start as int,
                i as int,
            ));
            assert(s@.subrange(start as int, i as int + 1).last() == s@[i as int]);
        }
        if acc <= 0xffff_ffff {
            acc = acc * 10 + d;
        }
        i = i + 1;
    }
    proof {
        assert forall|j: int| 0 <= j < digits.len() implies is_dec_digit(#[trigger] digits[j]) by {
            assert(digits[j] == s@[j + start]);
        }
    }
    if acc <= 0xffff_ffff {
        Some(acc as u32)
    } else {
        None
    }
}

} // verus!
