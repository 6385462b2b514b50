//! Parsing decimal integers out of strings.
//!
//! `parse_str` accepts an optional leading `+` or `-` sign followed by one
//! or more decimal digits, and reports a distinct error for an empty number,
//! a stray character, and a value that falls outside the `i32` range.

use vstd::prelude::*;

verus! {

/// Why a string failed to parse as an `i32`.
#[derive(Debug, Clone, Copy, PartialEq, Eq, Structural)]
pub enum ParseError {
    /// No digits: the input was empty or held only a sign.
    Empty,
    /// A character other than a decimal digit stood among the digits.
    InvalidDigit,
    /// A well-formed number above `i32::MAX`.
    PosOverflow,
    /// A well-formed number below `i32::MIN`.
    NegOverflow,
}

/// Whether `c` is a decimal digit.
pub open spec fn is_digit_char(c: char) -> bool {
    48 <= c as u32 && c as u32 <= 57
}

/// The numeric value of the digit `c`.
pub open spec fn digit_val(c: char) -> int {
    c as u32 - 48
}

/// Whether every character of `s` is a decimal digit.
pub open spec fn all_digits(s: Seq<char>) -> bool {
    forall|i: int| 0 <= i < s.len() ==> is_digit_char(#[trigger] s[i])
}

/// The value of the digit string `s` read in base ten.
pub open spec fn digits_val(s: Seq<char>) -> int
    decreases s.len(),
{
    if s.len() == 0 {
        0
    } else {
        digits_val(s.drop_last()) * 10 + digit_val(s.last())
    }
}

/// Whether `s` starts with an explicit sign character.
pub open spec fn has_sign(s: Seq<char>) -> bool {
    s.len() > 0 && (s[0] == '-' || s[0] == '+')
}

/// The characters of `s` after any leading sign.
pub open spec fn digits_part(s: Seq<char>) -> Seq<char> {
    if has_sign(s) {
        s.drop_first()
    } else {
        s
    }
}

/// Whether `s` denotes a negative number.
pub open spec fn is_negative(s: Seq<char>) -> bool {
    s.len() > 0 && s[0] == '-'
}

/// Whether `s` is a well-formed integer literal: an optional sign followed
/// by at least one digit and nothing else.
pub open spec fn is_int_literal(s: Seq<char>) -> bool {
    digits_part(s).len() > 0 && all_digits(digits_part(s))
}

/// The mathematical value that the literal `s` denotes.
pub open spec fn int_value(s: Seq<char>) -> int {
    if is_negative(s) {
        -digits_val(digits_part(s))
    } else {
        digits_val(digits_part(s))
    }
}

/// The value of a digit string is never negative.
proof fn lemma_digits_val_nonneg(s: Seq<char>)
    requires
        all_digits(s),
    ensures
        digits_val(s) >= 0,
    decreases s.len(),
{
    if s.len() > 0 {
        assert(all_digits(s.drop_last())) by {
            assert(forall|i: int| 0 <= i < s.len() - 1 ==> s.drop_last()[i] == s[i]);
        }
        lemma_digits_val_nonneg(s.drop_last());
    }
}

/// Reading more digits never shrinks the value: a digit string is worth at
/// least as much as any of its prefixes.
proof fn lemma_digits_val_prefix(s: Seq<char>, i: int)
    requires
        all_digits(s),
        0 <= i <= s.len(),
    ensures
        digits_val(s) >= digits_val(s.take(i)),
    decreases s.len() - i,
{
    if i < s.len() {
        assert(all_digits(s.take(i))) by {
            assert(forall|j: int| 0 <= j < i ==> s.take(i)[j] == s[j]);
        }
        lemma_digits_val_nonneg(s.take(i));
        assert(s.take(i + 1).drop_last() =~= s.take(i));
        assert(s.take(i + 1).last() == s[i]);
        assert(digits_val(s.take(i + 1)) == digits_val(s.take(i)) * 10 + digit_val(s[i]));
        lemma_digits_val_prefix(s, i + 1);
    } else {
        assert(s.take(i) =~= s);
    }
}

/// Parses `input` as a decimal `i32`: an optional `+` or `-` sign followed
/// by one or more digits, rejecting anything else and any value outside the
/// `i32` range.
pub fn parse_str(input: &str) -> (r: Result<i32, ParseError>)
    ensures
        r is Ok <==> is_int_literal(input@) && i32::MIN <= int_value(input@) <= i32::MAX,
        r matches Ok(v) ==> v as int == int_value(input@),
        r == Err::<i32, ParseError>(ParseError::Empty) <==> digits_part(input@).len() == 0,
        r == Err::<i32, ParseError>(ParseError::InvalidDigit) <==> digits_part(input@).len() > 0 && !all_digits(
            digits_part(input@),
        ),
        r == Err::<i32, ParseError>(ParseError::PosOverflow) <==> is_int_literal(input@) && int_value(input@)
            > i32::MAX,
        r == Err::<i32, ParseError>(ParseError::NegOverflow) <==> is_int_literal(input@) && int_value(input@)
            < i32::MIN,
{
    let s_len = input.unicode_len();
    let mut start: usize = 0;
    let mut negative = false;
    if s_len > 0 {
        let c0 = input.get_char(0);
        if c0 == '-' {
            negative = true;
            start = 1;
        } else if c0 == '+' {
            start = 1;
        }
    }
    let ghost ds: Seq<char> = digits_part(input@);
    proof {
        assert(ds =~= input@.subrange(start as int, input@.len() as int));
        assert(negative == is_negative(input@));
    }
    if start == s_len {
        return Err(ParseError::Empty);
    }
    let mut i = start;
    while i < s_len
        invariant
            start <= i <= s_len,
            s_len == input@.len(),
            ds == digits_part(input@),
            ds == input@.subrange(start as int, input@.len() as int),
            forall|j: int| start <= j < i ==> is_digit_char(#[trigger] input@[j]),
        decreases s_len - i,
    {
        let c = input.get_char(i);
        let u = c as u32;
        if !(48 <= u && u <= 57) {
            proof {
                assert(ds[i - start] == input@[i as int]);
                assert(!all_digits(ds));
            }
            return Err(ParseError::InvalidDigit);
        }
        i = i + 1;
    }
    proof {
        assert(all_digits(ds)) by {
            assert(forall|j: int| 0 <= j < ds.len() ==> ds[j] == input@[j + start]);
        }
        assert(is_int_literal(input@));
    }
    let limit: u64 = if negative {
        2147483648
    } else {
        2147483647
    };
    let mut acc: u64 = 0;
    let mut i = start;
    while i < s_len
        invariant
            start <= i <= s_len,
            s_len == input@.len(),
            ds == digits_part(input@),
            ds == input@.subrange(start as int, input@.len() as int),
            all_digits(ds),
            is_int_literal(input@),
            negative == is_negative(input@),
            limit == if negative { 2147483648int } else { 2147483647int },
            acc == digits_val(ds.take(i - start)),
            acc <= limit,
        decreases s_len - i,
    {
        let c = input.get_char(i);
        let u = c as u32;
        proof {
            assert(ds[i - start] == input@[i as int]);
            assert(is_digit_char(ds[i - start]));
        }
        let d = (u - 48) as u64;
        acc = acc * 10 + d;
        proof {
            assert(ds.take(i - start + 1).drop_last() =~= ds.take(i - start));
            assert(ds.take(i - start + 1).last() == ds[i - start]);
            assert(acc == digits_val(ds.take(i - start + 1)));
        }
        if acc > limit {
            proof {
                lemma_digits_val_prefix(ds, i - start + 1);
                assert(digits_val(ds) > limit);
            }
            if negative {
                return Err(ParseError::NegOverflow);
            } else {
                return Err(ParseError::PosOverflow);
            }
        }
        i = i + 1;
    }
    proof {
        assert(ds.take(i - start) =~= ds);
        assert(acc == digits_val(ds));
    }
    if negative {
        if acc == 2147483648 {
            Ok(i32::MIN)
        } else {
            Ok(-(acc as i32))
        }
    } else {
        Ok(acc as i32)
    }
}

} // verus!
