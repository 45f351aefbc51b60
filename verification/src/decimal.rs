//! Decimal rendering and parsing of build numbers.
//!
//! Build identifiers travel as numbers in URLs and as command-line text, so
//! the library renders an `i32` into its decimal digits when it builds a
//! request URL, and reads an `i32` back out of user-supplied text.

use vstd::prelude::*;

verus! {

/// The character for one decimal digit value.
pub open spec fn spec_digit_char(d: int) -> char {
    if d == 0 {
        '0'
    } else if d == 1 {
        '1'
    } else if d == 2 {
        '2'
    } else if d == 3 {
        '3'
    } else if d == 4 {
        '4'
    } else if d == 5 {
        '5'
    } else if d == 6 {
        '6'
    } else if d == 7 {
        '7'
    } else if d == 8 {
        '8'
    } else {
        '9'
    }
}

/// Decimal digits of a non-negative number, most significant first.
pub open spec fn spec_udec(n: int) -> Seq<char>
    recommends
        n >= 0,
    decreases n,
{
    if n < 10 {
        seq![spec_digit_char(n)]
    } else {
        spec_udec(n / 10) + seq![spec_digit_char(n % 10)]
    }
}

/// Decimal rendering of a signed number: a minus sign where the number is
/// negative, then the digits of the magnitude.
pub open spec fn spec_idec(n: int) -> Seq<char> {
    if n < 0 {
        seq!['-'] + spec_udec(-n)
    } else {
        spec_udec(n)
    }
}

fn digit_str(d: u32) -> (r: &'static str)
    requires
        d < 10,
    ensures
        r@ =~= seq![spec_digit_char(d as int)],
{
    proof {
        reveal_strlit("0");
        reveal_strlit("1");
        reveal_strlit("2");
        reveal_strlit("3");
        reveal_strlit("4");
        reveal_strlit("5");
        reveal_strlit("6");
        reveal_strlit("7");
        reveal_strlit("8");
        reveal_strlit("9");
    }
    if d == 0 {
        "0"
    } else if d == 1 {
        "1"
    } else if d == 2 {
        "2"
    } else if d == 3 {
        "3"
    } else if d == 4 {
        "4"
    } else if d == 5 {
        "5"
    } else if d == 6 {
        "6"
    } else if d == 7 {
        "7"
    } else if d == 8 {
        "8"
    } else {
        "9"
    }
}

/// Renders a non-negative number as decimal digits.
pub fn u32_to_dec(n: u32) -> (r: String)
    ensures
        r@ == spec_udec(n as int),
    decreases n,
{
    if n < 10 {
        let s = String::from_str(digit_str(n));
        s
    } else {
        let mut s = u32_to_dec(n / 10);
        s.append(digit_str(n % 10));
        s
    }
}

/// Renders a signed number as decimal digits with an optional minus sign,
/// as the standard formatter would.
pub fn i32_to_dec(n: i32) -> (r: String)
    ensures
        r@ == spec_idec(n as int),
{
    if n >= 0 {
        u32_to_dec(n as u32)
    } else {
        let m: i64 = -(n as i64);
        let mut s = String::from_str("-");
        let mag = u32_to_dec(m as u32);
        s.append(mag.as_str());
        proof {
            reveal_strlit("-");
            assert(s@ =~= spec_idec(n as int));
        }
        s
    }
}

/// Whether a character is a decimal digit.
pub open spec fn spec_is_digit(c: char) -> bool {
    '0' <= c && c <= '9'
}

/// The numeric value of a digit character.
pub open spec fn spec_digit_val(c: char) -> int {
    c as int - '0' as int
}

/// The numeric value of a digit string, most significant digit first.
pub open spec fn spec_digits_val(s: Seq<char>) -> int
    decreases s.len(),
{
    if s.len() == 0 {
        0
    } else {
        spec_digits_val(s.drop_last()) * 10 + spec_digit_val(s.last())
    }
}

/// Whether every character of a string is a decimal digit.
pub open spec fn spec_all_digits(s: Seq<char>) -> bool {
    forall|k: int| 0 <= k < s.len() ==> spec_is_digit(#[trigger] s[k])
}

/// What `str::parse::<i32>` accepts: an optional sign followed by one or
/// more decimal digits, the value within the range of the type.
pub open spec fn spec_parse_i32(s: Seq<char>) -> Option<i32> {
    let has_sign = s.len() > 0 && (s[0] == '+' || s[0] == '-');
    let neg = s.len() > 0 && s[0] == '-';
    let digits = if has_sign {
        s.skip(1)
    } else {
        s
    };
    if digits.len() == 0 || !spec_all_digits(digits) {
        None
    } else {
        let v = spec_digits_val(digits);
        if neg && v <= 2147483648 {
            Some((-v) as i32)
        } else if !neg && v <= 2147483647 {
            Some(v as i32)
        } else {
            None
        }
    }
}

proof fn lemma_digits_val_nonneg(s: Seq<char>)
    requires
        spec_all_digits(s),
    ensures
        spec_digits_val(s) >= 0,
    decreases s.len(),
{
    if s.len() > 0 {
        assert(spec_all_digits(s.drop_last()));
        lemma_digits_val_nonneg(s.drop_last());
    }
}

proof fn lemma_digits_val_mono(s: Seq<char>, j: int)
    requires
        spec_all_digits(s),
        0 <= j <= s.len(),
    ensures
        spec_digits_val(s.take(j)) <= spec_digits_val(s),
    decreases s.len() - j,
{
    if j < s.len() {
        assert(spec_all_digits(s.take(j)));
        lemma_digits_val_nonneg(s.take(j));
        assert(s.take(j + 1).drop_last() =~= s.take(j));
        assert(s.take(j + 1).last() == s[j]);
        lemma_digits_val_mono(s, j + 1);
    } else {
        assert(s.take(j) =~= s);
    }
}

/// Reads a signed 32-bit number from text, exactly as `str::parse::<i32>`
/// would: an optional sign, then one or more decimal digits; anything else,
/// or a value out of range, is rejected.
pub fn parse_i32(s: &str) -> (r: Option<i32>)
    ensures
        r == spec_parse_i32(s@),
{
    let n = s.unicode_len();
    if n == 0 {
        return None;
    }
    let c0 = s.get_char(0);
    let has_sign = c0 == '+' || c0 == '-';
    let neg = c0 == '-';
    let start: usize = if has_sign {
        1
    } else {
        0
    };
    let ghost digits: Seq<char> = if has_sign {
        s@.skip(1)
    } else {
        s@
    };
    if n == start {
        return None;
    }
    let mut acc: u64 = 0;
    let mut i: usize = start;
    proof {
        assert(digits.take(0) =~= Seq::<char>::empty());
    }
    while i < n
        invariant
            start <= i <= n,
            n == s@.len(),
            start == 0 || start == 1,
            start == 1 <==> (s@.len() > 0 && (s@[0] == '+' || s@[0] == '-')),
            digits == (if start == 1 {
                s@.skip(1)
            } else {
                s@
            }),
            spec_all_digits(digits.take(i - start)),
            acc == spec_digits_val(digits.take(i - start)),
            acc <= 2147483648,
        decreases n - i,
    {
        let c = s.get_char(i);
        if c < '0' || c > '9' {
            proof {
                assert(digits[i - start] == c);
                assert(!spec_is_digit(digits[i - start]));
            }
            return None;
        }
        let d: u64 = (c as u32 - 48) as u64;
        let next: u64 = acc * 10 + d;
        proof {
            assert(digits.take(i - start + 1).drop_last() =~= digits.take(i - start));
            assert(digits.take(i - start + 1).last() == digits[i - start]);
            assert(digits[i - start] == c);
            assert(spec_all_digits(digits.take(i - start + 1)));
            assert(next == spec_digits_val(digits.take(i - start + 1)));
        }
        if next > 2147483648 {
            proof {
                if spec_all_digits(digits) {
                    lemma_digits_val_mono(digits, i - start + 1);
                    assert(spec_digits_val(digits) > 2147483648);
                }
            }
            return None;
        }
        acc = next;
        i = i + 1;
    }
    proof {
        assert(digits.take(n - start) =~= digits);
        lemma_digits_val_nonneg(digits);
    }
    if neg {
        let v: i64 = -(acc as i64);
        Some(v as i32)
    } else {
        if acc > 2147483647 {
            None
        } else {
            Some(acc as i32)
        }
    }
}

} // verus!
