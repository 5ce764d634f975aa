//! Character and string helpers: whitespace trimming, base-10 parsing of
//! `i32` values, and base-10 formatting of `i32` values.

use vstd::prelude::*;

verus! {

/// Whether a character counts as whitespace, as the standard library defines it.
pub uninterp spec fn is_space(c: char) -> bool;

/// Relies on char::is_whitespace: true exactly on Unicode whitespace.
/// A plain space is whitespace; ASCII digits, signs, dots, slashes and
/// letters are not.
#[verifier::external_body]
fn char_is_space(c: char) -> (r: bool)
    ensures
        r == is_space(c),
        c == ' ' ==> r,
        48 <= c as u32 <= 57 ==> !r,
        c == '-' || c == '+' || c == '.' || c == '/' ==> !r,
        97 <= c as u32 <= 122 || 65 <= c as u32 <= 90 ==> !r,
{
    c.is_whitespace()
}

/// `s` with trailing whitespace removed.
pub open spec fn trim_end_of(s: Seq<char>) -> Seq<char>
    decreases s.len(),
{
    if s.len() > 0 && is_space(s.last()) {
        trim_end_of(s.drop_last())
    } else {
        s
    }
}

/// `s` with leading whitespace removed.
pub open spec fn trim_start_of(s: Seq<char>) -> Seq<char>
    decreases s.len(),
{
    if s.len() > 0 && is_space(s.first()) {
        trim_start_of(s.drop_first())
    } else {
        s
    }
}

/// `s` with leading and trailing whitespace removed.
pub open spec fn trim_of(s: Seq<char>) -> Seq<char> {
    trim_start_of(trim_end_of(s))
}

/// Removes leading and trailing whitespace from `s`.
pub fn trim(s: &str) -> (r: &str)
    ensures
        r@ == trim_of(s@),
{
    let len = s.unicode_len();
    let mut hi: usize = len;
    proof {
        assert(s@.take(len as int) =~= s@);
    }
    while hi > 0 && char_is_space(s.get_char(hi - 1))
        invariant
            hi <= len,
            len == s@.len(),
            trim_end_of(s@) == trim_end_of(s@.take(hi as int)),
        decreases hi,
    {
        proof {
            assert(s@.take(hi as int).last() == s@[hi - 1]);
            assert(s@.take(hi as int).drop_last() =~= s@.take(hi - 1));
        }
        hi = hi - 1;
    }
    proof {
        if hi == 0 {
            assert(s@.take(0) =~= Seq::<char>::empty());
        } else {
            assert(s@.take(hi as int).last() == s@[hi - 1]);
        }
        assert(trim_end_of(s@) == s@.take(hi as int));
    }
    let mut lo: usize = 0;
    while lo < hi && char_is_space(s.get_char(lo))
        invariant
            lo <= hi <= len,
            len == s@.len(),
            trim_end_of(s@) == s@.take(hi as int),
            trim_start_of(s@.take(hi as int)) == trim_start_of(s@.subrange(lo as int, hi as int)),
        decreases hi - lo,
    {
        proof {
            assert(s@.subrange(lo as int, hi as int).first() == s@[lo as int]);
            assert(s@.subrange(lo as int, hi as int).drop_first() =~= s@.subrange(
                lo + 1,
                hi as int,
            ));
        }
        lo = lo + 1;
    }
    proof {
        if lo < hi {
            assert(s@.subrange(lo as int, hi as int).first() == s@[lo as int]);
        } else {
            assert(s@.subrange(lo as int, hi as int) =~= Seq::<char>::empty());
        }
        assert(trim_of(s@) == s@.subrange(lo as int, hi as int));
        assert(s@.take(hi as int) =~= s@.subrange(0, hi as int));
    }
    s.substring_char(lo, hi)
}

/// Whether `c` is an ASCII decimal digit.
pub open spec fn is_digit(c: char) -> bool {
    48 <= c as u32 <= 57
}

/// The numeric value of an ASCII decimal digit.
pub open spec fn digit_val(c: char) -> int {
    c as u32 - 48
}

/// Whether every character of `s` is an ASCII decimal digit.
pub open spec fn all_digits(s: Seq<char>) -> bool {
    forall|i: int| 0 <= i < s.len() ==> is_digit(#[trigger] s[i])
}

/// The value of a sequence of decimal digits, most significant first.
pub open spec fn digits_value(s: Seq<char>) -> int
    decreases s.len(),
{
    if s.len() == 0 {
        0
    } else {
        digits_value(s.drop_last()) * 10 + digit_val(s.last())
    }
}

/// `s` without its optional single leading sign character.
pub open spec fn unsigned_digits(s: Seq<char>) -> Seq<char> {
    if s.len() > 0 && (s[0] == '-' || s[0] == '+') {
        s.drop_first()
    } else {
        s
    }
}

/// The signed value that `s` denotes, when its digits are read in base 10.
pub open spec fn int_value_of(s: Seq<char>) -> int {
    if s.len() > 0 && s[0] == '-' {
        -digits_value(unsigned_digits(s))
    } else {
        digits_value(unsigned_digits(s))
    }
}

/// Whether `s` is a well-formed base-10 `i32`: an optional sign, then one or
/// more ASCII digits, denoting a value in the range of `i32`.
pub open spec fn parses_as_i32(s: Seq<char>) -> bool {
    &&& unsigned_digits(s).len() > 0
    &&& all_digits(unsigned_digits(s))
    &&& i32::MIN <= int_value_of(s) <= i32::MAX
}

/// What parsing `s` as a base-10 `i32` yields.
pub open spec fn parse_i32_of(s: Seq<char>) -> Option<i32> {
    if parses_as_i32(s) {
        Some(int_value_of(s) as i32)
    } else {
        None
    }
}

/// Parses `s` as a base-10 `i32`: an optional `+` or `-` sign followed by one
/// or more ASCII digits; anything else, or a value out of range, is rejected.
pub fn parse_i32(s: &str) -> (r: Option<i32>)
    ensures
        r == parse_i32_of(s@),
{
    let len = s.unicode_len();
    if len == 0 {
        return None;
    }
    let first = s.get_char(0);
    let neg = first == '-';
    let start: usize = if first == '-' || first == '+' {
        1
    } else {
        0
    };
    proof {
        assert(unsigned_digits(s@) =~= s@.subrange(start as int, len as int));
    }
    if start == len {
        return None;
    }
    let mut i: usize = start;
    let mut val: i64 = 0;
    let mut over = false;
    while i < len
        invariant
            start <= i <= len,
            len == s@.len(),
            0 < len,
            start == 1 <==> (s@[0] == '-' || s@[0] == '+'),
            start == 0 || start == 1,
            neg == (s@[0] == '-'),
            unsigned_digits(s@) =~= s@.subrange(start as int, len as int),
            all_digits(s@.subrange(start as int, i as int)),
            0 <= val <= 2147483648,
            !over ==> val == digits_value(s@.subrange(start as int, i as int)),
            over ==> digits_value(s@.subrange(start as int, i as int)) > 2147483648,
        decreases len - i,
    {
        let c = s.get_char(i);
        let u = c as u32;
        if u < 48 || u > 57 {
            proof {
                assert(unsigned_digits(s@)[i - start] == s@[i as int]);
                assert(!all_digits(unsigned_digits(s@)));
            }
            return None;
        }
        let d: i64 = (u - 48) as i64;
        proof {
            assert(s@.subrange(start as int, i + 1).drop_last() =~= s@.subrange(
                start as int,
                i as int,
            ));
            assert(s@.subrange(start as int, i + 1).last() == s@[i as int]);
        }
        if over {
            proof {
                let prev = digits_value(s@.subrange(start as int, i as int));
                assert(digits_value(s@.subrange(start as int, i + 1)) == prev * 10 + digit_val(
                    s@[i as int],
                ));
            }
        } else {
            if val * 10 + d > 2147483648 {
                over = true;
            } else {
                val = val * 10 + d;
            }
        }
        i = i + 1;
    }
    let ghost magnitude = digits_value(unsigned_digits(s@));
    if neg {
        if over {
            proof {
                assert(int_value_of(s@) < i32::MIN);
            }
            return None;
        }
        let signed: i64 = -val;
        proof {
            assert(int_value_of(s@) == -magnitude);
        }
        Some(signed as i32)
    } else {
        if over || val > 2147483647 {
            proof {
                assert(int_value_of(s@) > i32::MAX);
            }
            return None;
        }
        proof {
            assert(int_value_of(s@) == magnitude);
        }
        Some(val as i32)
    }
}

/// The decimal digit character for `d`.
pub open spec fn digit_char(d: int) -> char {
    if d == 0 {
        '0'
    } else if d == 1 {
        '1'
    } else if d == 2 {
        '2'
    } else if d == 3 {
        '3'
    } else if d == 4 {
        '4'
    } else if d == 5 {
        '5'
    } else if d == 6 {
        '6'
    } else if d == 7 {
        '7'
    } else if d == 8 {
        '8'
    } else {
        '9'
    }
}

/// The base-10 digit characters of a nonnegative `n`, most significant first.
pub open spec fn dec_digits(n: int) -> Seq<char>
    recommends
        n >= 0,
    decreases n,
{
    if n < 10 {
        seq![digit_char(n)]
    } else {
        dec_digits(n / 10).push(digit_char(n % 10))
    }
}

/// The base-10 text of `n`, with a leading `-` when `n` is negative.
pub open spec fn int_text(n: int) -> Seq<char> {
    if n < 0 {
        seq!['-'] + dec_digits(-n)
    } else {
        dec_digits(n)
    }
}

/// The single-character string for the decimal digit `d`.
fn digit_str(d: u32) -> (r: &'static str)
    requires
        d < 10,
    ensures
        r@ =~= seq![digit_char(d as int)],
{
    if d == 0 {
        proof {
            reveal_strlit("0");
        }
        "0"
    } else if d == 1 {
        proof {
            reveal_strlit("1");
        }
        "1"
    } else if d == 2 {
        proof {
            reveal_strlit("2");
        }
        "2"
    } else if d == 3 {
        proof {
            reveal_strlit("3");
        }
        "3"
    } else if d == 4 {
        proof {
            reveal_strlit("4");
        }
        "4"
    } else if d == 5 {
        proof {
            reveal_strlit("5");
        }
        "5"
    } else if d == 6 {
        proof {
            reveal_strlit("6");
        }
        "6"
    } else if d == 7 {
        proof {
            reveal_strlit("7");
        }
        "7"
    } else if d == 8 {
        proof {
            reveal_strlit("8");
        }
        "8"
    } else {
        proof {
            reveal_strlit("9");
        }
        "9"
    }
}

/// Appends the base-10 digits of `n` to `s`.
fn append_u32(s: &mut String, n: u32)
    ensures
        final(s)@ == old(s)@ + dec_digits(n as int),
    decreases n,
{
    if n < 10 {
        s.append(digit_str(n));
        proof {
            assert(s@ =~= old(s)@ + dec_digits(n as int));
        }
    } else {
        append_u32(s, n / 10);
        s.append(digit_str(n % 10));
        proof {
            assert(s@ =~= old(s)@ + dec_digits(n as int));
        }
    }
}

/// Appends the base-10 text of `n` to `s`, with a leading `-` when negative.
pub fn append_i32(s: &mut String, n: i32)
    ensures
        final(s)@ == old(s)@ + int_text(n as int),
{
    if n < 0 {
        s.append("-");
        let wide: i64 = n as i64;
        let magnitude: u32 = (-wide) as u32;
        append_u32(s, magnitude);
        proof {
            reveal_strlit("-");
            assert("-"@ =~= seq!['-']);
            assert(s@ =~= old(s)@ + int_text(n as int));
        }
    } else {
        append_u32(s, n as u32);
    }
}

} // verus!
