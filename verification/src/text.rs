//! Character and number text helpers: ASCII lower-casing, the truthy-word
//! test used by boolean configuration flags, decimal parsing of 16-bit port
//! numbers, and decimal rendering.

use vstd::prelude::*;
use vstd::string::StrSliceExecFns;
use vstd::string::StringExecFns;

verus! {

/// The ASCII lower-case image of a character: upper-case letters move down
/// by 32, everything else is unchanged.
pub open spec fn lower_char(c: char) -> char {
    if 'A' <= c && c <= 'Z' {
        ((c as u8) + 32) as char
    } else {
        c
    }
}

fn lower_ascii_char(c: char) -> (r: char)
    ensures
        r == lower_char(c),
{
    match c {
        'A' => 'a',
        'B' => 'b',
        'C' => 'c',
        'D' => 'd',
        'E' => 'e',
        'F' => 'f',
        'G' => 'g',
        'H' => 'h',
        'I' => 'i',
        'J' => 'j',
        'K' => 'k',
        'L' => 'l',
        'M' => 'm',
        'N' => 'n',
        'O' => 'o',
        'P' => 'p',
        'Q' => 'q',
        'R' => 'r',
        'S' => 's',
        'T' => 't',
        'U' => 'u',
        'V' => 'v',
        'W' => 'w',
        'X' => 'x',
        'Y' => 'y',
        'Z' => 'z',
        _ => c,
    }
}

/// A flag value counts as true exactly when its lower-cased form is one of
/// "1", "true", "yes" or "on".
pub open spec fn truthy(s: Seq<char>) -> bool {
    ||| (s.len() == 1 && lower_char(s[0]) == '1')
    ||| (s.len() == 4 && lower_char(s[0]) == 't' && lower_char(s[1]) == 'r' && lower_char(s[2])
        == 'u' && lower_char(s[3]) == 'e')
    ||| (s.len() == 3 && lower_char(s[0]) == 'y' && lower_char(s[1]) == 'e' && lower_char(s[2])
        == 's')
    ||| (s.len() == 2 && lower_char(s[0]) == 'o' && lower_char(s[1]) == 'n')
}

pub fn is_truthy(s: &str) -> (r: bool)
    ensures
        r == truthy(s@),
{
    let n = s.unicode_len();
    if n == 1 {
        lower_ascii_char(s.get_char(0)) == '1'
    } else if n == 4 {
        lower_ascii_char(s.get_char(0)) == 't' && lower_ascii_char(s.get_char(1)) == 'r'
            && lower_ascii_char(s.get_char(2)) == 'u' && lower_ascii_char(s.get_char(3)) == 'e'
    } else if n == 3 {
        lower_ascii_char(s.get_char(0)) == 'y' && lower_ascii_char(s.get_char(1)) == 'e'
            && lower_ascii_char(s.get_char(2)) == 's'
    } else if n == 2 {
        lower_ascii_char(s.get_char(0)) == 'o' && lower_ascii_char(s.get_char(1)) == 'n'
    } else {
        false
    }
}

/// Whether a character is a decimal digit.
pub open spec fn is_dec_digit(c: char) -> bool {
    '0' <= c && c <= '9'
}

/// The numeric value of a decimal digit character.
pub open spec fn digit_val(c: char) -> int {
    (c as u32) - ('0' as u32)
}

/// The number written by a sequence of decimal digit characters, most
/// significant first.
pub open spec fn digits_val(s: Seq<char>) -> int
    decreases s.len(),
{
    if s.len() == 0 {
        0
    } else {
        digits_val(s.drop_last()) * 10 + digit_val(s.last())
    }
}

pub open spec fn all_dec_digits(s: Seq<char>) -> bool {
    forall|i: int| 0 <= i < s.len() ==> is_dec_digit(#[trigger] s[i])
}

/// The digit part of an unsigned decimal literal: everything after an
/// optional leading plus sign.
pub open spec fn unsigned_digits(s: Seq<char>) -> Seq<char> {
    if s.len() > 0 && s[0] == '+' {
        s.subrange(1, s.len() as int)
    } else {
        s
    }
}

/// Whether a string is a decimal literal for a 16-bit unsigned integer:
/// an optional leading plus sign, then at least one digit, writing a value
/// of at most 65535.
pub open spec fn parses_as_u16(s: Seq<char>) -> bool {
    let d = unsigned_digits(s);
    d.len() > 0 && all_dec_digits(d) && digits_val(d) <= u16::MAX
}

/// The value such a literal writes.
pub open spec fn parsed_u16(s: Seq<char>) -> int {
    digits_val(unsigned_digits(s))
}

fn digit_value(c: char) -> (r: Option<u32>)
    ensures
        is_dec_digit(c) ==> r == Some(digit_val(c) as u32),
        !is_dec_digit(c) ==> r is None,
{
    match c {
        '0' => Some(0u32),
        '1' => Some(1u32),
        '2' => Some(2u32),
        '3' => Some(3u32),
        '4' => Some(4u32),
        '5' => Some(5u32),
        '6' => Some(6u32),
        '7' => Some(7u32),
        '8' => Some(8u32),
        '9' => Some(9u32),
        _ => None,
    }
}

/// Parse a 16-bit unsigned integer from its decimal writing, accepting an
/// optional leading plus sign, as the standard string-to-integer conversion
/// does. Anything else, including an empty string or an overflowing value,
/// yields `None`.
pub fn parse_u16(s: &str) -> (r: Option<u16>)
    ensures
        parses_as_u16(s@) ==> r == Some(parsed_u16(s@) as u16),
        !parses_as_u16(s@) ==> r is None,
{
    let n = s.unicode_len();
    if n == 0 {
        return None;
    }
    let start: usize = if s.get_char(0) == '+' {
        1
    } else {
        0
    };
    if start == n {
        // A bare sign has no digits.
        return None;
    }
    proof {
        assert(unsigned_digits(s@) =~= s@.subrange(start as int, n as int));
    }
    let mut i: usize = start;
    let mut acc: u32 = 0;
    let mut over: bool = false;
    while i < n
        invariant
            n == s@.len(),
            start <= i <= n,
            start < n,
            unsigned_digits(s@) =~= s@.subrange(start as int, n as int),
            all_dec_digits(s@.subrange(start as int, i as int)),
            !over ==> acc <= u16::MAX && acc == digits_val(
                s@.subrange(start as int, i as int),
            ),
            over ==> digits_val(s@.subrange(start as int, i as int)) > u16::MAX,
        decreases n - i,
    {
        let c = s.get_char(i);
        let ghost pre = s@.subrange(start as int, i as int);
        let ghost ext = s@.subrange(start as int, i as int + 1);
        proof {
            assert(ext.drop_last() =~= pre);
            assert(ext.last() == s@[i as int]);
        }
        match digit_value(c) {
            None => {
                proof {
                    assert(unsigned_digits(s@)[i - start] == c);
                }
                return None;
            },
            Some(d) => {
                if over {
                    proof {
                        assert(digits_val(ext) == digits_val(pre) * 10 + digit_val(c));
                        assert(digits_val(pre) * 10 > 655350) by {
                            assert(digits_val(pre) >= 65536);
                        };
                    }
                } else {
                    acc = acc * 10 + d;
                    if acc > 65535 {
                        over = true;
                    }
                }
            },
        }
        i += 1;
    }
    proof {
        assert(s@.subrange(start as int, n as int) =~= unsigned_digits(s@));
    }
    if over {
        None
    } else {
        Some(acc as u16)
    }
}

/// The decimal digit character for a value below ten.
pub open spec fn digit_char(d: int) -> char {
    if d == 0 {
        '0'
    } else if d == 1 {
        '1'
    } else if d == 2 {
        '2'
    } else if d == 3 {
        '3'
    } else if d == 4 {
        '4'
    } else if d == 5 {
        '5'
    } else if d == 6 {
        '6'
    } else if d == 7 {
        '7'
    } else if d == 8 {
        '8'
    } else {
        '9'
    }
}

/// The decimal writing of a non-negative number, most significant digit
/// first and without leading zeros (the number zero is written "0").
pub open spec fn dec_rep(n: int) -> Seq<char>
    decreases n,
{
    if n < 10 {
        seq![digit_char(n)]
    } else {
        dec_rep(n / 10).push(digit_char(n % 10))
    }
}

fn digit_str(d: u64) -> (r: &'static str)
    requires
        d < 10,
    ensures
        r@ =~= seq![digit_char(d as int)],
{
    let r = match d {
        0u64 => "0",
        1u64 => "1",
        2u64 => "2",
        3u64 => "3",
        4u64 => "4",
        5u64 => "5",
        6u64 => "6",
        7u64 => "7",
        8u64 => "8",
        _ => "9",
    };
    proof {
        reveal_strlit("0");
        reveal_strlit("1");
        reveal_strlit("2");
        reveal_strlit("3");
        reveal_strlit("4");
        reveal_strlit("5");
        reveal_strlit("6");
        reveal_strlit("7");
        reveal_strlit("8");
        reveal_strlit("9");
    }
    r
}

/// Render an unsigned integer in decimal.
pub fn u64_to_string(n: u64) -> (r: String)
    ensures
        r@ == dec_rep(n as int),
    decreases n,
{
    if n < 10 {
        String::from_str(digit_str(n))
    } else {
        let mut r = u64_to_string(n / 10);
        r.append(digit_str(n % 10));
        proof {
            assert(dec_rep((n / 10) as int) + seq![digit_char((n % 10) as int)] =~= dec_rep(
                n as int,
            ));
        }
        r
    }
}

} // verus!
