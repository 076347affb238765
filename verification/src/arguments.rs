//! Integer arguments as text: a decimal integer is an optional sign followed
//! by one or more digits, and anything else is no integer.

use vstd::prelude::*;
use vstd::string::*;
use crate::mode::Config;

verus! {

/// The value of a decimal digit, `None` for any other character.
pub open spec fn digit_value(c: char) -> Option<nat> {
    if c == '0' {
        Some(0)
    } else if c == '1' {
        Some(1)
    } else if c == '2' {
        Some(2)
    } else if c == '3' {
        Some(3)
    } else if c == '4' {
        Some(4)
    } else if c == '5' {
        Some(5)
    } else if c == '6' {
        Some(6)
    } else if c == '7' {
        Some(7)
    } else if c == '8' {
        Some(8)
    } else if c == '9' {
        Some(9)
    } else {
        None
    }
}

/// The number that a string of decimal digits writes, `None` if some
/// character is no digit. Leading zeros are allowed.
pub open spec fn digits_value(s: Seq<char>) -> Option<nat>
    decreases s.len(),
{
    if s.len() == 0 {
        Some(0)
    } else {
        match (digits_value(s.drop_last()), digit_value(s.last())) {
            (Some(v), Some(d)) => Some(10 * v + d),
            _ => None,
        }
    }
}

/// The 32-bit integer that a text writes: an optional `+` or `-`, then at
/// least one digit and nothing else, with a value in range. `None` for
/// every other text.
pub open spec fn integer_value(s: Seq<char>) -> Option<i32> {
    let signed = s.len() > 0 && (s[0] == '-' || s[0] == '+');
    let negative = s.len() > 0 && s[0] == '-';
    let digits = if signed {
        s.subrange(1, s.len() as int)
    } else {
        s
    };
    if digits.len() == 0 {
        None
    } else {
        match digits_value(digits) {
            None => None,
            Some(v) => {
                let n = if negative {
                    -(v as int)
                } else {
                    v as int
                };
                if i32::MIN <= n <= i32::MAX {
                    Some(n as i32)
                } else {
                    None
                }
            },
        }
    }
}

/// A digit string writes a number only if each of its prefixes does, and
/// then no prefix writes a larger one.
pub proof fn lemma_digits_prefix(s: Seq<char>, k: int)
    requires
        0 <= k <= s.len(),
    ensures
        digits_value(s.take(k)) is None ==> digits_value(s) is None,
        digits_value(s) is Some ==> digits_value(s.take(k)).unwrap() <= digits_value(
            s,
        ).unwrap(),
    decreases s.len(),
{
    if k == s.len() {
        assert(s.take(k) =~= s);
    } else {
        assert(s.drop_last().take(k) =~= s.take(k));
        lemma_digits_prefix(s.drop_last(), k);
    }
}

/// The value of a decimal digit.
pub fn digit_of(c: char) -> (d: Option<u8>)
    ensures
        match digit_value(c) {
            Some(v) => d == Some(v as u8),
            None => d is None,
        },
{
    if c == '0' {
        Some(0)
    } else if c == '1' {
        Some(1)
    } else if c == '2' {
        Some(2)
    } else if c == '3' {
        Some(3)
    } else if c == '4' {
        Some(4)
    } else if c == '5' {
        Some(5)
    } else if c == '6' {
        Some(6)
    } else if c == '7' {
        Some(7)
    } else if c == '8' {
        Some(8)
    } else if c == '9' {
        Some(9)
    } else {
        None
    }
}

/// Reads a text as a 32-bit decimal integer.
pub fn parse_integer(text: &str) -> (r: Option<i32>)
    ensures
        r == integer_value(text@),
{
    let n = text.unicode_len();
    if n == 0 {
        return None;
    }
    let first = text.get_char(0);
    let negative = first == '-';
    let start: usize = if first == '-' || first == '+' {
        1
    } else {
        0
    };
    let ghost digits = text@.subrange(start as int, n as int);
    proof {
        if start == 0 {
            assert(digits =~= text@);
        }
    }
    if start == n {
        return None;
    }
    let mut value: i64 = 0;
    let mut i: usize = start;
    while i < n
        invariant
            start <= i <= n,
            n == text@.len(),
            digits.len() == n - start,
            digits == (if text@[0] == '-' || text@[0] == '+' {
                text@.subrange(1, n as int)
            } else {
                text@
            }),
            digits_value(digits.take(i - start)) == Some(value as nat),
            0 <= value <= 2147483648,
        decreases n - i,
    {
        let c = text.get_char(i);
        let ghost shorter = digits.take(i - start);
        let ghost longer = digits.take(i + 1 - start);
        proof {
            assert(longer.drop_last() =~= shorter);
            assert(longer.last() == c);
            lemma_digits_prefix(digits, i + 1 - start);
        }
        match digit_of(c) {
            None => {
                return None;
            },
            Some(d) => {
                value = value * 10 + d as i64;
                if value > 2147483648 {
                    return None;
                }
            },
        }
        i += 1;
    }
    proof {
        assert(digits.take(n - start) =~= digits);
    }
    if negative {
        Some((-value) as i32)
    } else if value <= 2147483647 {
        Some(value as i32)
    } else {
        None
    }
}

impl Config {
    /// The configuration that the arguments give: each one that is missing,
    /// or is no 32-bit decimal integer, falls back to its default.
    pub fn from_arguments(
        object_count: Option<&str>,
        update_iterations: Option<&str>,
        transform_type: Option<&str>,
    ) -> (config: Config)
        ensures
            config == Config::resolved(
                argument_value(object_count),
                argument_value(update_iterations),
                argument_value(transform_type),
            ),
    {
        Config::resolve(
            parse_argument(object_count),
            parse_argument(update_iterations),
            parse_argument(transform_type),
        )
    }
}

/// The integer that an argument gives, if it is there and writes one.
pub open spec fn argument_value(argument: Option<&str>) -> Option<i32> {
    match argument {
        Some(text) => integer_value(text@),
        None => None,
    }
}

/// Reads an argument, if it is there, as a 32-bit decimal integer.
pub fn parse_argument(argument: Option<&str>) -> (r: Option<i32>)
    ensures
        r == argument_value(argument),
{
    match argument {
        Some(text) => parse_integer(text),
        None => None,
    }
}

} // verus!
