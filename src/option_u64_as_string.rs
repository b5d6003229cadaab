//! An optional `u64` carried as a decimal string, as the settings file holds
//! the last notified build id.
use vstd::prelude::*;
use crate::text::{decimal, decimal_string, digit};

verus! {

/// Why a string is not a `u64`.
#[derive(Clone, Copy, Debug, PartialEq, Eq, Structural)]
pub enum ParseIntError {
    /// The string is empty.
    Empty,
    /// A character is not a decimal digit (or a lone `+`).
    InvalidDigit,
    /// The number exceeds `u64::MAX`.
    PosOverflow,
}

/// The value of a decimal digit.
pub open spec fn digit_of(c: char) -> Option<nat> {
    if c == '0' {
        Some(0)
    } else if c == '1' {
        Some(1)
    } else if c == '2' {
        Some(2)
    } else if c == '3' {
        Some(3)
    } else if c == '4' {
        Some(4)
    } else if c == '5' {
        Some(5)
    } else if c == '6' {
        Some(6)
    } else if c == '7' {
        Some(7)
    } else if c == '8' {
        Some(8)
    } else if c == '9' {
        Some(9)
    } else {
        None
    }
}

/// Reads the digits of `s` after the value `acc`, from the left: the first
/// character that is no digit, or the first step past `u64::MAX`, is the error.
pub open spec fn parse_digits(s: Seq<char>, acc: nat) -> Result<nat, ParseIntError>
    decreases s.len(),
{
    if s.len() == 0 {
        Ok(acc)
    } else {
        match digit_of(s[0]) {
            None => Err(ParseIntError::InvalidDigit),
            Some(d) => if acc * 10 + d > u64::MAX {
                Err(ParseIntError::PosOverflow)
            } else {
                parse_digits(s.drop_first(), acc * 10 + d)
            },
        }
    }
}

/// A `u64` in decimal, with an optional leading `+`.
pub open spec fn parse_u64(s: Seq<char>) -> Result<nat, ParseIntError> {
    if s.len() == 0 {
        Err(ParseIntError::Empty)
    } else if s[0] == '+' {
        if s.len() == 1 {
            Err(ParseIntError::InvalidDigit)
        } else {
            parse_digits(s.drop_first(), 0)
        }
    } else {
        parse_digits(s, 0)
    }
}

fn digit_value(c: char) -> (r: Option<u64>)
    ensures
        match digit_of(c) {
            Some(d) => r == Some(d as u64),
            None => r is None,
        },
{
    if c == '0' {
        Some(0)
    } else if c == '1' {
        Some(1)
    } else if c == '2' {
        Some(2)
    } else if c == '3' {
        Some(3)
    } else if c == '4' {
        Some(4)
    } else if c == '5' {
        Some(5)
    } else if c == '6' {
        Some(6)
    } else if c == '7' {
        Some(7)
    } else if c == '8' {
        Some(8)
    } else if c == '9' {
        Some(9)
    } else {
        None
    }
}

/// Parses a decimal `u64`.
pub fn parse_u64_str(s: &str) -> (r: Result<u64, ParseIntError>)
    ensures
        match parse_u64(s@) {
            Ok(v) => r == Ok::<u64, ParseIntError>(v as u64),
            Err(e) => r == Err::<u64, ParseIntError>(e),
        },
{
    let n = s.unicode_len();
    if n == 0 {
        return Err(ParseIntError::Empty);
    }
    let mut i: usize = 0;
    if s.get_char(0) == '+' {
        if n == 1 {
            return Err(ParseIntError::InvalidDigit);
        }
        i = 1;
        assert(s@.drop_first() =~= s@.subrange(1, n as int));
    } else {
        assert(s@ =~= s@.subrange(0, n as int));
    }
    let mut acc: u64 = 0;
    while i < n
        invariant
            n == s@.len(),
            1 <= n,
            i <= n,
            parse_u64(s@) == parse_digits(s@.subrange(i as int, n as int), acc as nat),
        decreases n - i,
    {
        let c = s.get_char(i);
        let ghost rest = s@.subrange(i as int, n as int);
        assert(rest[0] == c);
        assert(rest.drop_first() =~= s@.subrange(i + 1, n as int));
        match digit_value(c) {
            None => {
                return Err(ParseIntError::InvalidDigit);
            },
            Some(d) => {
                let next: u128 = acc as u128 * 10 + d as u128;
                if next > u64::MAX as u128 {
                    return Err(ParseIntError::PosOverflow);
                }
                acc = next as u64;
            },
        }
        i += 1;
    }
    Ok(acc)
}

/// Writes the value, if any, in decimal.
pub fn serialize(value: &Option<u64>) -> (r: Option<String>)
    ensures
        r.deep_view() == match value {
            Some(v) => Some(decimal(*v as nat)),
            None => None::<Seq<char>>,
        },
{
    match value {
        Some(v) => Some(decimal_string(*v)),
        None => None,
    }
}

/// Reads the value back: nothing stays nothing, a string must be a `u64`.
pub fn deserialize(opt: Option<String>) -> (r: Result<Option<u64>, ParseIntError>)
    ensures
        match opt {
            None => r == Ok::<Option<u64>, ParseIntError>(None),
            Some(s) => match parse_u64(s@) {
                Ok(v) => r == Ok::<Option<u64>, ParseIntError>(Some(v as u64)),
                Err(e) => r == Err::<Option<u64>, ParseIntError>(e),
            },
        },
{
    match opt {
        None => Ok(None),
        Some(s) => match parse_u64_str(s.as_str()) {
            Ok(v) => Ok(Some(v)),
            Err(e) => Err(e),
        },
    }
}

proof fn lemma_digit_of_digit(d: nat)
    requires
        d < 10,
    ensures
        digit_of(digit(d)) == Some(d),
        digit(d) != '+',
{
}

/// Reading one more digit after a prefix that reads to `v` gives `v * 10 + d`,
/// as long as that fits.
proof fn lemma_parse_push(s: Seq<char>, acc: nat, v: nat, d: nat)
    requires
        parse_digits(s, acc) == Ok::<nat, ParseIntError>(v),
        d < 10,
        v * 10 + d <= u64::MAX,
    ensures
        parse_digits(s.push(digit(d)), acc) == Ok::<nat, ParseIntError>(v * 10 + d),
    decreases s.len(),
{
    lemma_digit_of_digit(d);
    let t = s.push(digit(d));
    if s.len() == 0 {
        assert(v == acc);
        assert(t.drop_first() =~= Seq::<char>::empty());
        assert(parse_digits(t.drop_first(), acc * 10 + d) == Ok::<nat, ParseIntError>(acc * 10 + d));
    } else {
        assert(t[0] == s[0]);
        assert(t.drop_first() =~= s.drop_first().push(digit(d)));
        let e = digit_of(s[0])->0;
        assert(parse_digits(s.drop_first(), acc * 10 + e) == Ok::<nat, ParseIntError>(v));
        lemma_parse_push(s.drop_first(), acc * 10 + e, v, d);
    }
}

proof fn lemma_parse_decimal(n: nat)
    requires
        n <= u64::MAX,
    ensures
        parse_digits(decimal(n), 0) == Ok::<nat, ParseIntError>(n),
        decimal(n).len() > 0,
        decimal(n)[0] != '+',
    decreases n,
{
    if n < 10 {
        lemma_parse_push(Seq::<char>::empty(), 0, 0, n);
        assert(Seq::<char>::empty().push(digit(n)) =~= decimal(n));
        lemma_digit_of_digit(n);
    } else {
        lemma_parse_decimal(n / 10);
        lemma_parse_push(decimal(n / 10), 0, n / 10, n % 10);
        assert(decimal(n)[0] == decimal(n / 10)[0]);
    }
}

/// Reading back what `serialize` wrote gives the same value.
pub proof fn lemma_round_trip(value: Option<u64>)
    ensures
        match value {
            Some(v) => parse_u64(decimal(v as nat)) == Ok::<nat, ParseIntError>(v as nat),
            None => true,
        },
{
    if let Some(v) = value {
        lemma_parse_decimal(v as nat);
    }
}

} // verus!
