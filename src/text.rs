//! Decimal numbers and durations as text.
use vstd::prelude::*;
use vstd::string::StringExecFns;

verus! {

pub const ONE_SECOND: i64 = 1000;
pub const ONE_MINUTE: i64 = 60000;
pub const ONE_HOUR: i64 = 3600000;
pub const ONE_DAY: i64 = 86400000;

pub open spec fn digit(d: nat) -> char {
    if d == 0 {
        '0'
    } else if d == 1 {
        '1'
    } else if d == 2 {
        '2'
    } else if d == 3 {
        '3'
    } else if d == 4 {
        '4'
    } else if d == 5 {
        '5'
    } else if d == 6 {
        '6'
    } else if d == 7 {
        '7'
    } else if d == 8 {
        '8'
    } else {
        '9'
    }
}

/// The decimal digits of `n`, without leading zeros.
pub open spec fn decimal(n: nat) -> Seq<char>
    decreases n,
{
    if n < 10 {
        seq![digit(n)]
    } else {
        decimal(n / 10).push(digit(n % 10))
    }
}

/// `n` in decimal, with a minus sign when negative.
pub open spec fn signed_decimal(n: int) -> Seq<char> {
    if n < 0 {
        seq!['-'] + decimal((-n) as nat)
    } else {
        decimal(n as nat)
    }
}

fn digit_str(d: u64) -> (r: &'static str)
    requires
        d < 10,
    ensures
        r@ == seq![digit(d as nat)],
{
    proof {
        reveal_strlit("0");
        reveal_strlit("1");
        reveal_strlit("2");
        reveal_strlit("3");
        reveal_strlit("4");
        reveal_strlit("5");
        reveal_strlit("6");
        reveal_strlit("7");
        reveal_strlit("8");
        reveal_strlit("9");
    }
    if d == 0 {
        "0"
    } else if d == 1 {
        "1"
    } else if d == 2 {
        "2"
    } else if d == 3 {
        "3"
    } else if d == 4 {
        "4"
    } else if d == 5 {
        "5"
    } else if d == 6 {
        "6"
    } else if d == 7 {
        "7"
    } else if d == 8 {
        "8"
    } else {
        "9"
    }
}

/// `n` written in decimal.
pub fn decimal_string(n: u64) -> (r: String)
    ensures
        r@ == decimal(n as nat),
    decreases n,
{
    if n < 10 {
        String::from_str(digit_str(n))
    } else {
        let mut s = decimal_string(n / 10);
        let d = digit_str(n % 10);
        s.append(d);
        assert(s@ =~= decimal((n / 10) as nat).push(digit((n % 10) as nat)));
        s
    }
}

/// `n` written in decimal, with a minus sign when negative.
pub fn signed_decimal_string(n: i64) -> (r: String)
    ensures
        r@ == signed_decimal(n as int),
{
    if n < 0 {
        let magnitude: u64 = (0i128 - n as i128) as u64;
        let digits = decimal_string(magnitude);
        proof {
            reveal_strlit("-");
        }
        String::from_str("-").concat(digits.as_str())
    } else {
        decimal_string(n as u64)
    }
}

/// `acc` followed by the part `v` then `unit`, parts apart by a space; a part
/// that is zero is left out.
pub open spec fn with_part(acc: Seq<char>, v: int, unit: char) -> Seq<char> {
    if v <= 0 {
        acc
    } else if acc.len() == 0 {
        decimal(v as nat).push(unit)
    } else {
        acc + seq![' '] + decimal(v as nat).push(unit)
    }
}

/// A duration in milliseconds as text: below a second, `"<n>ms"`; else the
/// non-zero days, hours, minutes and seconds (`"1h 2s"`), then `", <n>ms"`
/// when milliseconds remain.
pub open spec fn duration_text(d: int) -> Seq<char> {
    if d < 1000 {
        signed_decimal(d) + seq!['m', 's']
    } else {
        let p = with_part(
            with_part(
                with_part(
                    with_part(Seq::empty(), d / ONE_DAY as int, 'd'),
                    (d % ONE_DAY as int) / ONE_HOUR as int,
                    'h',
                ),
                (d % ONE_HOUR as int) / ONE_MINUTE as int,
                'm',
            ),
            (d % ONE_MINUTE as int) / ONE_SECOND as int,
            's',
        );
        let ms = d % ONE_SECOND as int;
        if ms > 0 {
            p + seq![',', ' '] + decimal(ms as nat) + seq!['m', 's']
        } else {
            p
        }
    }
}

fn push_part(acc: String, v: i64, unit: &str) -> (r: String)
    requires
        unit@.len() == 1,
    ensures
        r@ == with_part(acc@, v as int, unit@[0]),
{
    if v <= 0 {
        acc
    } else {
        let digits = decimal_string(v as u64);
        let part = digits.concat(unit);
        assert(part@ =~= decimal(v as nat).push(unit@[0]));
        if acc.as_str().unicode_len() == 0 {
            part
        } else {
            proof {
                reveal_strlit(" ");
            }
            let spaced = acc.concat(" ");
            spaced.concat(part.as_str())
        }
    }
}

/// Formats a duration given in milliseconds (`"0ms"`, `"1m, 400ms"`, `"1h 2s"`).
pub fn format_duration(duration: i64) -> (r: String)
    ensures
        r@ == duration_text(duration as int),
{
    proof {
        reveal_strlit("ms");
        reveal_strlit("d");
        reveal_strlit("h");
        reveal_strlit("m");
        reveal_strlit("s");
        reveal_strlit(", ");
    }
    if duration < 1000 {
        let n = signed_decimal_string(duration);
        return n.concat("ms");
    }
    let p = push_part(String::new(), duration / ONE_DAY, "d");
    let p = push_part(p, (duration % ONE_DAY) / ONE_HOUR, "h");
    let p = push_part(p, (duration % ONE_HOUR) / ONE_MINUTE, "m");
    let p = push_part(p, (duration % ONE_MINUTE) / ONE_SECOND, "s");
    let ms = duration % ONE_SECOND;
    if ms > 0 {
        let ms_text = decimal_string(ms as u64);
        let r = p.concat(", ").concat(ms_text.as_str()).concat("ms");
        assert(r@ =~= duration_text(duration as int));
        r
    } else {
        p
    }
}

} // verus!
