//! Names for what is fetched into the temporary directory.

use vstd::prelude::*;
use vstd::string::StringExecFns;

verus! {

/// The character of a digit.
pub open spec fn digit(d: nat) -> char {
    if d == 0 {
        '0'
    } else if d == 1 {
        '1'
    } else if d == 2 {
        '2'
    } else if d == 3 {
        '3'
    } else if d == 4 {
        '4'
    } else if d == 5 {
        '5'
    } else if d == 6 {
        '6'
    } else if d == 7 {
        '7'
    } else if d == 8 {
        '8'
    } else {
        '9'
    }
}

/// A number written in decimal digits, without leading zeros.
pub open spec fn decimal(n: nat) -> Seq<char>
    decreases n,
{
    if n < 10 {
        seq![digit(n)]
    } else {
        decimal(n / 10).push(digit(n % 10))
    }
}

/// A number written in decimal digits, with a minus sign where it is negative.
pub open spec fn signed_decimal(n: int) -> Seq<char> {
    if n < 0 {
        seq!['-'] + decimal((-n) as nat)
    } else {
        decimal(n as nat)
    }
}

/// The name under which `name` is cached at the instant `millis`: the name, a
/// hyphen, the instant, and the file type behind a dot where one is given.
pub open spec fn cache_name(name: Seq<char>, millis: i64, file_type: Option<Seq<char>>) -> Seq<char> {
    let base = name + seq!['-'] + signed_decimal(millis as int);
    match file_type {
        Some(file_type) => base + seq!['.'] + file_type,
        None => base,
    }
}

/// The value of a file type that may be missing.
pub open spec fn optional_str(text: Option<&str>) -> Option<Seq<char>> {
    match text {
        Some(text) => Some(text@),
        None => None,
    }
}

/// The digit as a string.
fn digit_str(d: u64) -> (s: &'static str)
    requires
        d < 10,
    ensures
        s@ == seq![digit(d as nat)],
{
    proof {
        reveal_strlit("0");
        reveal_strlit("1");
        reveal_strlit("2");
        reveal_strlit("3");
        reveal_strlit("4");
        reveal_strlit("5");
        reveal_strlit("6");
        reveal_strlit("7");
        reveal_strlit("8");
        reveal_strlit("9");
    }
    let s = if d == 0 {
        "0"
    } else if d == 1 {
        "1"
    } else if d == 2 {
        "2"
    } else if d == 3 {
        "3"
    } else if d == 4 {
        "4"
    } else if d == 5 {
        "5"
    } else if d == 6 {
        "6"
    } else if d == 7 {
        "7"
    } else if d == 8 {
        "8"
    } else {
        "9"
    };
    assert(s@ =~= seq![digit(d as nat)]);
    s
}

/// Writes a number in decimal digits.
pub fn write_decimal(n: u64) -> (text: String)
    ensures
        text@ == decimal(n as nat),
{
    let mut text = String::from_str(digit_str(n % 10));
    let mut rest = n / 10;
    while rest > 0
        invariant
            decimal(n as nat) == if rest == 0 {
                text@
            } else {
                decimal(rest as nat) + text@
            },
        decreases rest,
    {
        let ghost was = text@;
        text = String::from_str(digit_str(rest % 10)).concat(text.as_str());
        proof {
            assert(text@ =~= seq![digit((rest % 10) as nat)] + was);
            if rest >= 10 {
                assert(decimal(rest as nat) + was =~= decimal((rest / 10) as nat) + text@);
            } else {
                assert(decimal(rest as nat) + was =~= text@);
            }
        }
        rest = rest / 10;
    }
    text
}

/// Writes a number in decimal digits, with a minus sign where it is negative.
pub fn write_signed(n: i64) -> (text: String)
    ensures
        text@ == signed_decimal(n as int),
{
    if n >= 0 {
        write_decimal(n as u64)
    } else {
        let magnitude: u64 = (-(n + 1)) as u64 + 1;
        proof {
            reveal_strlit("-");
        }
        let text = String::from_str("-").concat(write_decimal(magnitude).as_str());
        assert(text@ =~= seq!['-'] + decimal((-n) as nat));
        text
    }
}

/// The name under which `name` is cached at the instant `millis`.
pub fn cache_name_at(name: &str, millis: i64, file_type: Option<&str>) -> (cached: String)
    ensures
        cached@ == cache_name(name@, millis, optional_str(file_type)),
{
    proof {
        reveal_strlit("-");
        reveal_strlit(".");
    }
    let mut cached = String::from_str(name);
    cached.append("-");
    cached.append(write_signed(millis).as_str());
    assert(cached@ =~= name@ + seq!['-'] + signed_decimal(millis as int));
    match file_type {
        Some(file_type) => {
            let ghost base = cached@;
            cached.append(".");
            cached.append(file_type);
            assert(cached@ =~= base + seq!['.'] + file_type@);
        },
        None => {},
    }
    cached
}

} // verus!
