//! Small verified text utilities: decimal rendering of integers and views
//! of optional strings, shared by the scheduler and the request builder.

use vstd::prelude::*;
use vstd::string::StringExecFns;

verus! {

/// View of an optional owned string as an optional character sequence.
pub open spec fn opt_string_view(o: Option<String>) -> Option<Seq<char>> {
    match o {
        Some(s) => Some(s@),
        None => None,
    }
}

/// View of an optional borrowed string as an optional character sequence.
pub open spec fn opt_str_view(o: Option<&'static str>) -> Option<Seq<char>> {
    match o {
        Some(s) => Some(s@),
        None => None,
    }
}

/// The decimal digit character for a value below ten.
pub open spec fn spec_digit(d: int) -> char {
    if d == 0 {
        '0'
    } else if d == 1 {
        '1'
    } else if d == 2 {
        '2'
    } else if d == 3 {
        '3'
    } else if d == 4 {
        '4'
    } else if d == 5 {
        '5'
    } else if d == 6 {
        '6'
    } else if d == 7 {
        '7'
    } else if d == 8 {
        '8'
    } else {
        '9'
    }
}

/// The decimal representation of a nonnegative integer, most significant
/// digit first, with no padding and no sign.
pub open spec fn spec_decimal(n: int) -> Seq<char>
    decreases n,
{
    if n < 10 {
        seq![spec_digit(n)]
    } else {
        spec_decimal(n / 10) + seq![spec_digit(n % 10)]
    }
}

/// The two-digit zero-padded decimal representation of a value below 100.
pub open spec fn spec_two_digits(n: int) -> Seq<char> {
    seq![spec_digit(n / 10), spec_digit(n % 10)]
}

/// The four-digit zero-padded decimal representation of a value below 10000.
pub open spec fn spec_four_digits(n: int) -> Seq<char> {
    seq![spec_digit(n / 1000), spec_digit(n / 100 % 10), spec_digit(n / 10 % 10), spec_digit(n % 10)]
}

/// The one-character string holding a decimal digit.
pub fn digit_str(d: u64) -> (r: &'static str)
    requires
        d < 10,
    ensures
        r@ == seq![spec_digit(d as int)],
{
    proof {
        reveal_strlit("0");
        reveal_strlit("1");
        reveal_strlit("2");
        reveal_strlit("3");
        reveal_strlit("4");
        reveal_strlit("5");
        reveal_strlit("6");
        reveal_strlit("7");
        reveal_strlit("8");
        reveal_strlit("9");
    }
    let r: &'static str = match d {
        0 => "0",
        1 => "1",
        2 => "2",
        3 => "3",
        4 => "4",
        5 => "5",
        6 => "6",
        7 => "7",
        8 => "8",
        _ => "9",
    };
    proof {
        assert(r@ =~= seq![spec_digit(d as int)]);
    }
    r
}

/// Renders `n` in decimal, most significant digit first.
pub fn u64_to_decimal(n: u64) -> (r: String)
    ensures
        r@ == spec_decimal(n as int),
    decreases n,
{
    if n < 10 {
        digit_str(n).to_owned()
    } else {
        let mut s = u64_to_decimal(n / 10);
        s.append(digit_str(n % 10));
        proof {
            assert(s@ =~= spec_decimal(n as int));
        }
        s
    }
}

/// Renders `n` as exactly two decimal digits, zero-padded.
pub fn two_digits(n: u64) -> (r: String)
    requires
        n < 100,
    ensures
        r@ == spec_two_digits(n as int),
{
    let mut s = digit_str(n / 10).to_owned();
    s.append(digit_str(n % 10));
    proof {
        assert(s@ =~= spec_two_digits(n as int));
    }
    s
}

/// Renders `n` as exactly four decimal digits, zero-padded.
pub fn four_digits(n: u64) -> (r: String)
    requires
        n < 10000,
    ensures
        r@ == spec_four_digits(n as int),
{
    let mut s = digit_str(n / 1000).to_owned();
    s.append(digit_str(n / 100 % 10));
    s.append(digit_str(n / 10 % 10));
    s.append(digit_str(n % 10));
    proof {
        assert(s@ =~= spec_four_digits(n as int));
    }
    s
}

} // verus!
