//! Decimal formatting of integers, specified character for character.

use vstd::prelude::*;
use vstd::string::StringExecFns;

verus! {

/// The decimal digit char for `d` (0 through 9).
pub open spec fn spec_digit_char(d: int) -> char {
    if d == 0 {
        '0'
    } else if d == 1 {
        '1'
    } else if d == 2 {
        '2'
    } else if d == 3 {
        '3'
    } else if d == 4 {
        '4'
    } else if d == 5 {
        '5'
    } else if d == 6 {
        '6'
    } else if d == 7 {
        '7'
    } else if d == 8 {
        '8'
    } else {
        '9'
    }
}

/// Decimal digits of a nonnegative integer, most significant first, no sign.
pub open spec fn spec_nat_str(n: nat) -> Seq<char>
    decreases n,
{
    if n < 10 {
        seq![spec_digit_char(n as int)]
    } else {
        spec_nat_str(n / 10) + seq![spec_digit_char((n % 10) as int)]
    }
}

/// Decimal representation of an integer: a minus sign before the digits when negative.
pub open spec fn spec_int_str(v: int) -> Seq<char> {
    if v < 0 {
        seq!['-'] + spec_nat_str((-v) as nat)
    } else {
        spec_nat_str(v as nat)
    }
}

fn digit_str(d: u64) -> (r: &'static str)
    requires
        d < 10,
    ensures
        r@ == seq![spec_digit_char(d as int)],
{
    if d == 0 {
        proof {
            reveal_strlit("0");
            assert("0"@ =~= seq![spec_digit_char(0)]);
        }
        "0"
    } else if d == 1 {
        proof {
            reveal_strlit("1");
            assert("1"@ =~= seq![spec_digit_char(1)]);
        }
        "1"
    } else if d == 2 {
        proof {
            reveal_strlit("2");
            assert("2"@ =~= seq![spec_digit_char(2)]);
        }
        "2"
    } else if d == 3 {
        proof {
            reveal_strlit("3");
            assert("3"@ =~= seq![spec_digit_char(3)]);
        }
        "3"
    } else if d == 4 {
        proof {
            reveal_strlit("4");
            assert("4"@ =~= seq![spec_digit_char(4)]);
        }
        "4"
    } else if d == 5 {
        proof {
            reveal_strlit("5");
            assert("5"@ =~= seq![spec_digit_char(5)]);
        }
        "5"
    } else if d == 6 {
        proof {
            reveal_strlit("6");
            assert("6"@ =~= seq![spec_digit_char(6)]);
        }
        "6"
    } else if d == 7 {
        proof {
            reveal_strlit("7");
            assert("7"@ =~= seq![spec_digit_char(7)]);
        }
        "7"
    } else if d == 8 {
        proof {
            reveal_strlit("8");
            assert("8"@ =~= seq![spec_digit_char(8)]);
        }
        "8"
    } else {
        proof {
            reveal_strlit("9");
            assert("9"@ =~= seq![spec_digit_char(9)]);
        }
        "9"
    }
}

/// Renders a nonnegative integer as its decimal digits.
pub fn u64_str(n: u64) -> (r: String)
    ensures
        r@ == spec_nat_str(n as nat),
    decreases n,
{
    if n < 10 {
        digit_str(n).to_owned()
    } else {
        let mut s = u64_str(n / 10);
        s.append(digit_str(n % 10));
        s
    }
}

/// Renders an integer in decimal, with a leading minus sign when negative.
pub fn i64_str(v: i64) -> (r: String)
    ensures
        r@ == spec_int_str(v as int),
{
    if v >= 0 {
        u64_str(v as u64)
    } else {
        let mag: u64 = (-(v as i128)) as u64;
        proof {
            assert(mag as int == -(v as int));
        }
        let mut s = "-".to_owned();
        proof {
            reveal_strlit("-");
            assert("-"@ =~= seq!['-']);
        }
        let digits = u64_str(mag);
        s.append(digits.as_str());
        proof {
            assert(s@ =~= spec_int_str(v as int));
        }
        s
    }
}

} // verus!
