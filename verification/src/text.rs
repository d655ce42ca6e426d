//! Decimal rendering of integers, used when menu lines and addresses are
//! serialized, and the fixed response terminator.
use vstd::prelude::*;

verus! {

/// The character for a single decimal digit.
pub open spec fn digit_char(d: nat) -> char {
    if d == 0 {
        '0'
    } else if d == 1 {
        '1'
    } else if d == 2 {
        '2'
    } else if d == 3 {
        '3'
    } else if d == 4 {
        '4'
    } else if d == 5 {
        '5'
    } else if d == 6 {
        '6'
    } else if d == 7 {
        '7'
    } else if d == 8 {
        '8'
    } else {
        '9'
    }
}

/// The decimal digit sequence of `n`, most significant digit first, with no
/// leading zeros (a single `'0'` for zero).
pub open spec fn spec_digits(n: nat) -> Seq<char>
    decreases n,
{
    if n < 10 {
        seq![digit_char(n)]
    } else {
        spec_digits(n / 10).push(digit_char(n % 10))
    }
}

/// The decimal rendering of a signed number: the digits of its magnitude,
/// preceded by a minus sign when it is negative.
pub open spec fn spec_int_string(n: int) -> Seq<char> {
    if n < 0 {
        seq!['-'] + spec_digits((-n) as nat)
    } else {
        spec_digits(n as nat)
    }
}

/// The fixed terminator that ends every response body.
pub open spec fn spec_terminator() -> Seq<char> {
    seq!['\r', '\n', '.', '\r', '\n']
}

fn digit_str(d: u64) -> (s: &'static str)
    requires
        d < 10,
    ensures
        s@ == seq![digit_char(d as nat)],
{
    if d == 0 {
        proof {
            reveal_strlit("0");
            assert("0"@ =~= seq![digit_char(0)]);
        }
        "0"
    } else if d == 1 {
        proof {
            reveal_strlit("1");
            assert("1"@ =~= seq![digit_char(1)]);
        }
        "1"
    } else if d == 2 {
        proof {
            reveal_strlit("2");
            assert("2"@ =~= seq![digit_char(2)]);
        }
        "2"
    } else if d == 3 {
        proof {
            reveal_strlit("3");
            assert("3"@ =~= seq![digit_char(3)]);
        }
        "3"
    } else if d == 4 {
        proof {
            reveal_strlit("4");
            assert("4"@ =~= seq![digit_char(4)]);
        }
        "4"
    } else if d == 5 {
        proof {
            reveal_strlit("5");
            assert("5"@ =~= seq![digit_char(5)]);
        }
        "5"
    } else if d == 6 {
        proof {
            reveal_strlit("6");
            assert("6"@ =~= seq![digit_char(6)]);
        }
        "6"
    } else if d == 7 {
        proof {
            reveal_strlit("7");
            assert("7"@ =~= seq![digit_char(7)]);
        }
        "7"
    } else if d == 8 {
        proof {
            reveal_strlit("8");
            assert("8"@ =~= seq![digit_char(8)]);
        }
        "8"
    } else {
        proof {
            reveal_strlit("9");
            assert("9"@ =~= seq![digit_char(9)]);
        }
        "9"
    }
}

fn u64_digits(n: u64) -> (s: String)
    ensures
        s@ == spec_digits(n as nat),
    decreases n,
{
    let d: u64 = n % 10;
    if n < 10 {
        String::from_str(digit_str(d))
    } else {
        let prefix = u64_digits(n / 10);
        let s = prefix.concat(digit_str(d));
        proof {
            assert(s@ =~= spec_digits(n as nat));
        }
        s
    }
}

/// Renders a signed number in decimal, as `format!("{}", n)` would.
pub fn i32_to_string(n: i32) -> (s: String)
    ensures
        s@ == spec_int_string(n as int),
{
    if n < 0 {
        let wide: i64 = n as i64;
        let magnitude: u64 = (-wide) as u64;
        let digits = u64_digits(magnitude);
        let mut s = String::from_str("-");
        proof {
            reveal_strlit("-");
            assert(s@ =~= seq!['-']);
        }
        s.append(digits.as_str());
        proof {
            assert(s@ =~= spec_int_string(n as int));
        }
        s
    } else {
        u64_digits(n as u64)
    }
}

/// The terminator as text.
pub fn terminator_str() -> (s: &'static str)
    ensures
        s@ == spec_terminator(),
{
    proof {
        reveal_strlit("\r\n.\r\n");
        assert("\r\n.\r\n"@ =~= spec_terminator());
    }
    "\r\n.\r\n"
}

} // verus!
