//! Decimal rendering of unsigned integers, used by every message and
//! argument builder in the crate.

use vstd::prelude::*;
use vstd::string::StringExecFns;

verus! {

/// The character for a single decimal digit.
pub open spec fn spec_digit_char(d: nat) -> char {
    if d == 0 {
        '0'
    } else if d == 1 {
        '1'
    } else if d == 2 {
        '2'
    } else if d == 3 {
        '3'
    } else if d == 4 {
        '4'
    } else if d == 5 {
        '5'
    } else if d == 6 {
        '6'
    } else if d == 7 {
        '7'
    } else if d == 8 {
        '8'
    } else {
        '9'
    }
}

/// The usual decimal notation of `n`, most significant digit first,
/// without leading zeros (`0` itself is rendered as "0").
pub open spec fn spec_decimal(n: nat) -> Seq<char>
    decreases n,
{
    if n < 10 {
        seq![spec_digit_char(n)]
    } else {
        spec_decimal(n / 10).push(spec_digit_char(n % 10))
    }
}

/// A one-character string slice for the digit `d`.
fn digit_str(d: u64) -> (r: &'static str)
    requires
        d < 10,
    ensures
        r@ =~= seq![spec_digit_char(d as nat)],
{
    if d == 0 {
        proof {
            reveal_strlit("0");
        }
        "0"
    } else if d == 1 {
        proof {
            reveal_strlit("1");
        }
        "1"
    } else if d == 2 {
        proof {
            reveal_strlit("2");
        }
        "2"
    } else if d == 3 {
        proof {
            reveal_strlit("3");
        }
        "3"
    } else if d == 4 {
        proof {
            reveal_strlit("4");
        }
        "4"
    } else if d == 5 {
        proof {
            reveal_strlit("5");
        }
        "5"
    } else if d == 6 {
        proof {
            reveal_strlit("6");
        }
        "6"
    } else if d == 7 {
        proof {
            reveal_strlit("7");
        }
        "7"
    } else if d == 8 {
        proof {
            reveal_strlit("8");
        }
        "8"
    } else {
        proof {
            reveal_strlit("9");
        }
        "9"
    }
}

/// Renders `n` in decimal.
pub fn decimal_string(n: u64) -> (r: String)
    ensures
        r@ == spec_decimal(n as nat),
    decreases n,
{
    let d: u64 = n % 10;
    let digit: &'static str = digit_str(d);
    if n < 10 {
        let r = String::from_str(digit);
        proof {
            assert(r@ =~= spec_decimal(n as nat));
        }
        r
    } else {
        let prefix = decimal_string(n / 10);
        let r = prefix.concat(digit);
        proof {
            assert(r@ =~= spec_decimal(n as nat));
        }
        r
    }
}

/// A byte count expressed in hundredths of a gibibyte, rounded to the
/// nearest hundredth (half a hundredth rounds up).
pub open spec fn spec_gib_hundredths(bytes: u64) -> nat {
    ((bytes * 100 + 0x20000000) / 0x40000000) as nat
}

/// A byte count rendered as gibibytes with exactly two decimal places,
/// e.g. 10 GiB renders as "10.00".
pub open spec fn spec_gib_two_decimals(bytes: u64) -> Seq<char> {
    let h = spec_gib_hundredths(bytes);
    spec_decimal(h / 100) + seq!['.', spec_digit_char(h / 10 % 10), spec_digit_char(h % 10)]
}

/// Renders `bytes` as gibibytes with two decimal places.
pub fn format_gib_two_decimals(bytes: u64) -> (r: String)
    ensures
        r@ == spec_gib_two_decimals(bytes),
{
    let wide: u128 = (bytes as u128) * 100 + 0x20000000;
    let h_wide: u128 = wide / 0x40000000;
    assert(h_wide <= 0xFFFFFFFFFFFFFFFF) by {
        assert(wide <= 0xFFFFFFFFFFFFFFFF * 100 + 0x20000000);
    };
    let h: u64 = h_wide as u64;
    assert(h as nat == spec_gib_hundredths(bytes));
    let whole = decimal_string(h / 100);
    let tenths: u64 = h / 10 % 10;
    let hundredths: u64 = h % 10;
    let with_point = whole.concat(".");
    let with_tenths = with_point.concat(digit_str(tenths));
    let r = with_tenths.concat(digit_str(hundredths));
    proof {
        reveal_strlit(".");
        assert(r@ =~= spec_gib_two_decimals(bytes));
    }
    r
}

} // verus!
