//! Decimal rendering of the integers that appear in status and error
//! messages: file counts and process exit codes.

use vstd::prelude::*;

verus! {

/// The character for one decimal digit.
pub open spec fn spec_digit_char(d: nat) -> char {
    if d == 0 {
        '0'
    } else if d == 1 {
        '1'
    } else if d == 2 {
        '2'
    } else if d == 3 {
        '3'
    } else if d == 4 {
        '4'
    } else if d == 5 {
        '5'
    } else if d == 6 {
        '6'
    } else if d == 7 {
        '7'
    } else if d == 8 {
        '8'
    } else {
        '9'
    }
}

/// The usual decimal rendering of a natural number: no sign, no leading
/// zeros except for the number zero itself.
pub open spec fn spec_udec(n: nat) -> Seq<char>
    decreases n,
{
    if n < 10 {
        seq![spec_digit_char(n)]
    } else {
        spec_udec(n / 10) + seq![spec_digit_char(n % 10)]
    }
}

/// The decimal rendering of an integer: a minus sign before the digits
/// when it is negative.
pub open spec fn spec_idec(i: int) -> Seq<char> {
    if i < 0 {
        seq!['-'] + spec_udec((-i) as nat)
    } else {
        spec_udec(i as nat)
    }
}

/// One digit as a fresh string.
fn digit_str(d: u64) -> (r: String)
    requires
        d < 10,
    ensures
        r@ =~= seq![spec_digit_char(d as nat)],
{
    proof {
        reveal_strlit("0");
        reveal_strlit("1");
        reveal_strlit("2");
        reveal_strlit("3");
        reveal_strlit("4");
        reveal_strlit("5");
        reveal_strlit("6");
        reveal_strlit("7");
        reveal_strlit("8");
        reveal_strlit("9");
    }
    if d == 0 {
        "0".to_owned()
    } else if d == 1 {
        "1".to_owned()
    } else if d == 2 {
        "2".to_owned()
    } else if d == 3 {
        "3".to_owned()
    } else if d == 4 {
        "4".to_owned()
    } else if d == 5 {
        "5".to_owned()
    } else if d == 6 {
        "6".to_owned()
    } else if d == 7 {
        "7".to_owned()
    } else if d == 8 {
        "8".to_owned()
    } else {
        "9".to_owned()
    }
}

/// Renders an unsigned number in decimal.
pub fn u64_to_decimal(n: u64) -> (r: String)
    ensures
        r@ == spec_udec(n as nat),
{
    let mut rest: u64 = n / 10;
    let mut acc: String = digit_str(n % 10);
    proof {
        assert(n as nat % 10 == (n % 10) as nat);
        if n < 10 {
            assert(acc@ =~= spec_udec(n as nat));
        }
    }
    while rest > 0
        invariant
            rest == 0 ==> acc@ == spec_udec(n as nat),
            rest > 0 ==> spec_udec(rest as nat) + acc@ == spec_udec(n as nat),
        decreases rest,
    {
        let d = digit_str(rest % 10);
        let ghost prev_rest = rest as nat;
        let ghost prev_acc = acc@;
        acc = d.concat(acc.as_str());
        rest = rest / 10;
        proof {
            if prev_rest < 10 {
                assert(spec_udec(prev_rest) =~= seq![spec_digit_char(prev_rest % 10)]);
                assert(acc@ =~= spec_udec(prev_rest) + prev_acc);
            } else {
                assert(spec_udec(prev_rest) == spec_udec(prev_rest / 10) + seq![
                    spec_digit_char(prev_rest % 10),
                ]);
                assert(spec_udec(rest as nat) + acc@ =~= spec_udec(prev_rest) + prev_acc);
            }
        }
    }
    acc
}

/// Renders a signed number in decimal.
pub fn i32_to_decimal(i: i32) -> (r: String)
    ensures
        r@ == spec_idec(i as int),
{
    if i < 0 {
        let wide: i64 = i as i64;
        let mag: u64 = (-wide) as u64;
        let digits = u64_to_decimal(mag);
        let r = "-".to_owned().concat(digits.as_str());
        proof {
            reveal_strlit("-");
            assert(r@ =~= seq!['-'] + spec_udec(mag as nat));
        }
        r
    } else {
        u64_to_decimal(i as u64)
    }
}

} // verus!
