//! Wire payloads the aggregators broadcast. Each aggregate update goes out
//! as the JSON object `{"value": N}` with `N` in decimal; this module
//! renders that text and proves it exact, character for character.

use vstd::prelude::*;

verus! {

/// The decimal digit character for one digit value.
pub open spec fn spec_digit_char(d: int) -> char {
    if d == 0 {
        '0'
    } else if d == 1 {
        '1'
    } else if d == 2 {
        '2'
    } else if d == 3 {
        '3'
    } else if d == 4 {
        '4'
    } else if d == 5 {
        '5'
    } else if d == 6 {
        '6'
    } else if d == 7 {
        '7'
    } else if d == 8 {
        '8'
    } else {
        '9'
    }
}

/// The decimal digits of a non-negative integer, most significant first,
/// with no leading zero except for the number zero itself.
pub open spec fn spec_u64_decimal(n: nat) -> Seq<char>
    decreases n,
{
    if n < 10 {
        seq![spec_digit_char(n as int)]
    } else {
        spec_u64_decimal(n / 10).push(spec_digit_char((n % 10) as int))
    }
}

/// The decimal rendering of a signed integer: a minus sign before the
/// digits of the magnitude when negative.
pub open spec fn spec_i32_decimal(v: int) -> Seq<char> {
    if v < 0 {
        seq!['-'] + spec_u64_decimal((-v) as nat)
    } else {
        spec_u64_decimal(v as nat)
    }
}

/// The broadcast payload `{"value": ... }` around an already rendered
/// number.
pub open spec fn spec_value_object(digits: Seq<char>) -> Seq<char> {
    "{\"value\":"@ + digits + "}"@
}

/// The one-character string for one decimal digit.
fn digit_str(d: u64) -> (r: &'static str)
    requires
        d < 10,
    ensures
        r@ == seq![spec_digit_char(d as int)],
{
    proof {
        reveal_strlit("0");
        reveal_strlit("1");
        reveal_strlit("2");
        reveal_strlit("3");
        reveal_strlit("4");
        reveal_strlit("5");
        reveal_strlit("6");
        reveal_strlit("7");
        reveal_strlit("8");
        reveal_strlit("9");
    }
    let r = match d {
        0 => "0",
        1 => "1",
        2 => "2",
        3 => "3",
        4 => "4",
        5 => "5",
        6 => "6",
        7 => "7",
        8 => "8",
        _ => "9",
    };
    proof {
        assert(r@ =~= seq![spec_digit_char(d as int)]);
    }
    r
}

/// Renders an unsigned integer in decimal.
pub fn u64_to_decimal(n: u64) -> (r: String)
    ensures
        r@ == spec_u64_decimal(n as nat),
    decreases n,
{
    if n < 10 {
        let mut s = String::new();
        s.append(digit_str(n));
        proof {
            assert(s@ =~= spec_u64_decimal(n as nat));
        }
        s
    } else {
        let mut s = u64_to_decimal(n / 10);
        s.append(digit_str(n % 10));
        proof {
            assert(s@ =~= spec_u64_decimal(n as nat));
        }
        s
    }
}

/// Renders a signed integer in decimal.
pub fn i32_to_decimal(v: i32) -> (r: String)
    ensures
        r@ == spec_i32_decimal(v as int),
{
    if v < 0 {
        let magnitude: u64 = (-(v as i64)) as u64;
        let mut s = String::new();
        s.append("-");
        let digits = u64_to_decimal(magnitude);
        s.append(digits.as_str());
        proof {
            reveal_strlit("-");
            assert(s@ =~= spec_i32_decimal(v as int));
        }
        s
    } else {
        u64_to_decimal(v as u64)
    }
}

/// The payload of an `update` broadcast: `{"value": c}` for the new value
/// `c` of the tick counter.
pub fn update_payload(counter: u64) -> (r: String)
    ensures
        r@ == spec_value_object(spec_u64_decimal(counter as nat)),
{
    let mut s = String::new();
    s.append("{\"value\":");
    let digits = u64_to_decimal(counter);
    s.append(digits.as_str());
    s.append("}");
    proof {
        assert(s@ =~= spec_value_object(spec_u64_decimal(counter as nat)));
    }
    s
}

/// The payload of an `update_2` broadcast: `{"value": v}` for the relayed
/// quantity `v`.
pub fn update_2_payload(quantity: i32) -> (r: String)
    ensures
        r@ == spec_value_object(spec_i32_decimal(quantity as int)),
{
    let mut s = String::new();
    s.append("{\"value\":");
    let digits = i32_to_decimal(quantity);
    s.append(digits.as_str());
    s.append("}");
    proof {
        assert(s@ =~= spec_value_object(spec_i32_decimal(quantity as int)));
    }
    s
}

} // verus!
