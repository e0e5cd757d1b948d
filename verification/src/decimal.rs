//! Decimal rendering of machine integers, used when fault messages embed an
//! exit code, an HTTP status code, or a countdown component.

use vstd::prelude::*;
use vstd::string::StringExecFns;

verus! {

/// The character for a single decimal digit.
pub open spec fn digit_char(d: int) -> char {
    (d + 48) as char
}

/// The usual base-ten rendering of a non-negative integer, most significant
/// digit first, with no leading zeros (a lone `'0'` for zero).
pub open spec fn spec_dec(n: nat) -> Seq<char>
    decreases n,
{
    if n < 10 {
        seq![digit_char(n as int)]
    } else {
        spec_dec(n / 10) + seq![digit_char((n % 10) as int)]
    }
}

/// Base-ten rendering of a signed integer: a leading `'-'` when negative.
pub open spec fn spec_dec_signed(n: int) -> Seq<char> {
    if n < 0 {
        seq!['-'] + spec_dec((-n) as nat)
    } else {
        spec_dec(n as nat)
    }
}

fn digit_str(d: u64) -> (r: &'static str)
    requires
        d < 10,
    ensures
        r@ == seq![digit_char(d as int)],
{
    let r: &'static str = match d {
        0 => "0",
        1 => "1",
        2 => "2",
        3 => "3",
        4 => "4",
        5 => "5",
        6 => "6",
        7 => "7",
        8 => "8",
        _ => "9",
    };
    proof {
        reveal_strlit("0");
        reveal_strlit("1");
        reveal_strlit("2");
        reveal_strlit("3");
        reveal_strlit("4");
        reveal_strlit("5");
        reveal_strlit("6");
        reveal_strlit("7");
        reveal_strlit("8");
        reveal_strlit("9");
        assert(r@ =~= seq![digit_char(d as int)]);
    }
    r
}

/// Renders `n` in base ten.
pub fn u64_dec_string(n: u64) -> (r: String)
    ensures
        r@ == spec_dec(n as nat),
    decreases n,
{
    if n < 10 {
        String::from_str(digit_str(n))
    } else {
        let mut s = u64_dec_string(n / 10);
        s.append(digit_str(n % 10));
        s
    }
}

/// Renders `n` in base ten, with a leading minus sign when `n` is negative.
pub fn i32_dec_string(n: i32) -> (r: String)
    ensures
        r@ == spec_dec_signed(n as int),
{
    if n < 0 {
        let mut s = String::from_str("-");
        let magnitude: u64 = (-(n as i64)) as u64;
        s.append(u64_dec_string(magnitude).as_str());
        proof {
            reveal_strlit("-");
            assert(s@ =~= spec_dec_signed(n as int));
        }
        s
    } else {
        u64_dec_string(n as u64)
    }
}

} // verus!
