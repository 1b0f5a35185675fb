//! Verified rendering of integers as decimal text.

use vstd::prelude::*;

verus! {

/// The decimal digit character for `d`.
pub open spec fn spec_digit_char(d: int) -> char
    recommends
        0 <= d <= 9,
{
    ((48 + d) as u8) as char
}

/// The decimal digits of `n`, most significant first, no leading zeros
/// (a single zero for 0).
pub open spec fn spec_dec_nat(n: nat) -> Seq<char>
    decreases n,
{
    if n < 10 {
        seq![spec_digit_char(n as int)]
    } else {
        spec_dec_nat(n / 10).push(spec_digit_char((n % 10) as int))
    }
}

/// The decimal rendering of a signed value: a minus sign before the digits
/// of the magnitude.
pub open spec fn spec_dec_int(n: int) -> Seq<char> {
    if n >= 0 {
        spec_dec_nat(n as nat)
    } else {
        seq!['-'] + spec_dec_nat((-n) as nat)
    }
}

fn digit_str(d: u64) -> (r: &'static str)
    requires
        d < 10,
    ensures
        r@ == seq![spec_digit_char(d as int)],
{
    proof {
        reveal_strlit("0");
        reveal_strlit("1");
        reveal_strlit("2");
        reveal_strlit("3");
        reveal_strlit("4");
        reveal_strlit("5");
        reveal_strlit("6");
        reveal_strlit("7");
        reveal_strlit("8");
        reveal_strlit("9");
    }
    let r = match d {
        0 => "0",
        1 => "1",
        2 => "2",
        3 => "3",
        4 => "4",
        5 => "5",
        6 => "6",
        7 => "7",
        8 => "8",
        _ => "9",
    };
    proof {
        assert(r@ =~= seq![spec_digit_char(d as int)]);
    }
    r
}

/// Renders `n` in decimal.
pub fn u64_to_dec(n: u64) -> (s: String)
    ensures
        s@ == spec_dec_nat(n as nat),
    decreases n,
{
    if n < 10 {
        String::from_str(digit_str(n))
    } else {
        let rest = u64_to_dec(n / 10);
        let s = rest.concat(digit_str(n % 10));
        proof {
            assert(s@ =~= spec_dec_nat(n as nat));
        }
        s
    }
}

/// Renders `n` in decimal.
pub fn u128_to_dec(n: u128) -> (s: String)
    ensures
        s@ == spec_dec_nat(n as nat),
    decreases n,
{
    if n < 10 {
        String::from_str(digit_str(n as u64))
    } else {
        let rest = u128_to_dec(n / 10);
        let s = rest.concat(digit_str((n % 10) as u64));
        proof {
            assert(s@ =~= spec_dec_nat(n as nat));
        }
        s
    }
}

/// The six decimal digits of `q < 1000000`, zero-padded on the left.
pub open spec fn spec_pad6(q: nat) -> Seq<char> {
    seq![
        spec_digit_char(((q / 100000) % 10) as int),
        spec_digit_char(((q / 10000) % 10) as int),
        spec_digit_char(((q / 1000) % 10) as int),
        spec_digit_char(((q / 100) % 10) as int),
        spec_digit_char(((q / 10) % 10) as int),
        spec_digit_char((q % 10) as int),
    ]
}

/// Renders `q` as exactly six zero-padded decimal digits.
pub fn frac6(q: u64) -> (s: String)
    requires
        q < 1000000,
    ensures
        s@ == spec_pad6(q as nat),
{
    let s = String::from_str(digit_str((q / 100000) % 10)).concat(
        digit_str((q / 10000) % 10),
    ).concat(digit_str((q / 1000) % 10)).concat(digit_str((q / 100) % 10)).concat(
        digit_str((q / 10) % 10),
    ).concat(digit_str(q % 10));
    proof {
        assert(s@ =~= spec_pad6(q as nat));
    }
    s
}

/// Renders `n` in decimal, with a minus sign when negative.
pub fn i64_to_dec(n: i64) -> (s: String)
    ensures
        s@ == spec_dec_int(n as int),
{
    if n >= 0 {
        u64_to_dec(n as u64)
    } else {
        let mag: u64 = (-(n as i128)) as u64;
        let digits = u64_to_dec(mag);
        let s = String::from_str("-").concat(digits.as_str());
        proof {
            reveal_strlit("-");
            assert(s@ =~= spec_dec_int(n as int));
        }
        s
    }
}

} // verus!
