//! Verified fixed-point rendering of decimal number text.
//!
//! A JSON telemetry message carries the frequency as a JSON number; this
//! crate reads that number as its decimal text (the lossless form serde_json
//! prints for it) and renders it at fixed 6-decimal precision with exact
//! integer arithmetic. The grammar accepted is the JSON number notation:
//! an optional minus sign, integer digits, an optional fraction, an optional
//! exponent. Texts outside the grammar, or whose magnitude falls outside the
//! supported range (more than 38 significant digits, an exponent beyond
//! 99999, or a scaled value of 2^128 or more), render as `None`; the sixth
//! fractional digit is rounded to nearest, ties to the even neighbour.

use vstd::prelude::*;
use vstd::arithmetic::div_mod::{
    lemma_basic_div, lemma_div_nonincreasing, lemma_fundamental_div_mod, lemma_small_mod,
};
use crate::fixed6::{render_fixed6, spec_render_fixed6};

verus! {

/// Decimal digit characters.
pub open spec fn spec_is_dig(c: char) -> bool {
    48 <= c as int <= 57
}

/// The numeric value of a digit character.
pub open spec fn spec_dig_val(c: char) -> int {
    c as int - 48
}

/// The length of the run of digit characters starting at `from`.
pub open spec fn spec_digit_run(s: Seq<char>, from: int) -> int
    decreases s.len() - from,
{
    if from < 0 || from >= s.len() || !spec_is_dig(s[from]) {
        0
    } else {
        1 + spec_digit_run(s, from + 1)
    }
}

/// The value of a string of digit characters, most significant first.
pub open spec fn spec_digits_val(s: Seq<char>) -> int
    decreases s.len(),
{
    if s.len() == 0 {
        0
    } else {
        spec_digits_val(s.drop_last()) * 10 + spec_dig_val(s.last())
    }
}

/// Ten to the `n`.
pub open spec fn spec_pow10(n: nat) -> int
    decreases n,
{
    if n == 0 {
        1
    } else {
        10 * spec_pow10((n - 1) as nat)
    }
}

/// `n / pow10(j)` rounded to the nearest integer, ties to the even
/// neighbour.
pub open spec fn spec_rhe_div_pow10(n: int, j: nat) -> int {
    let den = spec_pow10(j);
    let q = n / den;
    let r = n % den;
    if 2 * r > den {
        q + 1
    } else if 2 * r < den {
        q
    } else if q % 2 == 0 {
        q
    } else {
        q + 1
    }
}

proof fn lemma_pow10_pos(n: nat)
    ensures
        spec_pow10(n) >= 1,
    decreases n,
{
    if n > 0 {
        lemma_pow10_pos((n - 1) as nat);
    }
}

proof fn lemma_pow10_adds(a: nat, b: nat)
    ensures
        spec_pow10(a + b) == spec_pow10(a) * spec_pow10(b),
    decreases a,
{
    if a == 0 {
    } else {
        lemma_pow10_adds((a - 1) as nat, b);
        assert(spec_pow10(a + b) == 10 * spec_pow10((a + b - 1) as nat));
        assert(10 * (spec_pow10((a - 1) as nat) * spec_pow10(b)) == (10 * spec_pow10(
            (a - 1) as nat,
        )) * spec_pow10(b)) by (nonlinear_arith);
    }
}

proof fn lemma_pow10_increases(a: nat, b: nat)
    requires
        a <= b,
    ensures
        spec_pow10(a) <= spec_pow10(b),
    decreases b,
{
    if a < b {
        lemma_pow10_increases(a, (b - 1) as nat);
        lemma_pow10_pos((b - 1) as nat);
    }
}

proof fn lemma_pow10_39()
    ensures
        spec_pow10(6) == 1000000,
        spec_pow10(38) == 100000000000000000000000000000000000000,
        spec_pow10(39) == 1000000000000000000000000000000000000000,
{
    assert(spec_pow10(0) == 1);
    assert(spec_pow10(1) == 10);
    assert(spec_pow10(2) == 100);
    assert(spec_pow10(3) == 1000);
    assert(spec_pow10(4) == 10000);
    assert(spec_pow10(5) == 100000);
    assert(spec_pow10(6) == 1000000);
    assert(spec_pow10(7) == 10000000);
    assert(spec_pow10(8) == 100000000);
    assert(spec_pow10(9) == 1000000000);
    assert(spec_pow10(10) == 10000000000);
    assert(spec_pow10(11) == 100000000000);
    assert(spec_pow10(12) == 1000000000000);
    assert(spec_pow10(13) == 10000000000000);
    assert(spec_pow10(14) == 100000000000000);
    assert(spec_pow10(15) == 1000000000000000);
    assert(spec_pow10(16) == 10000000000000000);
    assert(spec_pow10(17) == 100000000000000000);
    assert(spec_pow10(18) == 1000000000000000000);
    assert(spec_pow10(19) == 10000000000000000000);
    assert(spec_pow10(20) == 100000000000000000000);
    assert(spec_pow10(21) == 1000000000000000000000);
    assert(spec_pow10(22) == 10000000000000000000000);
    assert(spec_pow10(23) == 100000000000000000000000);
    assert(spec_pow10(24) == 1000000000000000000000000);
    assert(spec_pow10(25) == 10000000000000000000000000);
    assert(spec_pow10(26) == 100000000000000000000000000);
    assert(spec_pow10(27) == 1000000000000000000000000000);
    assert(spec_pow10(28) == 10000000000000000000000000000);
    assert(spec_pow10(29) == 100000000000000000000000000000);
    assert(spec_pow10(30) == 1000000000000000000000000000000);
    assert(spec_pow10(31) == 10000000000000000000000000000000);
    assert(spec_pow10(32) == 100000000000000000000000000000000);
    assert(spec_pow10(33) == 1000000000000000000000000000000000);
    assert(spec_pow10(34) == 10000000000000000000000000000000000);
    assert(spec_pow10(35) == 100000000000000000000000000000000000);
    assert(spec_pow10(36) == 1000000000000000000000000000000000000);
    assert(spec_pow10(37) == 10000000000000000000000000000000000000);
    assert(spec_pow10(38) == 100000000000000000000000000000000000000);
    assert(spec_pow10(39) == 1000000000000000000000000000000000000000);
}

/// A digit run lies inside the string and holds digits only.
proof fn lemma_digit_run_props(s: Seq<char>, from: int)
    requires
        0 <= from <= s.len(),
    ensures
        0 <= spec_digit_run(s, from),
        from + spec_digit_run(s, from) <= s.len(),
        forall|j: int|
            from <= j < from + spec_digit_run(s, from) ==> spec_is_dig(#[trigger] s[j]),
    decreases s.len() - from,
{
    if from < s.len() && spec_is_dig(s[from]) {
        lemma_digit_run_props(s, from + 1);
    }
}

/// A digit string's value is nonnegative and below ten to its length.
proof fn lemma_digits_val_bound(s: Seq<char>)
    requires
        forall|j: int| 0 <= j < s.len() ==> spec_is_dig(#[trigger] s[j]),
    ensures
        0 <= spec_digits_val(s) < spec_pow10(s.len()),
    decreases s.len(),
{
    if s.len() > 0 {
        assert(forall|j: int|
            0 <= j < s.drop_last().len() ==> spec_is_dig(#[trigger] s.drop_last()[j]));
        lemma_digits_val_bound(s.drop_last());
        let v = spec_digits_val(s.drop_last());
        let p = spec_pow10((s.len() - 1) as nat);
        assert(v * 10 + spec_dig_val(s.last()) < p * 10) by (nonlinear_arith)
            requires
                0 <= v < p,
                spec_dig_val(s.last()) <= 9,
        ;
        assert(v * 10 + spec_dig_val(s.last()) >= 0) by (nonlinear_arith)
            requires
                0 <= v,
                spec_dig_val(s.last()) >= 0,
        ;
    }
}

/// Concatenating digit strings scales the left value by ten to the length of
/// the right.
proof fn lemma_digits_val_append(a: Seq<char>, b: Seq<char>)
    ensures
        spec_digits_val(a + b) == spec_digits_val(a) * spec_pow10(b.len()) + spec_digits_val(b),
    decreases b.len(),
{
    if b.len() == 0 {
        assert(a + b =~= a);
    } else {
        lemma_digits_val_append(a, b.drop_last());
        assert((a + b).drop_last() =~= a + b.drop_last());
        assert((a + b).last() == b.last());
        let va = spec_digits_val(a);
        let vb = spec_digits_val(b.drop_last());
        let p = spec_pow10((b.len() - 1) as nat);
        assert((va * p + vb) * 10 + spec_dig_val(b.last()) == va * (10 * p) + (vb * 10
            + spec_dig_val(b.last()))) by (nonlinear_arith);
    }
}

/// The length of the digit run of `t` starting at `from`.
fn digit_run(t: &str, from: usize) -> (n: usize)
    requires
        from <= t@.len(),
    ensures
        n == spec_digit_run(t@, from as int),
        from + n <= t@.len(),
{
    proof {
        lemma_digit_run_props(t@, from as int);
    }
    let len = t.unicode_len();
    let mut i: usize = from;
    while i < len
        invariant
            from <= i <= len,
            len == t@.len(),
            spec_digit_run(t@, from as int) == (i - from) + spec_digit_run(t@, i as int),
        decreases len - i,
    {
        let u = t.get_char(i) as u32;
        if !(48 <= u && u <= 57) {
            return i - from;
        }
        i = i + 1;
    }
    i - from
}

/// Accumulates the value of the digits of `t` in `[from, to)` onto `acc`.
fn digits_value_range(t: &str, from: usize, to: usize, acc: u128) -> (v: u128)
    requires
        from <= to <= t@.len(),
        forall|j: int| from <= j < to ==> spec_is_dig(#[trigger] t@[j]),
        ((acc as int) + 1) * spec_pow10((to - from) as nat)
            <= 0x100000000000000000000000000000000,
    ensures
        v as int == (acc as int) * spec_pow10((to - from) as nat) + spec_digits_val(
            t@.subrange(from as int, to as int),
        ),
        (v as int) < ((acc as int) + 1) * spec_pow10((to - from) as nat),
{
    let mut i: usize = from;
    let mut v: u128 = acc;
    proof {
        assert(t@.subrange(from as int, from as int) =~= Seq::<char>::empty());
        lemma_pow10_pos((to - from) as nat);
    }
    while i < to
        invariant
            from <= i <= to <= t@.len(),
            forall|j: int| from <= j < to ==> spec_is_dig(#[trigger] t@[j]),
            v as int == (acc as int) * spec_pow10((i - from) as nat) + spec_digits_val(
                t@.subrange(from as int, i as int),
            ),
            ((v as int) + 1) * spec_pow10((to - i) as nat) <= 0x100000000000000000000000000000000,
        decreases to - i,
    {
        let c = t.get_char(i);
        let dv: u128 = (c as u32 as u128) - 48;
        proof {
            let sub = t@.subrange(from as int, i as int);
            let sub2 = t@.subrange(from as int, i as int + 1);
            assert(sub2.drop_last() =~= sub);
            assert(sub2.last() == t@[i as int]);
            lemma_pow10_pos((to - i - 1) as nat);
            let p1 = spec_pow10((to - i - 1) as nat);
            let vv = (v as int) * 10 + (dv as int);
            assert((vv + 1) * p1 <= ((v as int) + 1) * (10 * p1)) by (nonlinear_arith)
                requires
                    vv == (v as int) * 10 + (dv as int),
                    0 <= (dv as int) <= 9,
                    0 <= (v as int),
                    p1 >= 1,
            ;
            assert(10 * p1 == spec_pow10((to - i) as nat));
            assert(vv + 1 <= (vv + 1) * p1) by (nonlinear_arith)
                requires
                    p1 >= 1,
                    vv >= 0,
            ;
            assert((acc as int) * spec_pow10((i - from) as nat) * 10 == (acc as int) * (10
                * spec_pow10((i - from) as nat))) by (nonlinear_arith);
        }
        v = v * 10 + dv;
        i = i + 1;
    }
    proof {
        lemma_pow10_pos(0);
        let sub = t@.subrange(from as int, to as int);
        lemma_digits_val_bound(sub);
        assert((acc as int) * spec_pow10((to - from) as nat) + spec_digits_val(sub) < ((acc as int)
            + 1) * spec_pow10((to - from) as nat)) by (nonlinear_arith)
            requires
                spec_digits_val(sub) < spec_pow10((to - from) as nat),
        ;
    }
    v
}

/// The value of the exponent digits of `t` in `[from, to)`, unless it
/// exceeds 99999.
fn exp_value(t: &str, from: usize, to: usize) -> (v: Option<u64>)
    requires
        from <= to <= t@.len(),
        forall|j: int| from <= j < to ==> spec_is_dig(#[trigger] t@[j]),
    ensures
        match v {
            Some(x) => x as int == spec_digits_val(t@.subrange(from as int, to as int)) && x
                <= 99999,
            None => spec_digits_val(t@.subrange(from as int, to as int)) > 99999,
        },
{
    let mut i: usize = from;
    let mut v: u64 = 0;
    proof {
        assert(t@.subrange(from as int, from as int) =~= Seq::<char>::empty());
    }
    while i < to
        invariant
            from <= i <= to <= t@.len(),
            forall|j: int| from <= j < to ==> spec_is_dig(#[trigger] t@[j]),
            v as int == spec_digits_val(t@.subrange(from as int, i as int)),
            v <= 99999,
        decreases to - i,
    {
        let c = t.get_char(i);
        let dv: u64 = (c as u32 as u64) - 48;
        proof {
            let sub = t@.subrange(from as int, i as int);
            let sub2 = t@.subrange(from as int, i as int + 1);
            assert(sub2.drop_last() =~= sub);
            assert(sub2.last() == t@[i as int]);
        }
        v = v * 10 + dv;
        i = i + 1;
        if v > 99999 {
            proof {
                let done = t@.subrange(from as int, i as int);
                let rest = t@.subrange(i as int, to as int);
                assert(t@.subrange(from as int, to as int) =~= done + rest);
                lemma_digits_val_append(done, rest);
                assert(forall|j: int| 0 <= j < rest.len() ==> spec_is_dig(#[trigger] rest[j]));
                lemma_digits_val_bound(rest);
                lemma_pow10_pos(rest.len());
                assert(spec_digits_val(done) * spec_pow10(rest.len()) >= spec_digits_val(done))
                    by (nonlinear_arith)
                    requires
                        spec_digits_val(done) >= 0,
                        spec_pow10(rest.len()) >= 1,
                ;
            }
            return None;
        }
    }
    Some(v)
}

/// Computes `pow10(j)` as a machine integer.
fn pow10_u128(j: u32) -> (r: u128)
    requires
        j <= 38,
    ensures
        r as int == spec_pow10(j as nat),
{
    proof {
        lemma_pow10_39();
    }
    let mut r: u128 = 1;
    let mut i: u32 = 0;
    while i < j
        invariant
            i <= j <= 38,
            r as int == spec_pow10(i as nat),
        decreases j - i,
    {
        proof {
            lemma_pow10_increases((i + 1) as nat, 38);
            lemma_pow10_39();
        }
        r = r * 10;
        i = i + 1;
    }
    r
}

/// The fixed 6-decimal rendering of a decimal number text, when the text is
/// in the JSON number notation and within the supported range; `None`
/// otherwise.
pub open spec fn spec_fixed6_of_text(t: Seq<char>) -> Option<Seq<char>> {
    let neg = t.len() > 0 && t[0] == '-';
    let i0: int = if neg {
        1
    } else {
        0
    };
    let n1 = spec_digit_run(t, i0);
    let i1 = i0 + n1;
    let has_frac = i1 < t.len() && t[i1] == '.';
    let n2: int = if has_frac {
        spec_digit_run(t, i1 + 1)
    } else {
        0
    };
    let i2: int = if has_frac {
        i1 + 1 + n2
    } else {
        i1
    };
    let has_exp = i2 < t.len() && (t[i2] == 'e' || t[i2] == 'E');
    let eneg = has_exp && i2 + 1 < t.len() && t[i2 + 1] == '-';
    let epos = has_exp && i2 + 1 < t.len() && t[i2 + 1] == '+';
    let e0: int = if has_exp {
        if eneg || epos {
            i2 + 2
        } else {
            i2 + 1
        }
    } else {
        i2
    };
    let n3 = spec_digit_run(t, e0);
    let i3: int = if has_exp {
        e0 + n3
    } else {
        i2
    };
    if n1 == 0 || (has_frac && n2 == 0) || (has_exp && n3 == 0) || i3 != t.len() || n1 + n2 > 38 {
        None
    } else {
        let fd: Seq<char> = if has_frac {
            t.subrange(i1 + 1, i2)
        } else {
            Seq::empty()
        };
        let dv = spec_digits_val(t.subrange(i0, i1) + fd);
        let ev = spec_digits_val(t.subrange(e0, i3));
        if ev > 99999 {
            None
        } else {
            let k: int = 6 - n2 + (if eneg {
                -ev
            } else {
                ev
            });
            if k >= 0 {
                if dv * spec_pow10(k as nat) >= 0x100000000000000000000000000000000 {
                    None
                } else {
                    Some(spec_render_fixed6(neg, dv * spec_pow10(k as nat)))
                }
            } else {
                Some(spec_render_fixed6(neg, spec_rhe_div_pow10(dv, (-k) as nat)))
            }
        }
    }
}

/// Scales `dv` by ten to the `k`, unless the result reaches 2^128.
fn scale_up_pow10(dv: u128, k: i64) -> (r: Option<u128>)
    requires
        k >= 0,
    ensures
        match r {
            Some(c) => c as int == (dv as int) * spec_pow10(k as nat),
            None => (dv as int) * spec_pow10(k as nat) >= 0x100000000000000000000000000000000,
        },
{
    let mut c: u128 = dv;
    let mut q: i64 = 0;
    proof {
        assert(spec_pow10(0) == 1);
    }
    while q < k
        invariant
            0 <= q <= k,
            c as int == (dv as int) * spec_pow10(q as nat),
        decreases k - q,
    {
        proof {
            assert((dv as int) * spec_pow10((q + 1) as nat) == (c as int) * 10) by (
            nonlinear_arith)
                requires
                    c as int == (dv as int) * spec_pow10(q as nat),
                    spec_pow10((q + 1) as nat) == 10 * spec_pow10(q as nat),
            ;
        }
        if c > 0xffffffffffffffffffffffffffffffff / 10 {
            proof {
                lemma_pow10_increases((q + 1) as nat, k as nat);
                assert((dv as int) * spec_pow10(k as nat) >= (dv as int) * spec_pow10(
                    (q + 1) as nat,
                )) by (nonlinear_arith)
                    requires
                        (dv as int) >= 0,
                        spec_pow10(k as nat) >= spec_pow10((q + 1) as nat),
                ;
            }
            return None;
        }
        c = c * 10;
        q = q + 1;
    }
    Some(c)
}

/// Rounds `dv` down by ten to the `j`, to nearest, ties to even.
fn round_div_pow10(dv: u128, j: i64) -> (c: u128)
    requires
        j >= 1,
        (dv as int) < spec_pow10(38),
    ensures
        c as int == spec_rhe_div_pow10(dv as int, j as nat),
{
    if j >= 39 {
        proof {
            lemma_pow10_39();
            lemma_pow10_increases(39, j as nat);
            lemma_basic_div(dv as int, spec_pow10(j as nat));
            lemma_small_mod(dv as nat, spec_pow10(j as nat) as nat);
            assert(spec_rhe_div_pow10(dv as int, j as nat) == 0);
        }
        0
    } else {
        let den = pow10_u128(j as u32);
        proof {
            lemma_pow10_pos(j as nat);
        }
        let qq = dv / den;
        let rem = dv % den;
        proof {
            lemma_fundamental_div_mod(dv as int, den as int);
            lemma_pow10_39();
            lemma_pow10_increases(j as nat, 38);
            lemma_div_nonincreasing(dv as int, den as int);
        }
        let up: bool = 2 * rem > den || (2 * rem == den && qq % 2 == 1);
        let c = if up {
            qq + 1
        } else {
            qq
        };
        proof {
            assert(c as int == spec_rhe_div_pow10(dv as int, j as nat));
        }
        c
    }
}

/// Renders a decimal number text at fixed 6-decimal precision, per
/// `spec_fixed6_of_text`.
#[verifier::rlimit(100)]
pub fn fixed6_from_decimal_text(t: &str) -> (r: Option<String>)
    ensures
        match r {
            Some(s) => spec_fixed6_of_text(t@) == Some(s@),
            None => spec_fixed6_of_text(t@) is None,
        },
{
    let len = t.unicode_len();
    let neg = len > 0 && t.get_char(0) == '-';
    let i0: usize = if neg {
        1
    } else {
        0
    };
    let n1 = digit_run(t, i0);
    let i1 = i0 + n1;
    let has_frac = i1 < len && t.get_char(i1) == '.';
    let n2: usize = if has_frac {
        digit_run(t, i1 + 1)
    } else {
        0
    };
    let i2: usize = if has_frac {
        i1 + 1 + n2
    } else {
        i1
    };
    let has_exp = i2 < len && {
        let c = t.get_char(i2);
        c == 'e' || c == 'E'
    };
    let eneg = has_exp && i2 + 1 < len && t.get_char(i2 + 1) == '-';
    let epos = has_exp && i2 + 1 < len && t.get_char(i2 + 1) == '+';
    let e0: usize = if has_exp {
        if eneg || epos {
            i2 + 2
        } else {
            i2 + 1
        }
    } else {
        i2
    };
    if e0 > len {
        // only possible for a trailing exponent marker with sign; the run
        // check below cannot even start
        return None;
    }
    let n3 = digit_run(t, e0);
    let i3: usize = if has_exp {
        e0 + n3
    } else {
        i2
    };
    if n1 == 0 || (has_frac && n2 == 0) || (has_exp && n3 == 0) || i3 != len || n1 + n2 > 38 {
        return None;
    }
    proof {
        lemma_digit_run_props(t@, i0 as int);
        if has_frac {
            lemma_digit_run_props(t@, i1 as int + 1);
        }
        lemma_digit_run_props(t@, e0 as int);
        lemma_pow10_39();
        lemma_pow10_increases(n1 as nat, 38);
        lemma_pow10_increases(n2 as nat, 38);
        lemma_pow10_increases((n1 + n2) as nat, 38);
        lemma_pow10_pos(n1 as nat);
        lemma_pow10_pos(n2 as nat);
    }
    let dv1 = digits_value_range(t, i0, i1, 0);
    proof {
        lemma_pow10_adds(n1 as nat, n2 as nat);
        assert(((dv1 as int) + 1) * spec_pow10(n2 as nat) <= spec_pow10(n1 as nat) * spec_pow10(
            n2 as nat,
        )) by (nonlinear_arith)
            requires
                (dv1 as int) + 1 <= spec_pow10(n1 as nat),
                spec_pow10(n2 as nat) >= 1,
        ;
    }
    let dv: u128 = if has_frac {
        digits_value_range(t, i1 + 1, i2, dv1)
    } else {
        dv1
    };
    proof {
        let id = t@.subrange(i0 as int, i1 as int);
        let fd: Seq<char> = if has_frac {
            t@.subrange(i1 as int + 1, i2 as int)
        } else {
            Seq::empty()
        };
        if has_frac {
            lemma_digits_val_append(id, fd);
        } else {
            assert(id + fd =~= id);
        }
        assert(dv as int == spec_digits_val(id + fd));
        assert(forall|j: int| 0 <= j < (id + fd).len() ==> spec_is_dig(#[trigger] (id + fd)[j]));
        lemma_digits_val_bound(id + fd);
        lemma_pow10_increases((id + fd).len(), 38);
    }
    let ev = match exp_value(t, e0, i3) {
        Some(x) => x,
        None => {
            return None;
        },
    };
    let k: i64 = 6 - (n2 as i64) + (if eneg {
        -(ev as i64)
    } else {
        ev as i64
    });
    if k >= 0 {
        match scale_up_pow10(dv, k) {
            Some(c) => Some(render_fixed6_u128(neg, c)),
            None => None,
        }
    } else {
        let c = round_div_pow10(dv, -k);
        Some(render_fixed6_u128(neg, c))
    }
}

/// Renders the scaled value `c` (the value times one million) per
/// `spec_render_fixed6`.
fn render_fixed6_u128(neg: bool, c: u128) -> (s: String)
    ensures
        s@ == spec_render_fixed6(neg, c as int),
{
    proof {
        lemma_fundamental_div_mod(c as int, 1000000);
    }
    let ip = c / 1000000;
    let fr = (c % 1000000) as u64;
    render_fixed6(neg, ip, fr)
}

} // verus!
