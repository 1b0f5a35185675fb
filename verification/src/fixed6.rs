//! Verified fixed-point rendering of IEEE-754 single-precision bit patterns.
//!
//! A telemetry frame carries the frequency as the four little-endian bytes of
//! a single-precision value. This crate holds no floating-point numbers, so
//! the value is kept as its bit pattern and rendered here, exactly, at fixed
//! 6-decimal precision: the represented value is `m * 2^E` for integers `m`
//! and `E` read from the bit fields, and the decimal text is computed from
//! those integers alone. Rounding of the sixth fractional digit is to
//! nearest, ties to the even neighbour.

use vstd::prelude::*;
use vstd::arithmetic::power2::{
    lemma2_to64, lemma2_to64_rest, lemma_pow2_adds, lemma_pow2_pos, lemma_pow2_strictly_increases,
    pow2,
};
use vstd::arithmetic::div_mod::{
    lemma_basic_div, lemma_div_nonincreasing, lemma_fundamental_div_mod,
    lemma_fundamental_div_mod_converse, lemma_hoist_over_denominator, lemma_mod_multiples_vanish,
    lemma_small_mod,
};
use crate::numfmt::{frac6, spec_dec_nat, spec_pad6, u128_to_dec};

verus! {

/// `n / pow2(d)` rounded to the nearest integer, ties to the even neighbour.
pub open spec fn spec_rhe_div_pow2(n: int, d: nat) -> int {
    let den = pow2(d) as int;
    let q = n / den;
    let r = n % den;
    if 2 * r > den {
        q + 1
    } else if 2 * r < den {
        q
    } else if q % 2 == 0 {
        q
    } else {
        q + 1
    }
}

/// The fixed 6-decimal rendering of the single-precision value with bit
/// pattern `bits`: sign, the integer part in decimal, a point, and the first
/// six fractional digits of the exact binary value, the last digit rounded to
/// nearest (ties to even). The non-finite encodings render as "inf", "-inf"
/// and "NaN".
pub open spec fn spec_fixed6_f32(bits: u32) -> Seq<char> {
    let sign = bits >= 0x80000000;
    let e = ((bits / 0x800000) % 256) as int;
    let f = (bits % 0x800000) as int;
    if e == 255 {
        if f != 0 {
            "NaN"@
        } else if sign {
            "-inf"@
        } else {
            "inf"@
        }
    } else {
        let m = if e == 0 {
            f
        } else {
            f + 0x800000
        };
        let ee = if e == 0 {
            1int
        } else {
            e
        };
        let c = if ee >= 150 {
            m * (pow2((ee - 150) as nat) as int) * 1000000
        } else {
            spec_rhe_div_pow2(m * 1000000, (150 - ee) as nat)
        };
        spec_render_fixed6(sign, c)
    }
}

/// The text "sign, integer digits, point, six fractional digits" for the
/// scaled value `c` = value times one million.
pub open spec fn spec_render_fixed6(neg: bool, c: int) -> Seq<char>
    recommends
        c >= 0,
{
    (if neg {
        seq!['-']
    } else {
        Seq::<char>::empty()
    }) + spec_dec_nat((c / 1000000) as nat) + seq!['.'] + spec_pad6((c % 1000000) as nat)
}

/// Renders the scaled value `ip * 1000000 + fr` per `spec_render_fixed6`.
pub fn render_fixed6(neg: bool, ip: u128, fr: u64) -> (s: String)
    requires
        fr < 1000000,
    ensures
        s@ == spec_render_fixed6(neg, (ip as int) * 1000000 + (fr as int)),
{
    proof {
        lemma_fundamental_div_mod_converse(
            (ip as int) * 1000000 + (fr as int),
            1000000,
            ip as int,
            fr as int,
        );
    }
    let ip_str = u128_to_dec(ip);
    let fr_str = frac6(fr);
    let mut s = String::new();
    if neg {
        s.append("-");
    }
    s.append(ip_str.as_str());
    s.append(".");
    s.append(fr_str.as_str());
    proof {
        reveal_strlit("-");
        reveal_strlit(".");
        assert(s@ =~= spec_render_fixed6(neg, (ip as int) * 1000000 + (fr as int)));
    }
    s
}

/// Computes `pow2(k)` as a machine integer.
fn pow2_u128(k: u32) -> (r: u128)
    requires
        k <= 127,
    ensures
        r as nat == pow2(k as nat),
{
    proof {
        lemma2_to64();
        lemma2_to64_rest();
        lemma_pow2_adds(64, 63);
    }
    let mut r: u128 = 1;
    let mut i: u32 = 0;
    while i < k
        invariant
            i <= k,
            k <= 127,
            r as nat == pow2(i as nat),
        decreases k - i,
    {
        proof {
            lemma_pow2_adds(i as nat, 1);
            lemma2_to64();
            lemma2_to64_rest();
            lemma_pow2_adds(64, 63);
            if (i as nat) + 1 < 127 {
                lemma_pow2_strictly_increases((i as nat) + 1, 127);
            }
        }
        r = r * 2;
        i = i + 1;
    }
    r
}

/// Splitting the dividend at a multiple of the power of two splits the
/// rounded quotient: the multiple passes through exactly, scaled by the
/// displayed precision.
proof fn lemma_rhe_split(mm: int, d: nat, ii: int, rr: int)
    requires
        0 <= rr < pow2(d),
        0 <= ii,
        mm == ii * (pow2(d) as int) + rr,
    ensures
        spec_rhe_div_pow2(mm * 1000000, d) == ii * 1000000 + spec_rhe_div_pow2(rr * 1000000, d),
{
    lemma_pow2_pos(d);
    let den = pow2(d) as int;
    let n1 = mm * 1000000;
    let n2 = rr * 1000000;
    assert(n1 == n2 + (ii * 1000000) * den) by (nonlinear_arith)
        requires
            mm == ii * den + rr,
            n1 == mm * 1000000,
            n2 == rr * 1000000,
    ;
    lemma_hoist_over_denominator(n2, ii * 1000000, pow2(d));
    lemma_mod_multiples_vanish(ii * 1000000, n2, den);
    let q2 = n2 / den;
    lemma_mod_multiples_vanish(ii * 500000, q2, 2);
    assert(n1 / den == ii * 1000000 + q2);
    assert(n1 % den == n2 % den);
    assert((ii * 1000000 + q2) % 2 == q2 % 2);
}

/// Splits `m` as `q * pow2(d) + r` with `r < pow2(d)`.
fn split_pow2(m: u128, d: u32) -> (res: (u128, u128))
    requires
        d <= 149,
        m < 0x1000000,
    ensures
        (m as int) == (res.0 as int) * (pow2(d as nat) as int) + (res.1 as int),
        0 <= (res.1 as int) < pow2(d as nat),
        res.0 <= m,
{
    if d >= 24 {
        proof {
            lemma2_to64();
            if (d as nat) > 24 {
                lemma_pow2_strictly_increases(24, d as nat);
            }
        }
        (0u128, m)
    } else {
        let den = pow2_u128(d);
        proof {
            lemma_pow2_pos(d as nat);
            lemma_fundamental_div_mod(m as int, den as int);
            assert((m / den) as int == (m as int) / (den as int));
            assert((m % den) as int == (m as int) % (den as int));
            assert((m as int) == ((m / den) as int) * (den as int) + ((m % den) as int));
            lemma_div_nonincreasing(m as int, den as int);
        }
        (m / den, m % den)
    }
}

/// Renders the single-precision value with bit pattern `bits` at fixed
/// 6-decimal precision, per `spec_fixed6_f32`.
pub fn fixed6_from_f32_bits(bits: u32) -> (s: String)
    ensures
        s@ == spec_fixed6_f32(bits),
{
    let sign = bits >= 0x80000000;
    let e: u32 = (bits / 0x800000) % 256;
    let f: u32 = bits % 0x800000;
    if e == 255 {
        proof {
            reveal_strlit("NaN");
            reveal_strlit("-inf");
            reveal_strlit("inf");
        }
        if f != 0 {
            String::from_str("NaN")
        } else if sign {
            String::from_str("-inf")
        } else {
            String::from_str("inf")
        }
    } else {
        let m: u128 = if e == 0 {
            f as u128
        } else {
            (f + 0x800000) as u128
        };
        let ee: u32 = if e == 0 {
            1
        } else {
            e
        };
        let (ip2, fr2): (u128, u64) = if ee >= 150 {
            let shift = ee - 150;
            let p = pow2_u128(shift);
            proof {
                lemma2_to64();
                lemma2_to64_rest();
                lemma_pow2_adds(64, 40);
                if (shift as nat) < 104 {
                    lemma_pow2_strictly_increases(shift as nat, 104);
                }
                assert((m as int) * (p as int) <= 0xffffffffffffffffffffffffffffffff) by (
                nonlinear_arith)
                    requires
                        0 <= (m as int) < 0x1000000,
                        0 <= (p as int) <= 0x100000000000000000000000000,
                ;
            }
            (m * p, 0u64)
        } else {
            let d: u32 = 150 - ee;
            let (ipart, rpart) = split_pow2(m, d);
            proof {
                lemma_pow2_pos(d as nat);
            }
            let fr: u64 = if d >= 45 {
                proof {
                    lemma2_to64();
                    lemma2_to64_rest();
                    if (d as nat) > 45 {
                        lemma_pow2_strictly_increases(45, d as nat);
                    }
                    let n2 = (rpart as int) * 1000000;
                    assert(n2 < pow2(44)) by (nonlinear_arith)
                        requires
                            0 <= (rpart as int) < 0x1000000,
                            n2 == (rpart as int) * 1000000,
                            pow2(44) == 0x100000000000,
                    ;
                    lemma_basic_div(n2, pow2(d as nat) as int);
                    lemma_small_mod(n2 as nat, pow2(d as nat));
                    assert(spec_rhe_div_pow2(n2, d as nat) == 0);
                }
                0u64
            } else {
                let den = pow2_u128(d);
                proof {
                    lemma2_to64();
                    lemma2_to64_rest();
                    if (d as nat) < 44 {
                        lemma_pow2_strictly_increases(d as nat, 44);
                    }
                    assert((rpart as int) * 1000000 < 0x10000000000000000) by (nonlinear_arith)
                        requires
                            0 <= (rpart as int) < (den as int),
                            (den as int) <= 0x100000000000,
                    ;
                }
                let num: u128 = rpart * 1000000;
                let q = num / den;
                let rem = num % den;
                proof {
                    lemma_fundamental_div_mod(num as int, den as int);
                    assert((q as int) < 1000000) by (nonlinear_arith)
                        requires
                            (num as int) == (q as int) * (den as int) + (rem as int),
                            0 <= (rem as int) < (den as int),
                            (num as int) < (den as int) * 1000000,
                            0 < (den as int),
                            0 <= (q as int),
                    ;
                }
                let q64: u64 = q as u64;
                let up: bool = 2 * rem > den || (2 * rem == den && q64 % 2 == 1);
                let frv = if up {
                    q64 + 1
                } else {
                    q64
                };
                proof {
                    assert((frv as int) == spec_rhe_div_pow2((rpart as int) * 1000000, d as nat));
                }
                frv
            };
            proof {
                lemma_rhe_split(m as int, d as nat, ipart as int, rpart as int);
            }
            if fr == 1000000 {
                (ipart + 1, 0u64)
            } else {
                (ipart, fr)
            }
        };
        proof {
            let e_s = ((bits / 0x800000) % 256) as int;
            let f_s = (bits % 0x800000) as int;
            let m_s = if e_s == 0 {
                f_s
            } else {
                f_s + 0x800000
            };
            let ee_s = if e_s == 0 {
                1int
            } else {
                e_s
            };
            let c = if ee_s >= 150 {
                m_s * (pow2((ee_s - 150) as nat) as int) * 1000000
            } else {
                spec_rhe_div_pow2(m_s * 1000000, (150 - ee_s) as nat)
            };
            assert(c == (ip2 as int) * 1000000 + (fr2 as int));
        }
        render_fixed6(sign, ip2, fr2)
    }
}

} // verus!
