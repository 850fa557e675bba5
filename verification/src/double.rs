//! Doubles as bit patterns: how the interpreter converts between `int` and `float`.
//!
//! A double is held by the 64 bits of its IEEE 754 representation: one sign bit, eleven
//! bits of exponent with a bias of 1023, and 52 bits of fraction below an implied
//! leading one.

use crate::python::ExcType;
use vstd::prelude::*;

verus! {

/// Two to the power 52: the implied leading bit of a fraction.
pub const TWO52: u64 = 0x10_0000_0000_0000;

/// Two to the power 53: the first integer that has a neighbour no double can hold.
pub const TWO53: u64 = 0x20_0000_0000_0000;

/// Two to the power 63: the sign bit.
pub const TWO63: u64 = 0x8000_0000_0000_0000;

/// The bits of an infinite double, without the sign.
pub const INFINITY: u64 = 0x7ff0_0000_0000_0000;

/// The bits of the largest finite number that a single holds, as a double.
pub const SINGLE_MAX: u64 = 0x47ef_ffff_e000_0000;

/// The largest magnitude that an `int` has here.
pub const MAX_MAGNITUDE: u128 = 0x7fff_ffff_ffff_ffff_ffff_ffff_ffff_ffff;

/// Two to the power `k`.
pub open spec fn pow2(k: nat) -> nat
    decreases k,
{
    if k == 0 {
        1
    } else {
        2 * pow2((k - 1) as nat)
    }
}

/// The number of binary digits of `m`.
pub open spec fn bit_length(m: nat) -> nat
    decreases m,
{
    if m == 0 {
        0
    } else {
        1 + bit_length(m / 2)
    }
}

/// The bits of the double nearest to the integer `n`; of two that are equally near, the
/// one whose fraction is even.
pub open spec fn double_of_int(n: int) -> int {
    if n == 0 {
        0
    } else {
        let m = (if n < 0 {
            -n
        } else {
            n
        }) as nat;
        let k = bit_length(m);
        let sign: int = if n < 0 {
            TWO63 as int
        } else {
            0
        };
        if k <= 53 {
            sign + (k - 1 + 1023) * TWO52 + (m * pow2((53 - k) as nat) - TWO52)
        } else {
            let d = pow2((k - 53) as nat);
            let q = m / d;
            let rem = m % d;
            let q = if 2 * rem > d || (2 * rem == d && q % 2 == 1) {
                q + 1
            } else {
                q
            };
            if q == TWO53 {
                sign + (k + 1023) * TWO52
            } else {
                sign + (k - 1 + 1023) * TWO52 + (q - TWO52)
            }
        }
    }
}

/// The integer that the double with the bits `bits` is cut down to, towards zero; an
/// `OverflowError` for an infinity and a `ValueError` for what is no number. Beyond
/// [`MAX_MAGNITUDE`] the result is of that magnitude.
pub open spec fn int_of_double(bits: u64) -> Result<int, ExcType> {
    let rest = bits % TWO63;
    let e = rest / TWO52;
    let frac = rest % TWO52;
    if e == 2047 {
        if frac == 0 {
            Err(ExcType::OverflowError)
        } else {
            Err(ExcType::ValueError)
        }
    } else if e < 1023 {
        Ok(0)
    } else {
        let mant = TWO52 + frac;
        let mag: int = if e >= 1075 {
            mant * pow2((e - 1075) as nat)
        } else {
            mant / pow2((1075 - e) as nat) as int
        };
        let mag: int = if mag > MAX_MAGNITUDE {
            MAX_MAGNITUDE as int
        } else {
            mag
        };
        Ok(if bits >= TWO63 {
            -mag
        } else {
            mag
        })
    }
}

/// Whether the double with the bits `bits` is within the range of a single: its magnitude
/// is at most that of the largest finite single, or it is an infinity or no number,
/// which a single holds as well.
pub open spec fn fits_single(bits: u64) -> bool {
    bits % TWO63 <= SINGLE_MAX || bits % TWO63 >= INFINITY
}

/// Whether the double with the bits `bits` is within the range of a single.
pub fn double_fits_single(bits: u64) -> (b: bool)
    ensures
        b == fits_single(bits),
{
    let magnitude = bits % TWO63;
    magnitude <= SINGLE_MAX || magnitude >= INFINITY
}

/// Powers of two multiply by adding their exponents.
pub proof fn lemma_pow2_add(a: nat, b: nat)
    ensures
        pow2(a + b) == pow2(a) * pow2(b),
    decreases a,
{
    if a > 0 {
        lemma_pow2_add((a - 1) as nat, b);
        assert(2 * (pow2((a - 1) as nat) * pow2(b)) == (2 * pow2((a - 1) as nat)) * pow2(b))
            by (nonlinear_arith);
    } else {
        assert(pow2(0) * pow2(b) == pow2(b)) by (nonlinear_arith)
            requires
                pow2(0) == 1,
        ;
    }
}

/// A larger exponent gives a power of two that is no smaller.
pub proof fn lemma_pow2_monotonic(a: nat, b: nat)
    requires
        a <= b,
    ensures
        pow2(a) <= pow2(b),
        pow2(a) >= 1,
    decreases b,
{
    if a < b {
        lemma_pow2_monotonic(a, (b - 1) as nat);
    } else if a > 0 {
        lemma_pow2_monotonic((a - 1) as nat, (a - 1) as nat);
    }
}

/// The powers of two that the layout of a double is made of.
pub proof fn lemma_pow2_values()
    ensures
        pow2(11) == 2048,
        pow2(52) == TWO52,
        pow2(53) == TWO53,
        pow2(63) == TWO63,
        pow2(64) == 0x1_0000_0000_0000_0000,
        pow2(74) == 0x400_0000_0000_0000_0000,
        pow2(75) == 0x800_0000_0000_0000_0000,
        pow2(127) == MAX_MAGNITUDE + 1,
{
    reveal_with_fuel(pow2, 12);
    lemma_pow2_add(10, 10);
    assert(pow2(20) == 0x10_0000);
    lemma_pow2_add(20, 20);
    lemma_pow2_add(40, 11);
    lemma_pow2_add(51, 1);
    lemma_pow2_add(52, 1);
    lemma_pow2_add(52, 11);
    lemma_pow2_add(63, 1);
    lemma_pow2_add(64, 10);
    lemma_pow2_add(74, 1);
    lemma_pow2_add(64, 63);
    assert(0x1_0000_0000_0000_0000int * 0x8000_0000_0000_0000int
        == 0x8000_0000_0000_0000_0000_0000_0000_0000int) by (nonlinear_arith);
}

/// A positive number lies between the two powers of two that its number of digits
/// gives.
pub proof fn lemma_bit_length_bounds(m: nat)
    requires
        m > 0,
    ensures
        bit_length(m) >= 1,
        pow2((bit_length(m) - 1) as nat) <= m < pow2(bit_length(m)),
    decreases m,
{
    if m / 2 > 0 {
        lemma_bit_length_bounds(m / 2);
    } else {
        assert(bit_length(1) == 1 + bit_length(0));
    }
}

/// One shifted left by `k` places is two to the power `k`.
pub proof fn lemma_shl_is_pow2(k: u32)
    requires
        k <= 127,
    ensures
        (1u128 << k) == pow2(k as nat),
    decreases k,
{
    if k == 0 {
        assert((1u128 << 0u32) == 1) by (bit_vector);
    } else {
        let j = (k - 1) as u32;
        lemma_shl_is_pow2(j);
        assert((1u128 << k) == 2 * (1u128 << j)) by (bit_vector)
            requires
                1 <= k <= 127,
                j == k - 1,
        ;
    }
}

/// The number of binary digits of `m`.
pub fn bit_len(m: u128) -> (k: u32)
    ensures
        k == bit_length(m as nat),
        k <= 128,
{
    let mut t: u128 = m;
    let mut k: u32 = 0;
    assert(pow2(0) == 1);
    while t > 0
        invariant
            bit_length(m as nat) == k + bit_length(t as nat),
            k <= 128,
            k < 128 || t == 0,
            t as nat * pow2(k as nat) <= m,
        decreases t,
    {
        proof {
            lemma_pow2_values();
            lemma_pow2_add(k as nat, 1);
            assert(pow2(1) == 2) by {
                reveal_with_fuel(pow2, 2);
            }
            assert((t / 2) as nat * pow2((k + 1) as nat) <= t as nat * pow2(k as nat))
                by (nonlinear_arith)
                requires
                    pow2((k + 1) as nat) == pow2(k as nat) * 2,
                    pow2(k as nat) >= 0,
            ;
            if k == 127 {
                lemma_pow2_add(127, 0);
                assert(t < 2) by (nonlinear_arith)
                    requires
                        t as nat * pow2(127) <= m,
                        m <= u128::MAX,
                        pow2(127) == 0x8000_0000_0000_0000_0000_0000_0000_0000,
                ;
            }
        }
        t = t / 2;
        k = k + 1;
    }
    k
}

/// The bits of the double that the interpreter makes of the `int` `n`.
pub fn double_from_int(n: i128) -> (bits: u64)
    ensures
        bits == double_of_int(n as int),
{
    if n == 0 {
        return 0;
    }
    let neg = n < 0;
    let m: u128 = if !neg {
        n as u128
    } else if n == i128::MIN {
        MAX_MAGNITUDE + 1
    } else {
        (-n) as u128
    };
    let sign: u64 = if neg {
        TWO63
    } else {
        0
    };
    let k = bit_len(m);
    proof {
        lemma_bit_length_bounds(m as nat);
        lemma_pow2_values();
    }
    if k <= 53 {
        let s: u32 = 53 - k;
        let p: u128 = 1u128 << s;
        proof {
            lemma_shl_is_pow2(s);
            lemma_pow2_add((k - 1) as nat, s as nat);
            lemma_pow2_add(k as nat, s as nat);
            lemma_pow2_monotonic(0, s as nat);
            assert(pow2((k - 1) as nat) * p <= m * p < pow2(k as nat) * p) by (nonlinear_arith)
                requires
                    pow2((k - 1) as nat) <= m < pow2(k as nat),
                    p >= 1,
            ;
        }
        let mant: u64 = (m * p) as u64;
        sign + (k as u64 - 1 + 1023) * TWO52 + (mant - TWO52)
    } else {
        let s: u32 = k - 53;
        let p: u128 = 1u128 << s;
        proof {
            lemma_shl_is_pow2(s);
            lemma_pow2_add(52, s as nat);
            lemma_pow2_add(53, s as nat);
            lemma_pow2_monotonic(0, s as nat);
            assert(TWO52 <= m / p < TWO53) by (nonlinear_arith)
                requires
                    TWO52 * p <= m < TWO53 * p,
                    p >= 1,
            ;
        }
        let q: u128 = m / p;
        let rem: u128 = m % p;
        let up = 2 * rem > p || (2 * rem == p && q % 2 == 1);
        let q: u64 = if up {
            (q + 1) as u64
        } else {
            q as u64
        };
        if q == TWO53 {
            sign + (k as u64 + 1023) * TWO52
        } else {
            sign + (k as u64 - 1 + 1023) * TWO52 + (q - TWO52)
        }
    }
}

/// The `int` that the interpreter makes of the double with the bits `bits`, or the
/// exception that it raises.
pub fn double_to_int(bits: u64) -> (r: Result<i128, ExcType>)
    ensures
        match int_of_double(bits) {
            Ok(n) => r == Ok::<i128, ExcType>(n as i128),
            Err(t) => r == Err::<i128, ExcType>(t),
        },
{
    let neg = bits >= TWO63;
    let rest = bits % TWO63;
    let e = rest / TWO52;
    let frac = rest % TWO52;
    if e == 2047 {
        if frac == 0 {
            Err(ExcType::OverflowError)
        } else {
            Err(ExcType::ValueError)
        }
    } else if e < 1023 {
        Ok(0)
    } else {
        let mant: u128 = (TWO52 + frac) as u128;
        proof {
            lemma_pow2_values();
        }
        let mag: u128 = if e >= 1075 {
            let t: u32 = (e - 1075) as u32;
            if t > 74 {
                proof {
                    lemma_pow2_monotonic(75, t as nat);
                    assert(mant * pow2(t as nat) > MAX_MAGNITUDE) by (nonlinear_arith)
                        requires
                            mant >= 0x10_0000_0000_0000,
                            pow2(t as nat) >= 0x800_0000_0000_0000_0000,
                            MAX_MAGNITUDE == 0x7fff_ffff_ffff_ffff_ffff_ffff_ffff_ffff,
                    ;
                }
                MAX_MAGNITUDE
            } else {
                let p: u128 = 1u128 << t;
                proof {
                    lemma_shl_is_pow2(t);
                    lemma_pow2_monotonic(t as nat, 74);
                    assert(mant * p <= MAX_MAGNITUDE) by (nonlinear_arith)
                        requires
                            mant < 0x20_0000_0000_0000,
                            0 <= p <= 0x400_0000_0000_0000_0000,
                            MAX_MAGNITUDE == 0x7fff_ffff_ffff_ffff_ffff_ffff_ffff_ffff,
                    ;
                }
                mant * p
            }
        } else {
            let t: u32 = (1075 - e) as u32;
            let p: u128 = 1u128 << t;
            proof {
                lemma_shl_is_pow2(t);
                lemma_pow2_monotonic(0, t as nat);
            }
            mant / p
        };
        if neg {
            Ok(-(mag as i128))
        } else {
            Ok(mag as i128)
        }
    }
}

} // verus!
