//! Raw 32-bit float fields.
//!
//! The record formats carry IEEE 754 single-precision fields, but the decoded
//! records never do arithmetic on them: they are carried through to callers.
//! The library therefore keeps each such field as its raw bit pattern.  The
//! one place the format itself computes with a float value — a research id
//! stored in a float field and truncated to a 32-bit integer — is implemented
//! here over the bit pattern, in plain integer arithmetic.

use vstd::prelude::*;

verus! {

/// The raw IEEE 754 bit pattern of a single-precision float field.
#[derive(Clone, Copy, PartialEq, Eq, Structural, Debug)]
pub struct FloatBits(pub u32);

/// Two to the power `k`.
pub open spec fn two_pow(k: nat) -> int
    decreases k,
{
    if k == 0 {
        1
    } else {
        2 * two_pow((k - 1) as nat)
    }
}

pub proof fn lemma_two_pow_pos(k: nat)
    ensures
        two_pow(k) >= 1,
    decreases k,
{
    if k > 0 {
        lemma_two_pow_pos((k - 1) as nat);
    }
}

pub proof fn lemma_two_pow_increases(a: nat, b: nat)
    requires
        a <= b,
    ensures
        two_pow(a) <= two_pow(b),
    decreases b,
{
    if a < b {
        lemma_two_pow_increases(a, (b - 1) as nat);
        lemma_two_pow_pos((b - 1) as nat);
    }
}

pub proof fn lemma_two_pow_values()
    ensures
        two_pow(7) == 128,
        two_pow(8) == 256,
        two_pow(23) == 0x80_0000,
{
    assert(two_pow(0) == 1);
    assert(two_pow(1) == 2);
    assert(two_pow(2) == 4);
    assert(two_pow(3) == 8);
    assert(two_pow(4) == 16);
    assert(two_pow(5) == 32);
    assert(two_pow(6) == 64);
    assert(two_pow(7) == 128);
    assert(two_pow(8) == 256);
    assert(two_pow(9) == 512);
    assert(two_pow(10) == 1024);
    assert(two_pow(11) == 2048);
    assert(two_pow(12) == 4096);
    assert(two_pow(13) == 8192);
    assert(two_pow(14) == 16384);
    assert(two_pow(15) == 32768);
    assert(two_pow(16) == 65536);
    assert(two_pow(17) == 131072);
    assert(two_pow(18) == 262144);
    assert(two_pow(19) == 524288);
    assert(two_pow(20) == 1048576);
    assert(two_pow(21) == 2097152);
    assert(two_pow(22) == 4194304);
    assert(two_pow(23) == 0x80_0000);
}

/// The float's sign bit.
pub open spec fn sign_bit(b: u32) -> bool {
    b >= 0x8000_0000
}

/// The float's biased 8-bit exponent.
pub open spec fn exponent(b: u32) -> int {
    (b as int / 0x80_0000) % 0x100
}

/// The float's 23-bit fraction.
pub open spec fn fraction(b: u32) -> int {
    b as int % 0x80_0000
}

/// The magnitude of the encoded float, truncated toward zero.  Finite
/// numbers only (`exponent != 255`); subnormals truncate to zero.
pub open spec fn trunc_magnitude(b: u32) -> int {
    let e = exponent(b);
    if e < 127 {
        0
    } else if e <= 150 {
        (0x80_0000 + fraction(b)) / two_pow((150 - e) as nat)
    } else {
        (0x80_0000 + fraction(b)) * two_pow((e - 150) as nat)
    }
}

/// The value of the encoded float converted to `i32` the way Rust's `as`
/// cast is documented to do it: truncation toward zero, saturation at the
/// type's bounds, and zero for NaN.
pub open spec fn trunc_to_i32(b: u32) -> int {
    let e = exponent(b);
    if e == 255 {
        if fraction(b) != 0 {
            0
        } else if sign_bit(b) {
            -0x8000_0000
        } else {
            0x7FFF_FFFF
        }
    } else {
        let m = trunc_magnitude(b);
        let v: int = if sign_bit(b) {
            -m
        } else {
            m
        };
        if v < -0x8000_0000 {
            -0x8000_0000
        } else if v > 0x7FFF_FFFF {
            0x7FFF_FFFF
        } else {
            v
        }
    }
}

/// Two to the power `k`, executably.
fn pow2_u32(k: u32) -> (r: u32)
    requires
        k <= 23,
    ensures
        r as int == two_pow(k as nat),
        1 <= r <= 0x80_0000,
{
    proof {
        lemma_two_pow_values();
    }
    let mut r: u32 = 1;
    let mut i: u32 = 0;
    #[verifier::loop_isolation(false)]
    while i < k
        invariant
            i <= k,
            r as int == two_pow(i as nat),
            1 <= r <= 0x80_0000,
        decreases k - i,
    {
        proof {
            lemma_two_pow_increases((i + 1) as nat, 23);
        }
        r = r * 2;
        i = i + 1;
    }
    r
}

impl FloatBits {
    /// The encoded float value cast to `i32` with truncation and saturation.
    pub fn to_i32_trunc(&self) -> (r: i32)
        ensures
            r as int == trunc_to_i32(self.0),
    {
        let b = self.0;
        let neg = b >= 0x8000_0000;
        let e: u32 = (b / 0x80_0000) % 0x100;
        let frac: u32 = b % 0x80_0000;
        if e == 255 {
            if frac != 0 {
                0
            } else if neg {
                i32::MIN
            } else {
                i32::MAX
            }
        } else if e < 127 {
            0
        } else if e >= 158 {
            proof {
                lemma_two_pow_values();
                lemma_two_pow_increases(8, (e - 150) as nat);
                assert((0x80_0000 + fraction(b)) * two_pow((exponent(b) - 150) as nat)
                    >= 0x8000_0000) by (nonlinear_arith)
                    requires
                        fraction(b) >= 0,
                        two_pow((exponent(b) - 150) as nat) >= 256;
            }
            if neg {
                i32::MIN
            } else {
                i32::MAX
            }
        } else {
            let m: u32 = 0x80_0000 + frac;
            let t: u32 = if e <= 150 {
                let p = pow2_u32(150 - e);
                let q = m / p;
                proof {
                    assert(q <= m) by (nonlinear_arith)
                        requires
                            p >= 1,
                            m >= 0,
                            q == m as int / p as int;
                }
                q
            } else {
                let p = pow2_u32(e - 150);
                proof {
                    lemma_two_pow_values();
                    lemma_two_pow_increases((e - 150) as nat, 7);
                    assert(p as int == two_pow((e - 150) as nat));
                    assert(p <= 128);
                    assert((m as int) * (p as int) < 0x8000_0000) by (nonlinear_arith)
                        requires
                            m < 0x100_0000,
                            0 <= p <= 128;
                }
                m * p
            };
            if neg {
                -(t as i32)
            } else {
                t as i32
            }
        }
    }
}

} // verus!
