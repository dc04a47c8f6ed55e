use vstd::arithmetic::div_mod::{lemma_fundamental_div_mod, lemma_fundamental_div_mod_converse};
use vstd::arithmetic::power2::{lemma2_to64, lemma_pow2_adds, lemma_pow2_unfold, pow2};
use vstd::prelude::*;

verus! {

/// 2^64, the scale of a Q64.64 fixed-point number.
pub open spec fn q64() -> int {
    0x1_0000_0000_0000_0000int
}

/// 2^128, one past the largest `u128`.
pub open spec fn q128() -> int {
    0x1_0000_0000_0000_0000_0000_0000_0000_0000int
}

/// An unsigned 256-bit integer held as two 128-bit words.
#[derive(Clone, Copy)]
pub struct Wide {
    pub hi: u128,
    pub lo: u128,
}

impl Wide {
    pub open spec fn value(self) -> int {
        self.hi * q128() + self.lo
    }
}

proof fn lemma_split_product(a: int, b: int, a1: int, a0: int, b1: int, b0: int)
    requires
        a == a1 * q64() + a0,
        b == b1 * q64() + b0,
    ensures
        a * b == (a1 * b1) * q128() + (a1 * b0 + a0 * b1) * q64() + a0 * b0,
{
    assert(a * b == (a1 * b1) * (q64() * q64()) + (a1 * b0 + a0 * b1) * q64() + a0 * b0)
        by (nonlinear_arith)
        requires
            a == a1 * q64() + a0,
            b == b1 * q64() + b0,
    ;
}

proof fn lemma_word_product(x: int, y: int)
    requires
        0 <= x < q64(),
        0 <= y < q64(),
    ensures
        0 <= x * y < q128(),
{
    assert(0 <= x * y < q64() * q64()) by (nonlinear_arith)
        requires
            0 <= x < q64(),
            0 <= y < q64(),
    ;
    assert(q64() * q64() == q128());
}

/// The full 256-bit product of two `u128` values.
pub fn mul_wide(a: u128, b: u128) -> (r: Wide)
    ensures
        r.value() == a * b,
{
    let a1 = a / 0x1_0000_0000_0000_0000u128;
    let a0 = a % 0x1_0000_0000_0000_0000u128;
    let b1 = b / 0x1_0000_0000_0000_0000u128;
    let b0 = b % 0x1_0000_0000_0000_0000u128;
    proof {
        lemma_word_product(a0 as int, b0 as int);
        lemma_word_product(a0 as int, b1 as int);
        lemma_word_product(a1 as int, b0 as int);
        lemma_word_product(a1 as int, b1 as int);
        lemma_split_product(a as int, b as int, a1 as int, a0 as int, b1 as int, b0 as int);
    }
    let p00 = a0 * b0;
    let p01 = a0 * b1;
    let p10 = a1 * b0;
    let p11 = a1 * b1;
    let carry = p00 / 0x1_0000_0000_0000_0000u128;
    let lo0 = p00 % 0x1_0000_0000_0000_0000u128;
    let mid = p01 % 0x1_0000_0000_0000_0000u128 + p10 % 0x1_0000_0000_0000_0000u128 + carry;
    let lo = (mid % 0x1_0000_0000_0000_0000u128) * 0x1_0000_0000_0000_0000u128 + lo0;
    proof {
        assert(a * b < q128() * q128()) by (nonlinear_arith)
            requires
                a < q128(),
                b < q128(),
                a >= 0,
                b >= 0,
        ;
        let high: int = p11 as int + (p01 as int) / q64() + (p10 as int) / q64() + (mid as int) / q64();
        assert(a * b == high * q128() + lo);
        assert(high < q128()) by (nonlinear_arith)
            requires
                high * q128() + lo < q128() * q128(),
                lo >= 0,
        ;
    }
    let hi = p11 + p01 / 0x1_0000_0000_0000_0000u128 + p10 / 0x1_0000_0000_0000_0000u128 + mid
        / 0x1_0000_0000_0000_0000u128;
    Wide { hi, lo }
}

proof fn lemma_pow2_128()
    ensures
        pow2(128) == q128(),
        pow2(64) == q64(),
{
    lemma2_to64();
    lemma_pow2_adds(64, 64);
}

proof fn lemma_take_top_bit(low: int, w: int, s: int, rest: int) -> (top: int)
    requires
        w % 2 == 0,
        w >= 2,
        s >= 1,
        s * w == q128(),
        0 <= low < w,
        rest == low * s,
    ensures
        top == low / (w / 2),
        top == 0 || top == 1,
        rest / (q128() / 2) == top,
        rest % (q128() / 2) == (low % (w / 2)) * s,
        (low % (w / 2)) * (2 * s) < q128(),
{
    let half = w / 2;
    lemma_fundamental_div_mod(low, half);
    let top = low / half;
    let rem = low % half;
    assert(s * half == q128() / 2) by (nonlinear_arith)
        requires
            s * w == q128(),
            w == 2 * half,
    ;
    assert(0 <= top < 2) by (nonlinear_arith)
        requires
            low == half * top + rem,
            0 <= rem < half,
            0 <= low < 2 * half,
    ;
    assert(rest == top * (q128() / 2) + rem * s) by (nonlinear_arith)
        requires
            rest == low * s,
            low == half * top + rem,
            s * half == q128() / 2,
    ;
    assert(0 <= rem * s < q128() / 2) by (nonlinear_arith)
        requires
            0 <= rem < half,
            s >= 1,
            s * half == q128() / 2,
    ;
    lemma_fundamental_div_mod_converse(rest, q128() / 2, top, rem * s);
    assert(rem * (2 * s) < q128()) by (nonlinear_arith)
        requires
            0 <= rem * s < q128() / 2,
    ;
    top
}

/// Quotient and remainder of a 256-bit value by a `u128` divisor whose quotient fits
/// in 128 bits, by restoring long division one bit at a time.
pub fn div_rem_wide(n: Wide, d: u128) -> (res: (u128, u128))
    requires
        n.hi < d,
    ensures
        res.0 == n.value() / (d as int),
        res.1 == n.value() % (d as int),
{
    let mut q: u128 = 0;
    let mut r: u128 = n.hi;
    let mut rest: u128 = n.lo;
    let mut k: u32 = 0;
    let ghost mut p: int = n.hi as int;
    let ghost mut low: int = n.lo as int;
    let ghost mut w: int = q128();
    let ghost mut s: int = 1;
    proof {
        lemma_pow2_128();
        lemma2_to64();

    }
    while k < 128
        invariant
            k <= 128,
            d > 0,
            w == pow2((128 - k) as nat),
            s == pow2(k as nat),
            s * w == q128(),
            0 <= low < w,
            rest as int == low * s,
            n.value() == p * w + low,
            p == q * d + r,
            r < d,
            q < s,
        decreases 128 - k,
    {
        proof {
            lemma_pow2_unfold((128 - k) as nat);
            lemma_pow2_unfold((k + 1) as nat);
            vstd::arithmetic::power2::lemma_pow2_pos((128 - k - 1) as nat);
            vstd::arithmetic::power2::lemma_pow2_pos(k as nat);
        }
        let ghost half = w / 2;
        let ghost top_val = lemma_take_top_bit(low, w, s, rest as int);
        proof {
            assert(s <= q128() / 2) by (nonlinear_arith)
                requires
                    s * w == q128(),
                    w >= 2,
                    s >= 1,
            ;
        }
        let top: u128 = rest / 0x8000_0000_0000_0000_0000_0000_0000_0000u128;
        let shifted: u128 = rest % 0x8000_0000_0000_0000_0000_0000_0000_0000u128;
        rest = shifted * 2;
        let ghost old_q = q;
        let ghost old_r = r;
        let gap = d - r;
        let rt = r + top;
        if rt >= gap {
            r = rt - gap;
            q = q * 2 + 1;
        } else {
            r = r + rt;
            q = q * 2;
        }
        proof {
            let rem = low % half;
            assert(low == half * top_val + rem) by {
                lemma_fundamental_div_mod(low, half);
            }
            assert(n.value() == (2 * p + top_val) * half + rem) by (nonlinear_arith)
                requires
                    n.value() == p * w + low,
                    w == 2 * half,
                    low == half * top_val + rem,
            ;
            assert(2 * p + top_val == q * d + r) by (nonlinear_arith)
                requires
                    p == old_q * d + old_r,
                    top_val == top,
                    (q == 2 * old_q + 1 && r == 2 * old_r + top - d) || (q == 2 * old_q && r == 2
                        * old_r + top),
            ;
            assert((2 * s) * half == q128()) by (nonlinear_arith)
                requires
                    s * w == q128(),
                    w == 2 * half,
            ;
            assert(rest as int == rem * (2 * s)) by (nonlinear_arith)
                requires
                    rest == shifted * 2,
                    shifted == rem * s,
            ;
            p = 2 * p + top_val;
            low = rem;
            w = half;
            s = 2 * s;
        }
        k = k + 1;
    }
    proof {
        lemma2_to64();
        assert(w == 1);
        assert(low == 0);
        assert(p * w == p) by (nonlinear_arith)
            requires
                w == 1,
        ;
        assert(n.value() == p);
        lemma_fundamental_div_mod_converse(n.value(), d as int, q as int, r as int);
    }
    (q, r)
}

/// `floor(a * b / d)`, or `None` when that quotient does not fit in 128 bits.
pub fn mul_div_floor(a: u128, b: u128, d: u128) -> (r: Option<u128>)
    requires
        d > 0,
    ensures
        a * b / (d as int) < q128() ==> r == Some((a * b / (d as int)) as u128),
        a * b / (d as int) >= q128() ==> r is None,
{
    let product = mul_wide(a, b);
    proof {
        lemma_quotient_fits(product.hi as int, product.lo as int, d as int);
    }
    if product.hi >= d {
        None
    } else {
        let (q, _) = div_rem_wide(product, d);
        Some(q)
    }
}

/// The 256-bit product of a 256-bit value and a `u64`, or `None` when it needs more bits.
pub fn mul_wide_u64(w: Wide, m: u64) -> (r: Option<Wide>)
    ensures
        w.value() * m < q128() * q128() ==> r == Some(Wide { hi: ((w.value() * m) / q128()) as u128, lo: ((w.value() * m) % q128()) as u128 }),
        r is Some ==> r->Some_0.value() == w.value() * m,
        w.value() * m >= q128() * q128() ==> r is None,
{
    let low = mul_wide(w.lo, m as u128);
    let high = mul_wide(w.hi, m as u128);
    proof {
        assert(w.value() * m == (high.hi * q128() + high.lo + low.hi) * q128() + low.lo) by (nonlinear_arith)
            requires
                w.value() == w.hi * q128() + w.lo,
                low.value() == w.lo * m,
                high.value() == w.hi * m,
                low.value() == low.hi * q128() + low.lo,
                high.value() == high.hi * q128() + high.lo,
        ;
    }
    if high.hi != 0 {
        proof {
            assert(w.value() * m >= q128() * q128()) by (nonlinear_arith)
                requires
                    w.value() * m == (high.hi * q128() + high.lo + low.hi) * q128() + low.lo,
                    high.hi >= 1,
                    high.lo >= 0,
                    low.hi >= 0,
                    low.lo >= 0,
            ;
        }
        return None;
    }
    match high.lo.checked_add(low.hi) {
        None => {
            proof {
                assert(w.value() * m >= q128() * q128()) by (nonlinear_arith)
                    requires
                        w.value() * m == (high.lo + low.hi) * q128() + low.lo,
                        high.lo + low.hi >= q128(),
                        low.lo >= 0,
                ;
            }
            None
        },
        Some(hi) => {
            let r = Wide { hi, lo: low.lo };
            proof {
                vstd::arithmetic::div_mod::lemma_fundamental_div_mod_converse(
                    w.value() * m,
                    q128(),
                    hi as int,
                    low.lo as int,
                );
            }
            Some(r)
        },
    }
}

/// A 256-bit value divided by `d` fits in 128 bits exactly when its high word is below `d`.
pub proof fn lemma_quotient_fits(hi: int, lo: int, d: int)
    requires
        0 <= lo < q128(),
        hi >= 0,
        d > 0,
    ensures
        (hi * q128() + lo) / d < q128() <==> hi < d,
{
    let v = hi * q128() + lo;
    lemma_fundamental_div_mod(v, d);
    if hi < d {
        assert(v < d * q128()) by (nonlinear_arith)
            requires
                hi < d,
                v == hi * q128() + lo,
                lo < q128(),
        ;
        assert(v / d < q128()) by (nonlinear_arith)
            requires
                v < d * q128(),
                v == d * (v / d) + v % d,
                v % d >= 0,
                d > 0,
        ;
    } else {
        assert(v >= d * q128()) by (nonlinear_arith)
            requires
                hi >= d,
                v == hi * q128() + lo,
                lo >= 0,
        ;
        assert(v / d >= q128()) by (nonlinear_arith)
            requires
                v >= d * q128(),
                v == d * (v / d) + v % d,
                v % d < d,
                d > 0,
        ;
    }
}

} // verus!
