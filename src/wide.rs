use vstd::arithmetic::div_mod::lemma_fundamental_div_mod_converse;
use vstd::prelude::*;

verus! {

/// 2^64 as an integer.
pub open spec fn pow64() -> int {
    0x1_0000_0000_0000_0000
}

/// 2^128 as an integer.
pub open spec fn pow128() -> int {
    pow64() * pow64()
}

/// An unsigned 256-bit integer, as a high and a low 128-bit half.
#[derive(Clone, Copy, Debug, PartialEq, Eq, Structural)]
pub struct U256 {
    pub hi: u128,
    pub lo: u128,
}

impl U256 {
    /// The number this value stands for.
    pub open spec fn value(self) -> nat {
        (self.hi as nat) * (pow128() as nat) + (self.lo as nat)
    }

    pub fn zero() -> (r: U256)
        ensures
            r.value() == 0,
    {
        U256 { hi: 0, lo: 0 }
    }

    pub fn one() -> (r: U256)
        ensures
            r.value() == 1,
    {
        U256 { hi: 0, lo: 1 }
    }

    pub fn from_u64(v: u64) -> (r: U256)
        ensures
            r.value() == v,
    {
        U256 { hi: 0, lo: v as u128 }
    }

    pub fn from_u128(v: u128) -> (r: U256)
        ensures
            r.value() == v,
    {
        U256 { hi: 0, lo: v }
    }

    pub fn is_zero(&self) -> (r: bool)
        ensures
            r == (self.value() == 0),
    {
        proof {
            lemma_value_bounds(*self);
        }
        self.hi == 0 && self.lo == 0
    }

    /// The sum of two values whose sum fits in 256 bits.
    pub fn add(&self, o: &U256) -> (r: U256)
        requires
            self.value() + o.value() < pow128() * pow128(),
        ensures
            r.value() == self.value() + o.value(),
    {
        let ghost (sh, sl, oh, ol) = (self.hi as int, self.lo as int, o.hi as int, o.lo as int);
        if self.lo <= u128::MAX - o.lo {
            proof {
                assert(sh + oh < pow128()) by (nonlinear_arith)
                    requires
                        sh * pow128() + sl + oh * pow128() + ol < pow128() * pow128(),
                        sl >= 0,
                        ol >= 0,
                        pow128() > 0,
                ;
                assert((sh + oh) * pow128() == sh * pow128() + oh * pow128()) by (nonlinear_arith);
            }
            U256 { hi: self.hi + o.hi, lo: self.lo + o.lo }
        } else {
            proof {
                assert(sh + oh + 1 < pow128()) by (nonlinear_arith)
                    requires
                        sh * pow128() + sl + oh * pow128() + ol < pow128() * pow128(),
                        sl + ol >= pow128(),
                        pow128() > 0,
                ;
                assert((sh + oh + 1) * pow128() == sh * pow128() + oh * pow128() + pow128())
                    by (nonlinear_arith);
            }
            U256 { hi: self.hi + o.hi + 1, lo: self.lo - (u128::MAX - o.lo) - 1 }
        }
    }

    /// The integer quotient by a non-zero 64-bit divisor.
    pub fn div_u64(&self, d: u64) -> (r: U256)
        requires
            d > 0,
        ensures
            r.value() == self.value() / (d as nat),
    {
        let p: u128 = 0x1_0000_0000_0000_0000;
        let dd: u128 = d as u128;
        let q_hi: u128 = self.hi / dd;
        let r1: u128 = self.hi % dd;
        let l1: u128 = self.lo / p;
        let l0: u128 = self.lo % p;
        proof {
            lemma_split_u128(self.lo);
            assert(r1 * p + l1 < dd * p) by (nonlinear_arith)
                requires
                    r1 < dd,
                    l1 < p,
            ;
            assert(dd * p <= pow128()) by (nonlinear_arith)
                requires
                    dd < p,
                    p == pow64(),
            ;
        }
        let n1: u128 = r1 * p + l1;
        let q1: u128 = n1 / dd;
        let r2: u128 = n1 % dd;
        proof {
            assert(r2 * p + l0 < dd * p) by (nonlinear_arith)
                requires
                    r2 < dd,
                    l0 < p,
            ;
        }
        let n0: u128 = r2 * p + l0;
        let q0: u128 = n0 / dd;
        let r3: u128 = n0 % dd;
        proof {
            assert(q1 < p) by (nonlinear_arith)
                requires
                    n1 < dd * p,
                    q1 == n1 / dd,
                    dd > 0,
            ;
            assert(q0 < p) by (nonlinear_arith)
                requires
                    n0 < dd * p,
                    q0 == n0 / dd,
                    dd > 0,
            ;
            assert(q1 * p + q0 < pow128()) by (nonlinear_arith)
                requires
                    q1 < p,
                    q0 < p,
                    p == pow64(),
            ;
        }
        let lo: u128 = q1 * p + q0;
        proof {
            let x = self.value() as int;
            let (hi, di) = (self.hi as int, dd as int);
            assert(hi == q_hi * di + r1) by (nonlinear_arith)
                requires
                    q_hi == hi / di,
                    r1 == hi % di,
                    di > 0,
            ;
            assert(n1 == q1 * di + r2) by (nonlinear_arith)
                requires
                    q1 == n1 / dd,
                    r2 == n1 % dd,
                    di == dd,
                    di > 0,
            ;
            assert(n0 == q0 * di + r3) by (nonlinear_arith)
                requires
                    q0 == n0 / dd,
                    r3 == n0 % dd,
                    di == dd,
                    di > 0,
            ;
            assert(x == (q_hi * pow128() + lo) * di + r3) by (nonlinear_arith)
                requires
                    x == hi * pow128() + l1 * p + l0,
                    pow128() == p * p,
                    hi == q_hi * di + r1,
                    n1 == r1 * p + l1,
                    n1 == q1 * di + r2,
                    n0 == r2 * p + l0,
                    n0 == q0 * di + r3,
                    lo == q1 * p + q0,
            ;
            lemma_fundamental_div_mod_converse(x, di, q_hi * pow128() + lo, r3 as int);
        }
        U256 { hi: q_hi, lo }
    }
}

/// A 128-bit value as two 64-bit halves.
proof fn lemma_split_u128(v: u128)
    ensures
        (v as int) / pow64() < pow64(),
        (v as int) % pow64() < pow64(),
        v == ((v as int) / pow64()) * pow64() + (v as int) % pow64(),
{
    let x = v as int;
    assert(x == (x / pow64()) * pow64() + x % pow64()) by (nonlinear_arith);
    assert(x % pow64() < pow64()) by (nonlinear_arith);
    assert(x / pow64() < pow64()) by (nonlinear_arith)
        requires
            0 <= x < pow64() * pow64(),
    ;
}

proof fn lemma_value_bounds(x: U256)
    ensures
        x.value() < pow128() * pow128(),
        x.value() == 0 <==> (x.hi == 0 && x.lo == 0),
{
    let (h, l) = (x.hi as int, x.lo as int);
    assert(h * pow128() + l < pow128() * pow128()) by (nonlinear_arith)
        requires
            0 <= h < pow128(),
            0 <= l < pow128(),
    ;
    assert(h > 0 ==> h * pow128() >= pow128()) by (nonlinear_arith)
        requires
            h >= 0,
    ;
}

/// The product of a 128-bit and a 64-bit value.
pub fn mul_u128_u64(a: u128, c: u64) -> (r: U256)
    ensures
        r.value() == a * c,
{
    let p: u128 = 0x1_0000_0000_0000_0000;
    let a0: u128 = a % p;
    let a1: u128 = a / p;
    let cc: u128 = c as u128;
    proof {
        lemma_split_u128(a);
        assert(a0 * cc < pow128()) by (nonlinear_arith)
            requires
                a0 < p,
                cc < p,
                p == pow64(),
        ;
        assert(a1 * cc < pow128()) by (nonlinear_arith)
            requires
                a1 < p,
                cc < p,
                p == pow64(),
        ;
    }
    let p0: u128 = a0 * cc;
    let p1: u128 = a1 * cc;
    proof {
        lemma_split_u128(p1);
        assert((p1 % p) * p < pow128()) by (nonlinear_arith)
            requires
                p1 % p < p,
                p == pow64(),
        ;
        assert(p1 / p + 1 < pow128()) by (nonlinear_arith)
            requires
                p1 / p < p,
                p == pow64(),
        ;
    }
    let t: u128 = (p1 % p) * p;
    let q: u128 = p1 / p;
    proof {
        assert((a as int) * (c as int) == q * pow128() + t + p0) by (nonlinear_arith)
            requires
                a == a1 * p + a0,
                p0 == a0 * cc,
                p1 == a1 * cc,
                cc == c,
                p1 == q * p + p1 % p,
                t == (p1 % p) * p,
                pow128() == p * p,
        ;
        assert((q + 1) * pow128() == q * pow128() + pow128()) by (nonlinear_arith);
    }
    if t <= u128::MAX - p0 {
        U256 { hi: q, lo: t + p0 }
    } else {
        U256 { hi: q + 1, lo: t - (u128::MAX - p0) - 1 }
    }
}

} // verus!
