//! Modular arithmetic primitives: Euclidean remainder, modular
//! multiplication and modular exponentiation by squaring. Everything here is
//! exact with respect to the mathematical operations on `int`.

use vstd::prelude::*;

verus! {

use vstd::arithmetic::div_mod::{
    lemma_fundamental_div_mod,
    lemma_small_mod,
    lemma_mod_multiples_vanish,
    lemma_mul_mod_noop_general,
};
use vstd::arithmetic::power::{
    pow,
    lemma_pow0,
    lemma_pow1,
    lemma_pow_adds,
    lemma_pow_multiplies,
    lemma_pow_mod_noop,
    lemma_square_is_pow2,
};
use vstd::arithmetic::mul::lemma_mul_is_associative;

/// Euclidean remainder of `a` modulo `m`: the unique representative in
/// `[0, m)` of `a`'s residue class. Matches `%` on `int`, which is
/// Euclidean for a positive divisor.
pub(crate) fn euclid_rem(a: i128, m: i64) -> (r: i64)
    requires
        m >= 1,
        a > i128::MIN,
    ensures
        r == a as int % m as int,
        0 <= r < m,
{
    let mu: u128 = m as u128;
    if a >= 0 {
        ((a as u128) % mu) as i64
    } else {
        let n: u128 = (-a) as u128;
        let rem: u128 = n % mu;
        proof {
            let aa = a as int;
            let mm = m as int;
            let nn = n as int;
            let q0 = nn / mm;
            lemma_fundamental_div_mod(nn, mm);
            if rem == 0 {
                assert(aa == mm * (-q0) + 0) by (nonlinear_arith)
                    requires
                        nn == mm * q0 + rem as int,
                        rem == 0,
                        aa == -nn,
                ;
                lemma_mod_multiples_vanish(-q0, 0, mm);
                lemma_small_mod(0, mm as nat);
                assert(aa % mm == 0);
            } else {
                assert(aa == mm * (-q0 - 1) + (mm - rem)) by (nonlinear_arith)
                    requires
                        nn == mm * q0 + rem as int,
                        aa == -nn,
                ;
                lemma_mod_multiples_vanish(-q0 - 1, mm - rem, mm);
                lemma_small_mod((mm - rem) as nat, mm as nat);
                assert(aa % mm == mm - rem);
            }
        }
        if rem == 0 {
            0
        } else {
            (mu - rem) as i64
        }
    }
}

/// Modular product of two reduced residues: `(a * b) % m`, computed in
/// 128-bit intermediates so it can never overflow.
pub(crate) fn mul_mod(a: i64, b: i64, m: i64) -> (r: i64)
    requires
        m >= 1,
        0 <= a < m,
        0 <= b < m,
    ensures
        r == (a * b) % (m as int),
        0 <= r < m,
{
    proof {
        assert((a as int) * (b as int) < 0x4000_0000_0000_0000_0000_0000_0000_0000int)
            by (nonlinear_arith)
            requires
                0 <= a < 0x8000_0000_0000_0000int,
                0 <= b < 0x8000_0000_0000_0000int,
        ;
    }
    let p: u128 = (a as u128) * (b as u128);
    (p % (m as u128)) as i64
}

/// One square-and-multiply step preserves the running congruence
/// `acc * b^e == base^exp (mod m)`.
proof fn lemma_pow_mod_step(acc: int, b: int, e: nat, m: int)
    requires
        m >= 1,
        e > 0,
    ensures
        e % 2 == 1 ==> (((acc * b) % m) * pow((b * b) % m, e / 2)) % m == (acc * pow(b, e)) % m,
        e % 2 == 0 ==> (acc * pow((b * b) % m, e / 2)) % m == (acc * pow(b, e)) % m,
{
    let h = e / 2;
    let x = pow((b * b) % m, h);
    lemma_square_is_pow2(b);
    lemma_pow_mod_noop(b * b, h, m);
    lemma_pow_multiplies(b, 2, h);
    assert(x % m == pow(b, 2 * h) % m);
    if e % 2 == 0 {
        assert(2 * h == e);
        lemma_mul_mod_noop_general(acc, x, m);
        lemma_mul_mod_noop_general(acc, pow(b, e), m);
        assert((acc * x) % m == (acc * pow(b, e)) % m);
    } else {
        assert(2 * h + 1 == e);
        lemma_pow1(b);
        lemma_pow_adds(b, 1, 2 * h);
        assert(b * pow(b, 2 * h) == pow(b, e));
        lemma_mul_mod_noop_general(acc * b, x, m);
        lemma_mul_mod_noop_general(acc * b, pow(b, 2 * h), m);
        lemma_mul_is_associative(acc, b, pow(b, 2 * h));
        assert((((acc * b) % m) * x) % m == ((acc * b) * x) % m);
        assert(((acc * b) * x) % m == ((acc * b) * pow(b, 2 * h)) % m);
        assert(((acc * b) * pow(b, 2 * h)) % m == (acc * pow(b, e)) % m);
    }
}

/// Modular exponentiation by squaring: `base^exp % m`, with the base first
/// reduced into `[0, m)`.
pub(crate) fn pow_mod(base: i64, exp: u32, m: i64) -> (r: i64)
    requires
        m >= 1,
    ensures
        r == pow(base as int, exp as nat) % (m as int),
        0 <= r < m,
{
    let mut b = euclid_rem(base as i128, m);
    let mut e = exp;
    let mut acc: i64 = if m == 1 {
        0
    } else {
        1
    };
    proof {
        if m > 1 {
            lemma_small_mod(1, m as nat);
        }
        lemma_pow_mod_noop(base as int, exp as nat, m as int);
        lemma_mul_mod_noop_general(1, pow(b as int, exp as nat), m as int);
        assert(acc == 1int % m as int);
        lemma_mul_mod_noop_general(1int % m as int, pow(b as int, exp as nat), m as int);
    }
    while e > 0
        invariant
            m >= 1,
            0 <= b < m,
            0 <= acc < m,
            (acc * pow(b as int, e as nat)) % (m as int) == pow(base as int, exp as nat) % (
            m as int),
        decreases e,
    {
        let ghost acc0 = acc as int;
        let ghost b0 = b as int;
        let ghost e0 = e as nat;
        proof {
            lemma_pow_mod_step(acc0, b0, e0, m as int);
        }
        if e % 2 == 1 {
            acc = mul_mod(acc, b, m);
        }
        e = e / 2;
        if e > 0 {
            b = mul_mod(b, b, m);
        } else {
            proof {
                lemma_pow0(b0 * b0 % (m as int));
                lemma_pow0(b as int);
                lemma_small_mod(acc as nat, m as nat);
            }
        }
    }
    proof {
        lemma_pow0(b as int);
        lemma_small_mod(acc as nat, m as nat);
    }
    acc
}

} // verus!
