//! A Chaum-Pedersen challenge engine whose challenge scalars come from the
//! process-wide random source, reduced into the group's scalar range.

use vstd::prelude::*;

use crate::crypto::ZKPAuth;
use crate::modmath::{euclid_rem, mul_mod, pow_mod};
use crate::zkp::chaum_pedersen::{exp_in_range, verify_check};

verus! {

use vstd::arithmetic::div_mod::lemma_mul_mod_noop_general;
use vstd::arithmetic::power::pow;

/// Relies on rand::random: a sample of the standard distribution of the
/// requested type. Nothing is promised of the value; callers normalize it
/// themselves.
pub assume_specification<T>[ rand::random::<T> ]() -> (r: T)
    where
        rand::distributions::Standard: rand::distributions::Distribution<T>,
;

/// The random-challenge engine over the group `(g, h, q)`.
pub struct ChaumPedersenProtocol {
    g: i64,
    h: i64,
    q: i64,
}

impl ChaumPedersenProtocol {
    /// The first generator.
    pub closed spec fn g(&self) -> i64 {
        self.g
    }

    /// The second generator.
    pub closed spec fn h(&self) -> i64 {
        self.h
    }

    /// The group modulus.
    pub closed spec fn q(&self) -> i64 {
        self.q
    }

    pub fn new(g: i64, h: i64, q: i64) -> (r: Self)
        ensures
            r.g() == g,
            r.h() == h,
            r.q() == q,
    {
        Self { g, h, q }
    }
}

impl ZKPAuth for ChaumPedersenProtocol {
    /// The engine is usable once the modulus is positive.
    open spec fn ready(&self) -> bool {
        self.q() >= 1
    }

    /// A drawn challenge lies in the scalar range `[0, q)`.
    open spec fn challenge_valid(&self, c: i64) -> bool {
        0 <= c < self.q()
    }

    /// Both verification equations hold, with exponents in the accepted
    /// 32-bit range: `g^s * y1^c == r1` and `h^s * y2^c == r2`, modulo `q`.
    open spec fn verify_spec(&self, y1: i64, y2: i64, r1: i64, r2: i64, c: i64, s: i64) -> bool {
        &&& exp_in_range(c as int)
        &&& exp_in_range(s as int)
        &&& verify_check(self.g() as int, y1 as int, r1 as int, c as nat, s as nat, self.q() as int)
        &&& verify_check(self.h() as int, y2 as int, r2 as int, c as nat, s as nat, self.q() as int)
    }

    /// Draws a random scalar and reduces it into `[0, q)`.
    fn create_auth_challenge(&self) -> (c: i64) {
        if self.q < 1 {
            return 0;
        }
        let raw: i64 = rand::random::<i64>();
        euclid_rem(raw as i128, self.q)
    }

    /// Checks the two verification equations, rejecting exponents outside
    /// the accepted range.
    fn verify_auth_challenge(&self, y1: i64, y2: i64, r1: i64, r2: i64, c: i64, s: i64) -> (r:
        bool) {
        if c < 0 || c > u32::MAX as i64 || s < 0 || s > u32::MAX as i64 {
            return false;
        }
        let test_left_r1 = pow_mod(self.g, s as u32, self.q);
        let test_right_r1 = pow_mod(y1, c as u32, self.q);
        let test_r1 = mul_mod(test_left_r1, test_right_r1, self.q);
        let test_left_r2 = pow_mod(self.h, s as u32, self.q);
        let test_right_r2 = pow_mod(y2, c as u32, self.q);
        let test_r2 = mul_mod(test_left_r2, test_right_r2, self.q);
        proof {
            lemma_mul_mod_noop_general(
                pow(self.g as int, s as nat),
                pow(y1 as int, c as nat),
                self.q as int,
            );
            lemma_mul_mod_noop_general(
                pow(self.h as int, s as nat),
                pow(y2 as int, c as nat),
                self.q as int,
            );
        }
        test_r1 == r1 && test_r2 == r2
    }
}

} // verus!
