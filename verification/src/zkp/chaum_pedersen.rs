//! The Chaum-Pedersen sigma protocol over a group defined by two generators
//! `g`, `h` and a modulus `q`. Every exponentiation and multiplication is
//! reduced modulo `q` at each step; the response is normalized into
//! `[0, q)`.

use vstd::prelude::*;

use crate::crypto::ZKPAuth;
use crate::modmath::{euclid_rem, mul_mod, pow_mod};
use crate::zkp::ZKPError;

verus! {

use vstd::arithmetic::div_mod::{lemma_small_mod, lemma_mul_mod_noop_general};
use vstd::arithmetic::power::{
    pow,
    lemma_pow_adds,
    lemma_pow_multiplies,
    lemma_pow_mod_noop,
    lemma_pow_positive,
    lemma_pow_strictly_increases,
};
use vstd::arithmetic::mul::{lemma_mul_is_commutative, lemma_mul_strict_inequality};

/// The engine casts exponents to 32 bits; this is the range it accepts.
pub open spec fn exp_in_range(e: int) -> bool {
    0 <= e <= u32::MAX
}

/// The normalized response to challenge `c`: `(k - c * x) mod q`, the
/// Euclidean representative in `[0, q)`.
pub open spec fn response_value(k: int, c: int, x: int, q: int) -> int {
    (k - c * x) % q
}

/// One half of the verification equation: `g^s * y^c mod q == r`.
pub open spec fn verify_check(g: int, y: int, r: int, c: nat, s: nat, q: int) -> bool {
    (pow(g, s) * pow(y, c)) % q == r
}

/// The fixed challenge scalar this engine hands out in place of a random
/// draw.
pub open spec fn placeholder_challenge() -> i64 {
    2
}

/// The public protocol parameters: two generators and the modulus.
pub struct Context {
    g: i64,
    h: i64,
    q: i64,
}

impl Context {
    /// The first generator.
    pub closed spec fn g(&self) -> i64 {
        self.g
    }

    /// The second generator.
    pub closed spec fn h(&self) -> i64 {
        self.h
    }

    /// The group modulus.
    pub closed spec fn q(&self) -> i64 {
        self.q
    }

    pub fn new(g: i64, h: i64, q: i64) -> (r: Self)
        ensures
            r.g() == g,
            r.h() == h,
            r.q() == q,
    {
        Self { g, h, q }
    }

    /// Reads the first generator.
    pub fn generator1(&self) -> (r: i64)
        ensures
            r == self.g(),
    {
        self.g
    }

    /// Reads the second generator.
    pub fn generator2(&self) -> (r: i64)
        ensures
            r == self.h(),
    {
        self.h
    }

    /// Reads the group modulus.
    pub fn modulus(&self) -> (r: i64)
        ensures
            r == self.q(),
    {
        self.q
    }
}

/// The protocol engine: pure functions for the four sigma-protocol steps,
/// evaluated over a fixed [`Context`].
pub struct ChaumPedersenProtocol {
    ctx: Context,
}

impl ChaumPedersenProtocol {
    /// The first generator of the underlying context.
    pub closed spec fn g(&self) -> i64 {
        self.ctx.g
    }

    /// The second generator of the underlying context.
    pub closed spec fn h(&self) -> i64 {
        self.ctx.h
    }

    /// The group modulus of the underlying context.
    pub closed spec fn q(&self) -> i64 {
        self.ctx.q
    }

    pub fn new(ctx: Context) -> (r: Self)
        ensures
            r.g() == ctx.g(),
            r.h() == ctx.h(),
            r.q() == ctx.q(),
    {
        Self { ctx }
    }

    /// Computes the response `(k - c * x) mod q`, normalized into `[0, q)`.
    /// Fails exactly when the modulus is not positive.
    pub fn calculate_challenge(&self, k: i64, c: i64, x: i64) -> (r: Result<i64, ZKPError>)
        ensures
            match r {
                Ok(s) => self.q() >= 1 && s == response_value(
                    k as int,
                    c as int,
                    x as int,
                    self.q() as int,
                ) && 0 <= s < self.q(),
                Err(ZKPError::MathOverflow) => self.q() < 1,
                Err(ZKPError::CastError) => false,
            },
    {
        if self.ctx.q < 1 {
            return Err(ZKPError::MathOverflow);
        }
        proof {
            assert((c as int) * (x as int) <= 0x4000_0000_0000_0000_0000_0000_0000_0000int
                && (c as int) * (x as int) >= -0x4000_0000_0000_0000_0000_0000_0000_0000int)
                by (nonlinear_arith)
                requires
                    -0x8000_0000_0000_0000int <= c <= 0x8000_0000_0000_0000int,
                    -0x8000_0000_0000_0000int <= x <= 0x8000_0000_0000_0000int,
            ;
        }
        let prod: i128 = (c as i128) * (x as i128);
        let diff: i128 = (k as i128) - prod;
        Ok(euclid_rem(diff, self.ctx.q))
    }

    /// Derives the pair of public commitments `(g^x mod q, h^x mod q)` for a
    /// secret exponent `x`. Fails with `MathOverflow` when the modulus is
    /// not positive, and with `CastError` when the exponent is negative or
    /// exceeds the 32-bit range.
    pub fn calculate_registration_data(&self, x: i64) -> (r: Result<(i64, i64), ZKPError>)
        ensures
            match r {
                Ok(pair) => self.q() >= 1 && exp_in_range(x as int) && pair.0 == pow(
                    self.g() as int,
                    x as nat,
                ) % (self.q() as int) && pair.1 == pow(self.h() as int, x as nat) % (
                self.q() as int) && 0 <= pair.0 < self.q() && 0 <= pair.1 < self.q(),
                Err(ZKPError::CastError) => self.q() >= 1 && !exp_in_range(x as int),
                Err(ZKPError::MathOverflow) => self.q() < 1,
            },
    {
        if self.ctx.q < 1 {
            return Err(ZKPError::MathOverflow);
        }
        if x < 0 || x > u32::MAX as i64 {
            return Err(ZKPError::CastError);
        }
        let y1 = pow_mod(self.ctx.g, x as u32, self.ctx.q);
        let y2 = pow_mod(self.ctx.h, x as u32, self.ctx.q);
        Ok((y1, y2))
    }

    /// Derives the pair of ephemeral commitments `(g^k mod q, h^k mod q)`
    /// for a one-time exponent `k`: the same map as registration, applied to
    /// the login nonce.
    pub fn calculate_login_challenge_data(&self, k: i64) -> (r: Result<(i64, i64), ZKPError>)
        ensures
            match r {
                Ok(pair) => self.q() >= 1 && exp_in_range(k as int) && pair.0 == pow(
                    self.g() as int,
                    k as nat,
                ) % (self.q() as int) && pair.1 == pow(self.h() as int, k as nat) % (
                self.q() as int) && 0 <= pair.0 < self.q() && 0 <= pair.1 < self.q(),
                Err(ZKPError::CastError) => self.q() >= 1 && !exp_in_range(k as int),
                Err(ZKPError::MathOverflow) => self.q() < 1,
            },
    {
        self.calculate_registration_data(k)
    }

    /// Hands out the challenge scalar: the fixed placeholder value, reduced
    /// into the scalar range `[0, q)`. This engine is deterministic, for
    /// tests and reproducible runs; production draws come from the random
    /// engine behind the [`ZKPAuth`] seam.
    pub fn create_auth_challenge(&self) -> (c: i64)
        ensures
            self.q() >= 1 ==> c == placeholder_challenge() as int % self.q() as int && 0 <= c
                < self.q(),
            self.q() < 1 ==> c == placeholder_challenge(),
    {
        if self.ctx.q < 1 {
            2
        } else {
            euclid_rem(2, self.ctx.q)
        }
    }

    /// Checks the verification equation `g^s * y1^c == r1` and
    /// `h^s * y2^c == r2`, all modulo `q`. Fails with `MathOverflow` when
    /// the modulus is not positive, and with `CastError` when either
    /// exponent is outside the 32-bit range.
    pub fn verify_auth_challenge(
        &self,
        y1: i64,
        y2: i64,
        r1: i64,
        r2: i64,
        c: i64,
        s: i64,
    ) -> (r: Result<bool, ZKPError>)
        ensures
            match r {
                Ok(ok) => self.q() >= 1 && exp_in_range(c as int) && exp_in_range(s as int) && ok
                    == (verify_check(
                    self.g() as int,
                    y1 as int,
                    r1 as int,
                    c as nat,
                    s as nat,
                    self.q() as int,
                ) && verify_check(
                    self.h() as int,
                    y2 as int,
                    r2 as int,
                    c as nat,
                    s as nat,
                    self.q() as int,
                )),
                Err(ZKPError::CastError) => self.q() >= 1 && !(exp_in_range(c as int)
                    && exp_in_range(s as int)),
                Err(ZKPError::MathOverflow) => self.q() < 1,
            },
    {
        if self.ctx.q < 1 {
            return Err(ZKPError::MathOverflow);
        }
        if c < 0 || c > u32::MAX as i64 || s < 0 || s > u32::MAX as i64 {
            return Err(ZKPError::CastError);
        }
        let q = self.ctx.q;
        let test_left_r1 = pow_mod(self.ctx.g, s as u32, q);
        let test_right_r1 = pow_mod(y1, c as u32, q);
        let test_r1 = mul_mod(test_left_r1, test_right_r1, q);
        let test_left_r2 = pow_mod(self.ctx.h, s as u32, q);
        let test_right_r2 = pow_mod(y2, c as u32, q);
        let test_r2 = mul_mod(test_left_r2, test_right_r2, q);
        proof {
            lemma_mul_mod_noop_general(
                pow(self.g() as int, s as nat),
                pow(y1 as int, c as nat),
                q as int,
            );
            lemma_mul_mod_noop_general(
                pow(self.h() as int, s as nat),
                pow(y2 as int, c as nat),
                q as int,
            );
        }
        Ok(test_r1 == r1 && test_r2 == r2)
    }
}

/// The deterministic engine offered through the challenge-engine seam, so
/// that tests and reproducible runs can stand where the random engine stands
/// in production.
impl ZKPAuth for ChaumPedersenProtocol {
    /// The engine is usable once the modulus is positive.
    open spec fn ready(&self) -> bool {
        self.q() >= 1
    }

    /// A handed-out challenge lies in the scalar range `[0, q)`.
    open spec fn challenge_valid(&self, c: i64) -> bool {
        0 <= c < self.q()
    }

    /// Both verification equations hold, with exponents in the accepted
    /// 32-bit range.
    open spec fn verify_spec(&self, y1: i64, y2: i64, r1: i64, r2: i64, c: i64, s: i64) -> bool {
        &&& exp_in_range(c as int)
        &&& exp_in_range(s as int)
        &&& verify_check(self.g() as int, y1 as int, r1 as int, c as nat, s as nat, self.q() as int)
        &&& verify_check(self.h() as int, y2 as int, r2 as int, c as nat, s as nat, self.q() as int)
    }

    fn create_auth_challenge(&self) -> (c: i64) {
        self.create_auth_challenge()
    }

    fn verify_auth_challenge(&self, y1: i64, y2: i64, r1: i64, r2: i64, c: i64, s: i64) -> (r:
        bool) {
        match self.verify_auth_challenge(y1, y2, r1, r2, c, s) {
            Ok(ok) => ok,
            Err(ZKPError::CastError) => false,
            Err(ZKPError::MathOverflow) => unreached(),
        }
    }
}

/// The verification equation against an honest credential `g^x mod q` and an
/// honest ephemeral commitment `g^k mod q` holds exactly when the exponents
/// agree modulo the group arithmetic: `g^(s + c*x) == g^k (mod q)`.
pub proof fn lemma_verify_check_exponents(g: int, x: nat, k: nat, c: nat, s: nat, q: int)
    requires
        q >= 1,
    ensures
        verify_check(g, pow(g, x) % q, pow(g, k) % q, c, s, q) <==> (pow(g, (s + c * x) as nat) % q
            == pow(g, k) % q),
{
    lemma_pow_mod_noop(pow(g, x), c, q);
    lemma_pow_multiplies(g, x, c);
    lemma_mul_mod_noop_general(pow(g, s), pow(pow(g, x) % q, c), q);
    lemma_mul_mod_noop_general(pow(g, s), pow(g, x * c), q);
    lemma_mul_is_commutative(x as int, c as int);
    lemma_pow_adds(g, s, c * x);
}

/// Completeness: an honest prover always passes. For parameters `(g, h, q)`,
/// secret `x`, ephemeral `k` and challenge `c`, the response
/// `s = (k - c*x) mod q` makes both verification equations hold against the
/// honest credential and commitment, provided the exponent `k - c*x` does
/// not wrap around the modulus (`0 <= k - c*x < q`), so that the response
/// still encodes the exact exponent difference.
pub proof fn lemma_completeness(g: int, h: int, q: int, x: nat, k: nat, c: nat)
    requires
        q >= 1,
        c * x <= k,
        k - c * x < q,
    ensures
        response_value(k as int, c as int, x as int, q) == k - c * x,
        verify_check(g, pow(g, x) % q, pow(g, k) % q, c, (k - c * x) as nat, q),
        verify_check(h, pow(h, x) % q, pow(h, k) % q, c, (k - c * x) as nat, q),
{
    let s = (k - c * x) as nat;
    lemma_small_mod(s, q as nat);
    assert(s + c * x == k);
    lemma_verify_check_exponents(g, x, k, c, s, q);
    lemma_verify_check_exponents(h, x, k, c, s, q);
}

/// Soundness: a response computed from a different secret `x2 != x` is
/// rejected when verified against the credential of `x`. Stated for a
/// generator `g >= 2`, a positive challenge, a non-wrapping forged response
/// and powers that stay below the modulus, so that distinct exponents give
/// distinct group elements. (With a degenerate generator such as `g == 1`,
/// or once the powers wrap around `q`, distinct exponents can collide and
/// the claim fails.)
pub proof fn lemma_soundness(g: int, q: int, x: nat, x2: nat, k: nat, c: nat)
    requires
        q >= 1,
        g >= 2,
        c >= 1,
        x != x2,
        c * x2 <= k,
        k - c * x2 < q,
        pow(g, k) < q,
        pow(g, (k + c * x - c * x2) as nat) < q,
    ensures
        response_value(k as int, c as int, x2 as int, q) == k - c * x2,
        !verify_check(g, pow(g, x) % q, pow(g, k) % q, c, (k - c * x2) as nat, q),
{
    let s = (k - c * x2) as nat;
    lemma_small_mod(s, q as nat);
    lemma_verify_check_exponents(g, x, k, c, s, q);
    let e1 = (s + c * x) as nat;
    assert(e1 == k + c * x - c * x2);
    if x < x2 {
        lemma_mul_strict_inequality(x as int, x2 as int, c as int);
        lemma_mul_is_commutative(x as int, c as int);
        lemma_mul_is_commutative(x2 as int, c as int);
        assert(c * x < c * x2);
    } else {
        lemma_mul_strict_inequality(x2 as int, x as int, c as int);
        lemma_mul_is_commutative(x as int, c as int);
        lemma_mul_is_commutative(x2 as int, c as int);
        assert(c * x2 < c * x);
    }
    assert(e1 != k);
    lemma_pow_positive(g, k);
    lemma_pow_positive(g, e1);
    if e1 < k {
        lemma_pow_strictly_increases(g as nat, e1, k);
    } else {
        lemma_pow_strictly_increases(g as nat, k, e1);
    }
    lemma_small_mod(pow(g, e1) as nat, q as nat);
    lemma_small_mod(pow(g, k) as nat, q as nat);
}

/// A response computed against a superseded challenge `c1` fails
/// verification once the outstanding challenge is `c2 != c1`. Stated under
/// the same non-degeneracy premises as soundness: generator at least 2, a
/// secret of at least 1, a non-wrapping response and powers below the
/// modulus.
pub proof fn lemma_stale_response_rejected(g: int, q: int, x: nat, k: nat, c1: nat, c2: nat)
    requires
        q >= 1,
        g >= 2,
        x >= 1,
        c1 != c2,
        c1 * x <= k,
        k - c1 * x < q,
        k + c2 * x - c1 * x >= 0,
        pow(g, k) < q,
        pow(g, (k + c2 * x - c1 * x) as nat) < q,
    ensures
        response_value(k as int, c1 as int, x as int, q) == k - c1 * x,
        !verify_check(g, pow(g, x) % q, pow(g, k) % q, c2, (k - c1 * x) as nat, q),
{
    let s = (k - c1 * x) as nat;
    lemma_small_mod(s, q as nat);
    lemma_verify_check_exponents(g, x, k, c2, s, q);
    let e1 = (s + c2 * x) as nat;
    assert(e1 == k + c2 * x - c1 * x);
    if c1 < c2 {
        lemma_mul_strict_inequality(c1 as int, c2 as int, x as int);
        assert(c1 * x < c2 * x);
    } else {
        lemma_mul_strict_inequality(c2 as int, c1 as int, x as int);
        assert(c2 * x < c1 * x);
    }
    assert(e1 != k);
    lemma_pow_positive(g, k);
    lemma_pow_positive(g, e1);
    if e1 < k {
        lemma_pow_strictly_increases(g as nat, e1, k);
    } else {
        lemma_pow_strictly_increases(g as nat, k, e1);
    }
    lemma_small_mod(pow(g, e1) as nat, q as nat);
    lemma_small_mod(pow(g, k) as nat, q as nat);
}

} // verus!
