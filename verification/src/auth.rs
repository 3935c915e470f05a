//! The authentication orchestrator: sequences registration, challenge
//! issuance and verification against the per-identity credential and
//! challenge stores, calling the math engine for every protocol step.

use vstd::prelude::*;

pub mod error;

use crate::crypto::ZKPAuth;
use crate::repository::in_memory::InMemoryRepository;
use crate::repository::{ChallengeDTO, UserDTO};
use crate::zkp::chaum_pedersen::{
    exp_in_range,
    lemma_stale_response_rejected,
    verify_check,
    ChaumPedersenProtocol,
    Context,
};
use error::AuthActorError;

verus! {

use vstd::arithmetic::power::pow;

/// The challenge issued for a login attempt: an identifier that resolves
/// back to the stored challenge, and the challenge scalar itself.
pub struct AuthChallenge {
    pub auth_id: String,
    pub c: i64,
}

/// The opaque session handle returned on a successful verification.
pub struct SessionDetails {
    pub session_id: String,
}

/// What registration does to the credential map: the record is inserted
/// exactly when the identity is free, and nothing changes otherwise. The
/// second component reports which of the two happened.
pub open spec fn spec_register(
    users: Map<Seq<char>, UserDTO>,
    name: Seq<char>,
    user: UserDTO,
) -> (Map<Seq<char>, UserDTO>, bool) {
    if users.contains_key(name) {
        (users, false)
    } else {
        (users.insert(name, user), true)
    }
}

/// What challenge issuance does to the challenge map: an unconditional
/// upsert, so the latest challenge supersedes any outstanding one.
pub open spec fn spec_issue_challenge(
    challenges: Map<Seq<char>, ChallengeDTO>,
    name: Seq<char>,
    challenge: ChallengeDTO,
) -> Map<Seq<char>, ChallengeDTO> {
    challenges.insert(name, challenge)
}

/// The authentication orchestrator: a credential store, a challenge store,
/// the math engine that evaluates the verification equation, and a pluggable
/// challenge engine behind the [`ZKPAuth`] seam. Production uses the random
/// engine; tests may inject the deterministic one.
pub struct AuthActor<E: ZKPAuth = crate::crypto::chaum_pedersen::ChaumPedersenProtocol> {
    user_repository: InMemoryRepository<UserDTO>,
    challenge_repository: InMemoryRepository<ChallengeDTO>,
    zkp: ChaumPedersenProtocol,
    challenge_engine: E,
}

impl AuthActor {
    /// A fresh orchestrator over `ctx` with empty stores, drawing its
    /// challenge scalars from the random engine configured with the same
    /// parameters.
    pub fn new(ctx: Context) -> (r: Self)
        ensures
            r.users() == Map::<Seq<char>, UserDTO>::empty(),
            r.challenges() == Map::<Seq<char>, ChallengeDTO>::empty(),
            r.g() == ctx.g(),
            r.h() == ctx.h(),
            r.q() == ctx.q(),
            r.engine().g() == ctx.g(),
            r.engine().h() == ctx.h(),
            r.engine().q() == ctx.q(),
    {
        let engine = crate::crypto::chaum_pedersen::ChaumPedersenProtocol::new(
            ctx.generator1(),
            ctx.generator2(),
            ctx.modulus(),
        );
        Self {
            user_repository: InMemoryRepository::<UserDTO>::default(),
            challenge_repository: InMemoryRepository::<ChallengeDTO>::default(),
            zkp: ChaumPedersenProtocol::new(ctx),
            challenge_engine: engine,
        }
    }
}

impl<E: ZKPAuth> AuthActor<E> {
    /// The credential records, by identity.
    pub closed spec fn users(&self) -> Map<Seq<char>, UserDTO> {
        self.user_repository@
    }

    /// The outstanding challenge records, by identity.
    pub closed spec fn challenges(&self) -> Map<Seq<char>, ChallengeDTO> {
        self.challenge_repository@
    }

    /// The first generator of the engine's context.
    pub closed spec fn g(&self) -> i64 {
        self.zkp.g()
    }

    /// The second generator of the engine's context.
    pub closed spec fn h(&self) -> i64 {
        self.zkp.h()
    }

    /// The group modulus of the engine's context.
    pub closed spec fn q(&self) -> i64 {
        self.zkp.q()
    }

    /// The challenge engine the orchestrator draws its scalars from.
    pub closed spec fn engine(&self) -> E {
        self.challenge_engine
    }

    /// An orchestrator over `ctx` with empty stores and a caller-supplied
    /// challenge engine: the seam through which tests inject a deterministic
    /// engine in place of the random one.
    pub fn with_engine(ctx: Context, engine: E) -> (r: Self)
        ensures
            r.users() == Map::<Seq<char>, UserDTO>::empty(),
            r.challenges() == Map::<Seq<char>, ChallengeDTO>::empty(),
            r.g() == ctx.g(),
            r.h() == ctx.h(),
            r.q() == ctx.q(),
            r.engine() == engine,
    {
        Self {
            user_repository: InMemoryRepository::<UserDTO>::default(),
            challenge_repository: InMemoryRepository::<ChallengeDTO>::default(),
            zkp: ChaumPedersenProtocol::new(ctx),
            challenge_engine: engine,
        }
    }

    /// Registers `username` with the credential `(y1, y2)`: the record is
    /// inserted exactly when no credential exists yet, and the call fails
    /// with `UserAlreadyRegistered`, leaving every record untouched,
    /// otherwise.
    pub fn register(&mut self, username: String, y1: i64, y2: i64) -> (r: Result<
        (),
        AuthActorError,
    >)
        ensures
            ({
                let (users2, fresh) = spec_register(
                    old(self).users(),
                    username@,
                    (UserDTO { username: username, y1, y2 }),
                );
                &&& final(self).users() == users2
                &&& final(self).challenges() == old(self).challenges()
                &&& final(self).g() == old(self).g()
                &&& final(self).h() == old(self).h()
                &&& final(self).q() == old(self).q()
                &&& final(self).engine() == old(self).engine()
                &&& r == if fresh {
                    Ok::<(), AuthActorError>(())
                } else {
                    Err::<(), AuthActorError>(AuthActorError::UserAlreadyRegistered)
                }
            }),
    {
        let key = username.clone();
        let user = UserDTO::new(username, y1, y2);
        match self.user_repository.insert(key.as_str(), &user) {
            Ok(()) => Ok(()),
            Err(e) => Err(AuthActorError::from(e)),
        }
    }

    /// Issues a challenge for `username` against the ephemeral commitments
    /// `(r1, r2)`: fails with `UserNotFound` when no credential exists;
    /// otherwise draws the challenge scalar from the challenge engine and
    /// stores it, superseding any outstanding challenge for the identity.
    /// Whenever the engine is ready, the scalar carries the engine's
    /// guarantee — `[0, q)` for both engines of this crate.
    pub fn create_authentication_challenge(&mut self, username: String, r1: i64, r2: i64) -> (r:
        Result<AuthChallenge, AuthActorError>)
        ensures
            match r {
                Ok(challenge) => {
                    &&& old(self).users().contains_key(username@)
                    &&& challenge.auth_id@ == username@
                    &&& (old(self).engine().ready() ==> old(self).engine().challenge_valid(
                        challenge.c,
                    ))
                    &&& final(self).challenges() == spec_issue_challenge(
                        old(self).challenges(),
                        username@,
                        (ChallengeDTO { username: username, r1, r2, c: challenge.c }),
                    )
                    &&& final(self).users() == old(self).users()
                    &&& final(self).g() == old(self).g()
                    &&& final(self).h() == old(self).h()
                    &&& final(self).q() == old(self).q()
                    &&& final(self).engine() == old(self).engine()
                },
                Err(AuthActorError::UserNotFound) => {
                    &&& !old(self).users().contains_key(username@)
                    &&& final(self).users() == old(self).users()
                    &&& final(self).challenges() == old(self).challenges()
                    &&& final(self).g() == old(self).g()
                    &&& final(self).h() == old(self).h()
                    &&& final(self).q() == old(self).q()
                    &&& final(self).engine() == old(self).engine()
                },
                Err(_) => false,
            },
    {
        let registered = match self.user_repository.has_key(username.as_str()) {
            Ok(b) => b,
            Err(_) => unreached(),
        };
        if !registered {
            return Err(AuthActorError::UserNotFound);
        }
        let auth_id = username.clone();
        let c = self.challenge_engine.create_auth_challenge();
        let challenge = ChallengeDTO::new(username, r1, r2, c);
        match self.challenge_repository.put(auth_id.as_str(), &challenge) {
            Ok(()) => Ok(AuthChallenge { auth_id, c }),
            Err(_) => unreached(),
        }
    }

    /// Resolves `auth_id` to its credential and outstanding challenge and
    /// checks the response `s` through the engine. Fails with
    /// `UserNotFound` when the credential is missing, `AuthChallengeNotFound`
    /// when no challenge is outstanding, `AuthChallengeFailed` when the
    /// verification equation does not hold, and `ZKPMathError` when the
    /// engine cannot evaluate it. The challenge record is not consumed by an
    /// attempt: it stays outstanding, whatever the outcome, until a new
    /// challenge supersedes it.
    pub fn verify_authentication(&self, auth_id: String, s: i64) -> (r: Result<
        SessionDetails,
        AuthActorError,
    >)
        ensures
            match r {
                Ok(session) => {
                    &&& self.users().contains_key(auth_id@)
                    &&& self.challenges().contains_key(auth_id@)
                    &&& ({
                        let user = self.users()[auth_id@];
                        let challenge = self.challenges()[auth_id@];
                        &&& self.q() >= 1
                        &&& exp_in_range(challenge.c as int)
                        &&& exp_in_range(s as int)
                        &&& verify_check(
                            self.g() as int,
                            user.y1 as int,
                            challenge.r1 as int,
                            challenge.c as nat,
                            s as nat,
                            self.q() as int,
                        )
                        &&& verify_check(
                            self.h() as int,
                            user.y2 as int,
                            challenge.r2 as int,
                            challenge.c as nat,
                            s as nat,
                            self.q() as int,
                        )
                    })
                    &&& session.session_id@ == "test session"@
                },
                Err(AuthActorError::UserNotFound) => !self.users().contains_key(auth_id@),
                Err(AuthActorError::AuthChallengeNotFound) => self.users().contains_key(auth_id@)
                    && !self.challenges().contains_key(auth_id@),
                Err(AuthActorError::AuthChallengeFailed) => {
                    &&& self.users().contains_key(auth_id@)
                    &&& self.challenges().contains_key(auth_id@)
                    &&& ({
                        let user = self.users()[auth_id@];
                        let challenge = self.challenges()[auth_id@];
                        &&& self.q() >= 1
                        &&& exp_in_range(challenge.c as int)
                        &&& exp_in_range(s as int)
                        &&& !(verify_check(
                            self.g() as int,
                            user.y1 as int,
                            challenge.r1 as int,
                            challenge.c as nat,
                            s as nat,
                            self.q() as int,
                        ) && verify_check(
                            self.h() as int,
                            user.y2 as int,
                            challenge.r2 as int,
                            challenge.c as nat,
                            s as nat,
                            self.q() as int,
                        ))
                    })
                },
                Err(AuthActorError::ZKPMathError) => {
                    &&& self.users().contains_key(auth_id@)
                    &&& self.challenges().contains_key(auth_id@)
                    &&& (self.q() < 1 || !(exp_in_range(self.challenges()[auth_id@].c as int)
                        && exp_in_range(s as int)))
                },
                Err(AuthActorError::UserAlreadyRegistered) => false,
            },
    {
        let user = match self.user_repository.get(auth_id.as_str()) {
            Ok(Some(u)) => u,
            Ok(None) => {
                return Err(AuthActorError::UserNotFound);
            },
            Err(_) => unreached(),
        };
        let challenge = match self.challenge_repository.get(auth_id.as_str()) {
            Ok(Some(c)) => c,
            Ok(None) => {
                return Err(AuthActorError::AuthChallengeNotFound);
            },
            Err(_) => unreached(),
        };
        proof {
            assert(user == self.users()[auth_id@]);
            assert(challenge == self.challenges()[auth_id@]);
        }
        match self.zkp.verify_auth_challenge(
            user.y1,
            user.y2,
            challenge.r1,
            challenge.r2,
            challenge.c,
            s,
        ) {
            Err(e) => Err(AuthActorError::from(e)),
            Ok(false) => Err(AuthActorError::AuthChallengeFailed),
            Ok(true) => Ok(
                SessionDetails {
                    session_id: <String as vstd::string::StringExecFns>::from_str("test session"),
                },
            ),
        }
    }
}

/// At-most-once registration: from a state where `name` is free, a first
/// registration succeeds and a second one for the same identity fails,
/// leaving the credential written by the first call unchanged.
pub proof fn lemma_register_at_most_once(
    users: Map<Seq<char>, UserDTO>,
    name: Seq<char>,
    first: UserDTO,
    second: UserDTO,
)
    requires
        !users.contains_key(name),
    ensures
        ({
            let (users1, fresh1) = spec_register(users, name, first);
            let (users2, fresh2) = spec_register(users1, name, second);
            &&& fresh1
            &&& !fresh2
            &&& users2 == users1
            &&& users1[name] == first
        }),
{
}

/// Latest challenge wins: issuing a challenge twice for the same identity
/// leaves exactly the state of a single issuance of the second challenge,
/// and the record the verifier will read is the second one.
pub proof fn lemma_latest_challenge_wins(
    challenges: Map<Seq<char>, ChallengeDTO>,
    name: Seq<char>,
    first: ChallengeDTO,
    second: ChallengeDTO,
)
    ensures
        spec_issue_challenge(spec_issue_challenge(challenges, name, first), name, second)
            == spec_issue_challenge(challenges, name, second),
        spec_issue_challenge(spec_issue_challenge(challenges, name, first), name, second)[name]
            == second,
{
    assert(challenges.insert(name, first).insert(name, second) =~= challenges.insert(
        name,
        second,
    ));
}

/// The two halves of latest-challenge-wins, composed: after two issuances
/// the record verification reads is the second challenge, and the honest
/// response to the first challenge fails the verification equation against
/// it. Stated under the soundness premises — generator at least 2, secret at
/// least 1, distinct challenge scalars, a non-wrapping response and powers
/// below the modulus — and for a stored commitment honest for the ephemeral
/// exponent `k`; outside them (for instance with equal scalars, or a
/// degenerate generator) a stale response can still verify.
pub proof fn lemma_stale_response_fails_verification(
    challenges: Map<Seq<char>, ChallengeDTO>,
    name: Seq<char>,
    first: ChallengeDTO,
    second: ChallengeDTO,
    g: int,
    q: int,
    x: nat,
    k: nat,
)
    requires
        q >= 1,
        g >= 2,
        x >= 1,
        0 <= first.c,
        0 <= second.c,
        first.c != second.c,
        first.c * x <= k,
        k - first.c * x < q,
        k + second.c * x - first.c * x >= 0,
        pow(g, k) < q,
        pow(g, (k + second.c * x - first.c * x) as nat) < q,
        second.r1 == pow(g, k) % q,
    ensures
        spec_issue_challenge(spec_issue_challenge(challenges, name, first), name, second)[name]
            == second,
        !verify_check(
            g,
            pow(g, x) % q,
            second.r1 as int,
            second.c as nat,
            ((k - first.c * x) % q) as nat,
            q,
        ),
{
    lemma_latest_challenge_wins(challenges, name, first, second);
    lemma_stale_response_rejected(g, q, x, k, first.c as nat, second.c as nat);
}

} // verus!
