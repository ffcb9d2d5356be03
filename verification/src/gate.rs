use vstd::prelude::*;

use crate::clock::current_timestamp;
use crate::jwt::{issue_jwt_at, jwt_encoding_of, validate_jwt, Claims, CredError};
use crate::pow::pow_solution_ok;
use crate::store::{challenge_expired, Challenge, ChallengeStore, StoreError};
use crate::values::{MAX_ATTEMPTS, MAX_NONCE_LENGTH, POW_DIFFICULTY_PREFIX, TOKEN_EXPIRY_SECS};

verus! {

/// A submitted solution: the challenge key and the candidate nonce.
pub struct NonceSubmission {
    pub nonce: String,
    pub token: String,
}

/// How a submission was turned away.
#[derive(Clone, Copy, Debug, PartialEq, Eq, Structural)]
pub enum GateError {
    /// The challenge key is unknown: request a new challenge.
    NotFound,
    /// The challenge outlived its lifetime: request a new challenge.
    Expired,
    /// The attempt budget is exhausted: request a new challenge.
    RateLimited,
    /// The nonce is over the length bound or its hash misses the prefix.
    InvalidNonce,
    /// Credential issuance failed; a configuration fault, not client error.
    Internal,
}

/// Relies on uuid::Uuid::new_v4 rendered through to_string: a random
/// version-4 UUID in its hyphenated form, which is 36 characters. Nothing
/// is promised of the characters themselves.
#[verifier::external_body]
fn random_uuid_string() -> (r: String)
    ensures
        r@.len() == 36,
{
    uuid::Uuid::new_v4().to_string()
}

/// What one submission leaves stored under the submitted key, as a
/// function of the record found there, the nonce and the time: nothing for
/// an unknown key; removal on expiry; an untouched record once the attempt
/// budget is spent; a record charged one attempt on a miss; removal on
/// success.
pub open spec fn spec_submit_cell(cell: Option<Challenge>, nonce: Seq<char>, now: u64) -> Option<
    Challenge,
> {
    match cell {
        None => None,
        Some(c) => {
            if challenge_expired(c, now) {
                None
            } else if c.attempts >= MAX_ATTEMPTS {
                Some(c)
            } else if nonce.len() > MAX_NONCE_LENGTH || !pow_solution_ok(
                c.challenge@,
                nonce,
                POW_DIFFICULTY_PREFIX@,
            ) {
                Some((Challenge { attempts: (c.attempts + 1) as u32, ..c }))
            } else {
                None
            }
        },
    }
}

/// The class of one submission's outcome, as a function of the record
/// found under the key, the nonce and the time; `Ok(())` means a
/// credential is granted. Expiry is checked before the attempt cap, and
/// the cap before the nonce.
pub open spec fn spec_submit_class(cell: Option<Challenge>, nonce: Seq<char>, now: u64) -> Result<
    (),
    GateError,
> {
    match cell {
        None => Err(GateError::NotFound),
        Some(c) => {
            if challenge_expired(c, now) {
                Err(GateError::Expired)
            } else if c.attempts >= MAX_ATTEMPTS {
                Err(GateError::RateLimited)
            } else if nonce.len() > MAX_NONCE_LENGTH || !pow_solution_ok(
                c.challenge@,
                nonce,
                POW_DIFFICULTY_PREFIX@,
            ) {
                Err(GateError::InvalidNonce)
            } else if now + TOKEN_EXPIRY_SECS <= usize::MAX {
                Ok(())
            } else {
                Err(GateError::Internal)
            }
        },
    }
}

/// Process secret and store of outstanding challenges, shared by the
/// three operations.
pub struct AppState {
    pub jwt_secret: Vec<u8>,
    pub challenges: ChallengeStore,
}

impl AppState {
    /// Well-formedness of the whole state.
    pub open spec fn wf(self) -> bool {
        self.challenges.wf()
    }

    /// Fresh state: a new process secret and no outstanding challenges.
    pub fn new() -> (s: Self)
        ensures
            s.wf(),
            s.jwt_secret@.len() == 32,
            s.challenges@.len() == 0,
    {
        AppState { jwt_secret: crate::jwt::generate_secret(), challenges: ChallengeStore::new() }
    }

    /// Issues a fresh challenge and stores it: a new key and secret, no
    /// attempts charged yet, every other challenge left untouched.
    pub fn get_challenge(&mut self) -> (c: Challenge)
        requires
            old(self).wf(),
        ensures
            final(self).wf(),
            final(self).jwt_secret == old(self).jwt_secret,
            c.attempts == 0,
            c.token@.len() == 36,
            c.challenge@.len() == 36,
            final(self).challenges.spec_get(c.token@) == Some(c),
            forall|k: Seq<char>|
                k != c.token@ ==> final(self).challenges.spec_get(k) == old(self).challenges.spec_get(k),
    {
        let token = random_uuid_string();
        let challenge = random_uuid_string();
        let now = current_timestamp();
        let record = Challenge { token, challenge, created_at: now, attempts: 0 };
        let copy = record.clone();
        self.challenges.insert(record);
        copy
    }

    /// One verification attempt against the stored challenge under
    /// `token`, taking `now` as the present time: expiry is checked first
    /// (removing a stale record), then the attempt cap (charging nothing
    /// once reached), then one attempt is charged and the nonce is checked
    /// — first against the length bound, then by one hash. Success removes
    /// the challenge and issues the credential; a miss leaves the charged
    /// record in place for further tries.
    pub fn submit_nonce_at(&mut self, token: &str, nonce: &str, now: u64) -> (r: Result<
        String,
        GateError,
    >)
        requires
            old(self).wf(),
        ensures
            final(self).wf(),
            final(self).jwt_secret == old(self).jwt_secret,
            forall|k: Seq<char>|
                k != token@ ==> final(self).challenges.spec_get(k) == old(self).challenges.spec_get(k),
            final(self).challenges.spec_get(token@) == spec_submit_cell(
                old(self).challenges.spec_get(token@),
                nonce@,
                now,
            ),
            (r is Ok) == (spec_submit_class(old(self).challenges.spec_get(token@), nonce@, now)
                is Ok),
            r matches Err(e) ==> spec_submit_class(old(self).challenges.spec_get(token@), nonce@, now)
                == Err::<(), GateError>(e),
            r matches Ok(t) ==> now + TOKEN_EXPIRY_SECS <= usize::MAX && t@ == jwt_encoding_of(
                "verified_user"@,
                ((now + TOKEN_EXPIRY_SECS) as usize),
                old(self).jwt_secret@,
            ),
    {
        let charged = match self.challenges.record_attempt(token, now) {
            Err(StoreError::NotFound) => {
                return Err(GateError::NotFound);
            },
            Err(StoreError::Expired) => {
                return Err(GateError::Expired);
            },
            Err(StoreError::RateLimited) => {
                return Err(GateError::RateLimited);
            },
            Ok(c) => c,
        };
        if nonce.unicode_len() > MAX_NONCE_LENGTH {
            return Err(GateError::InvalidNonce);
        }
        if !crate::pow::verify_pow(charged.challenge.as_str(), nonce, POW_DIFFICULTY_PREFIX) {
            return Err(GateError::InvalidNonce);
        }
        self.challenges.remove(token);
        match issue_jwt_at("verified_user", self.jwt_secret.as_slice(), now) {
            Ok(t) => Ok(t),
            Err(_) => Err(GateError::Internal),
        }
    }

    /// One verification attempt at the present clock reading. Whatever the
    /// clock read: an unknown key is turned away as NotFound with nothing
    /// changed, a success removes the challenge, and challenges under other
    /// keys are never touched.
    pub fn submit_nonce(&mut self, submission: &NonceSubmission) -> (r: Result<String, GateError>)
        requires
            old(self).wf(),
        ensures
            final(self).wf(),
            final(self).jwt_secret == old(self).jwt_secret,
            forall|k: Seq<char>|
                k != submission.token@ ==> final(self).challenges.spec_get(k) == old(self).challenges.spec_get(k),
            old(self).challenges.spec_get(submission.token@) is None ==> r == Err::<
                String,
                GateError,
            >(GateError::NotFound) && final(self).challenges.spec_get(submission.token@) is None,
            r is Ok ==> old(self).challenges.spec_get(submission.token@) is Some && final(self).challenges.spec_get(submission.token@) is None,
    {
        let now = current_timestamp();
        self.submit_nonce_at(submission.token.as_str(), submission.nonce.as_str(), now)
    }

    /// Validates a presented credential against the process secret; reads
    /// nothing but the secret and mutates nothing.
    pub fn check_access(&self, token: &str) -> (r: Result<Claims, CredError>)
        ensures
            forall|sub: Seq<char>, exp: usize|
                (token@ == #[trigger] jwt_encoding_of(sub, exp, self.jwt_secret@) && r is Ok)
                    ==> r->Ok_0.sub@ == sub && r->Ok_0.exp == exp,
    {
        validate_jwt(token, self.jwt_secret.as_slice())
    }

    /// Removes every challenge whose lifetime has elapsed at `now`.
    pub fn sweep(&mut self, now: u64)
        requires
            old(self).wf(),
        ensures
            final(self).wf(),
            final(self).jwt_secret == old(self).jwt_secret,
            forall|k: Seq<char>|
                final(self).challenges.spec_get(k) == (match old(self).challenges.spec_get(k) {
                    Some(c) => if challenge_expired(c, now) {
                        None::<Challenge>
                    } else {
                        Some(c)
                    },
                    None => None::<Challenge>,
                }),
    {
        self.challenges.sweep(now);
    }
}

/// Law: a challenge whose lifetime has elapsed is unusable — whatever the
/// nonce, even a correct solution, the submission is turned away as
/// Expired and the record is removed.
pub proof fn lemma_expired_challenge_unusable(c: Challenge, nonce: Seq<char>, now: u64)
    requires
        challenge_expired(c, now),
    ensures
        spec_submit_class(Some(c), nonce, now) == Err::<(), GateError>(GateError::Expired),
        spec_submit_cell(Some(c), nonce, now) is None,
{
}

/// Law: no replay. A submission that was granted a credential removes the
/// record, and any later submission under the same key — the store then
/// holding nothing there — is turned away as NotFound.
pub proof fn lemma_no_replay(
    cell: Option<Challenge>,
    nonce: Seq<char>,
    now: u64,
    nonce2: Seq<char>,
    now2: u64,
)
    requires
        spec_submit_class(cell, nonce, now) is Ok,
    ensures
        spec_submit_cell(cell, nonce, now) is None,
        spec_submit_class(spec_submit_cell(cell, nonce, now), nonce2, now2) == Err::<
            (),
            GateError,
        >(GateError::NotFound),
{
}

/// What is stored under a key after `j` submissions of the same nonce.
pub open spec fn iter_submissions(
    cell: Option<Challenge>,
    nonce: Seq<char>,
    now: u64,
    j: nat,
) -> Option<Challenge>
    decreases j,
{
    if j == 0 {
        cell
    } else {
        spec_submit_cell(iter_submissions(cell, nonce, now, (j - 1) as nat), nonce, now)
    }
}

/// Law: attempt accounting. Starting from a live challenge with no attempt
/// charged, each of the first MAX_ATTEMPTS submissions of an incorrect
/// nonce is answered InvalidNonce — never RateLimited earlier — and
/// charges exactly one attempt; the submission after the budget is spent
/// is answered RateLimited and charges nothing.
pub proof fn lemma_attempt_budget(c: Challenge, nonce: Seq<char>, now: u64, j: nat)
    requires
        c.attempts == 0,
        !challenge_expired(c, now),
        nonce.len() <= MAX_NONCE_LENGTH,
        !pow_solution_ok(c.challenge@, nonce, POW_DIFFICULTY_PREFIX@),
        j <= MAX_ATTEMPTS,
    ensures
        iter_submissions(Some(c), nonce, now, j) == Some(
            (Challenge { attempts: j as u32, ..c }),
        ),
        j < MAX_ATTEMPTS ==> spec_submit_class(iter_submissions(Some(c), nonce, now, j), nonce, now)
            == Err::<(), GateError>(GateError::InvalidNonce),
        j == MAX_ATTEMPTS ==> spec_submit_class(
            iter_submissions(Some(c), nonce, now, j),
            nonce,
            now,
        ) == Err::<(), GateError>(GateError::RateLimited),
        j == MAX_ATTEMPTS ==> iter_submissions(Some(c), nonce, now, j + 1) == iter_submissions(
            Some(c),
            nonce,
            now,
            j,
        ),
    decreases j,
{
    if j > 0 {
        lemma_attempt_budget(c, nonce, now, (j - 1) as nat);
    }
}

} // verus!
