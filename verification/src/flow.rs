//! The refresh flow: issuing refresh credentials, validating a presented one
//! against the store, and rotating it while minting a new session token.

use vstd::prelude::*;
use crate::jwt::{generate_session_token, jwt_claims_of, jwt_of, SESSION_TOKEN_LIFETIME_SECS};
use crate::masked_token::MaskedToken;
use crate::store::RefreshStore;
use vstd::string::StringExecFns;

verus! {

/// Number of characters of a freshly drawn refresh credential: the
/// hyphenated textual form of a version-4 identifier.
pub const REFRESH_CREDENTIAL_LEN: usize = 36;

/// Relies on uuid::Uuid::new_v4 and its default hyphenated form: a randomly
/// drawn identifier rendered as 36 characters. Nothing more is promised of
/// the value: it is random.
#[verifier::external_body]
fn fresh_credential() -> (r: String)
    ensures
        r@.len() == REFRESH_CREDENTIAL_LEN,
{
    uuid::Uuid::new_v4().to_string()
}

/// Whether the store accepts `cred` as the current refresh credential of
/// `subject`: the subject is enrolled and the stored value is exactly `cred`.
pub open spec fn refresh_accepts(
    m: Map<Seq<char>, Seq<char>>,
    subject: Seq<char>,
    cred: Seq<char>,
) -> bool {
    m.contains_key(subject) && m[subject] == cred
}

/// Draws a fresh refresh credential for `user_id` and atomically replaces any
/// stored one with it, so that afterwards it is the subject's single active
/// credential.
pub fn generate_refresh_token(store: &mut RefreshStore, user_id: &String) -> (r: String)
    ensures
        final(store)@ == old(store)@.insert(user_id@, r@),
        r@.len() == REFRESH_CREDENTIAL_LEN,
{
    let cred = fresh_credential();
    store.rotate(user_id, cred.clone());
    cred
}

/// First-time issuance for a subject already authenticated upstream: enrolls
/// (or re-enrolls) the subject with a fresh credential, with no prior
/// validation. Afterwards exactly the returned value is stored for the
/// subject.
pub fn request_initial(store: &mut RefreshStore, user_id: &String) -> (r: String)
    ensures
        final(store)@ == old(store)@.insert(user_id@, r@),
        final(store)@.contains_key(user_id@),
        final(store)@[user_id@] == r@,
        r@.len() == REFRESH_CREDENTIAL_LEN,
{
    generate_refresh_token(store, user_id)
}

/// Read-only validation of a presented refresh credential: true exactly when
/// the subject is enrolled and the stored credential matches.
pub fn validate_refresh_token(store: &RefreshStore, user_id: &String, token: &String) -> (r: bool)
    ensures
        r == refresh_accepts(store@, user_id@, token@),
{
    match store.lookup(user_id) {
        Some(stored) => stored.eq(token),
        None => false,
    }
}

/// Why a refresh request was turned away. Not-found and mismatch are
/// deliberately not told apart, so the response leaks nothing about whether
/// the subject exists.
#[derive(Debug)]
pub enum RefreshError {
    /// The presented refresh credential is not the subject's current one.
    InvalidRefreshToken,
}

impl RefreshError {
    /// The stable machine-readable code of this error.
    pub fn code(&self) -> (r: String)
        ensures
            r@ == "invalid_refresh_token"@,
    {
        String::from_str("invalid_refresh_token")
    }
}

/// What a successful refresh hands back: the rotated refresh credential and a
/// freshly minted session token.
pub struct TokenPair {
    /// The subject's new single active refresh credential.
    pub refresh_token: String,
    /// A session token for the subject, expiring `SESSION_TOKEN_LIFETIME_SECS`
    /// after `now`.
    pub session_token: String,
}

/// Validates `presented` against the store and, exactly on a match, rotates
/// the credential and mints a new session token at instant `now`. On a
/// mismatch or an unknown subject the store is untouched and the single
/// `invalid_refresh_token` error comes back. Rotation happens before the
/// caller sees the response: the old credential is spent either way, so a
/// replay of it fails as long as the fresh credential differs from it.
pub fn refresh(
    store: &mut RefreshStore,
    secret: &MaskedToken,
    user_id: &String,
    presented: &String,
    now: u64,
) -> (r: Result<TokenPair, RefreshError>)
    requires
        now + SESSION_TOKEN_LIFETIME_SECS <= u64::MAX,
    ensures
        r is Ok <==> refresh_accepts(old(store)@, user_id@, presented@),
        r matches Ok(p) ==> {
            &&& final(store)@ == old(store)@.insert(user_id@, p.refresh_token@)
            &&& p.refresh_token@.len() == REFRESH_CREDENTIAL_LEN
            &&& p.session_token@ == jwt_of(
                secret.secret(),
                user_id@,
                (now + SESSION_TOKEN_LIFETIME_SECS) as u64,
            )
            &&& jwt_claims_of(secret.secret(), p.session_token@) == Some(
                (user_id@, (now + SESSION_TOKEN_LIFETIME_SECS) as u64),
            )
            &&& p.refresh_token@ != presented@ ==> !refresh_accepts(
                final(store)@,
                user_id@,
                presented@,
            )
        },
        r is Err ==> {
            &&& final(store)@ == old(store)@
            &&& r matches Err(e) && e is InvalidRefreshToken
        },
{
    if !validate_refresh_token(store, user_id, presented) {
        return Err(RefreshError::InvalidRefreshToken);
    }
    let new_refresh = generate_refresh_token(store, user_id);
    let new_session = generate_session_token(secret, user_id.as_str(), now);
    Ok(TokenPair { refresh_token: new_refresh, session_token: new_session })
}

/// Issuing a new credential for an already-enrolled subject invalidates the
/// previous one: once `new_cred` (a fresh value, different from the old one)
/// is in place, validating the old value fails.
pub proof fn lemma_rotation_invalidates(
    m: Map<Seq<char>, Seq<char>>,
    subject: Seq<char>,
    old_cred: Seq<char>,
    new_cred: Seq<char>,
)
    requires
        new_cred != old_cred,
    ensures
        !refresh_accepts(m.insert(subject, new_cred), subject, old_cred),
{
}

/// A refresh succeeds at most once per credential value: after a successful
/// refresh rotated the store to a fresh credential different from the spent
/// one, a second refresh presenting the spent credential fails.
pub proof fn lemma_refresh_single_use(
    m: Map<Seq<char>, Seq<char>>,
    subject: Seq<char>,
    cred: Seq<char>,
    new_cred: Seq<char>,
)
    requires
        refresh_accepts(m, subject, cred),
        new_cred != cred,
    ensures
        !refresh_accepts(m.insert(subject, new_cred), subject, cred),
{
}

} // verus!
