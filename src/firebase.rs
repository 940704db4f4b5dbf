//! Claims of the identity assertion handed to Firebase after login.
use vstd::prelude::*;
use crate::clock::{now_timestamp, MAX_TIMESTAMP};

verus! {

/// Signature algorithm named in the claims.
pub const FIREBASE_ALGORITHM: &'static str = "RS256";

/// Audience of a Firebase custom token.
pub const FIREBASE_AUDIENCE: &'static str =
    "https://identitytoolkit.googleapis.com/google.identity.identitytoolkit.v1.IdentityToolkit";

/// Seconds for which an assertion is valid.
pub const FIREBASE_TOKEN_LIFETIME: u64 = 3600;

/// The claims of one assertion; instants are seconds since the Unix epoch.
pub struct FirebaseClaims {
    pub alg: String,
    pub iss: String,
    pub sub: String,
    pub aud: String,
    pub iat: u64,
    pub exp: u64,
    pub uid: String,
}

/// `c` is the assertion issued at `now` by `service_account` for the
/// account `user_id`: the service account is issuer and subject, and the
/// assertion expires one lifetime after it was issued.
pub open spec fn is_claims_at(c: FirebaseClaims, service_account: Seq<char>, user_id: Seq<char>, now: u64) -> bool {
    &&& c.alg@ == FIREBASE_ALGORITHM@
    &&& c.iss@ == service_account
    &&& c.sub@ == service_account
    &&& c.aud@ == FIREBASE_AUDIENCE@
    &&& c.iat == now
    &&& c.exp == now + FIREBASE_TOKEN_LIFETIME
    &&& c.uid@ == user_id
}

/// Claims issued at `now` by `service_account` for the account `user_id`.
pub fn firebase_claims_at(service_account: &str, user_id: &str, now: u64) -> (r: FirebaseClaims)
    requires
        now <= u64::MAX - FIREBASE_TOKEN_LIFETIME,
    ensures
        is_claims_at(r, service_account@, user_id@, now),
{
    FirebaseClaims {
        alg: String::from_str(FIREBASE_ALGORITHM),
        iss: String::from_str(service_account),
        sub: String::from_str(service_account),
        aud: String::from_str(FIREBASE_AUDIENCE),
        iat: now,
        exp: now + FIREBASE_TOKEN_LIFETIME,
        uid: String::from_str(user_id),
    }
}

/// Claims for `user_id` issued at the instant the clock reads. An instant
/// before the Unix epoch has no claims: the result is then `None`. (chrono
/// itself panics on a system clock set before the epoch, so in practice
/// the reading is never negative.)
pub fn firebase_claims(service_account: &str, user_id: &str) -> (r: Option<FirebaseClaims>)
    ensures
        exists|now: i64|
            {
                &&& -MAX_TIMESTAMP <= now <= MAX_TIMESTAMP
                &&& (r is None <==> now < 0)
                &&& #[trigger] claims_read_at(r, service_account@, user_id@, now)
            },
{
    let now = now_timestamp();
    if now < 0 {
        let r: Option<FirebaseClaims> = None;
        assert(claims_read_at(r, service_account@, user_id@, now));
        return r;
    }
    let c = firebase_claims_at(service_account, user_id, now as u64);
    let r = Some(c);
    assert(claims_read_at(r, service_account@, user_id@, now));
    r
}

/// What `firebase_claims` returns when the clock reads `now`: the claims
/// issued then, for an instant not before the epoch.
pub open spec fn claims_read_at(
    r: Option<FirebaseClaims>,
    service_account: Seq<char>,
    user_id: Seq<char>,
    now: i64,
) -> bool {
    r matches Some(c) ==> is_claims_at(c, service_account, user_id, now as u64)
}

} // verus!
