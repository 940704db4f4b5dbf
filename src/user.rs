//! The persisted account record.
use vstd::prelude::*;
use vstd::string::StringSliceAdditionalSpecFns;
use crate::hasher::{argon2i_digest, digests_equal, hash_password, salt_in_range, MAX_PASSWORD_BYTES};
use crate::token::{is_token_of_len, random_token};

verus! {

/// Number of characters in a freshly drawn password salt.
pub const SALT_LEN: usize = 32;

/// One registered account. Instants are whole seconds since the Unix epoch.
pub struct User {
    pub id: String,
    pub username: String,
    pub password_hash: Vec<u8>,
    pub password_salt: String,
    pub email: String,
    pub access_token: Option<String>,
    pub access_token_valid_until: Option<i64>,
    pub is_activated: bool,
    pub activation_token: Option<String>,
    pub activation_token_valid_until: Option<i64>,
    pub activation_redirection_url: Option<String>,
}

/// The characters held by an optional string, if any.
pub open spec fn opt_view(o: Option<String>) -> Option<Seq<char>> {
    match o {
        Some(s) => Some(s@),
        None => None,
    }
}

impl User {
    /// A record whose salt the hasher accepts, and whose activation token,
    /// while present, comes with an expiry and a redirection target.
    pub open spec fn wf(&self) -> bool {
        &&& salt_in_range(self.password_salt@)
        &&& self.activation_token is Some ==> {
            &&& self.activation_token_valid_until is Some
            &&& self.activation_redirection_url is Some
        }
    }

    /// Whether `password` is the one this record's digest was made from.
    pub open spec fn password_matches(&self, password: Seq<char>) -> bool {
        self.password_hash@ == argon2i_digest(password, self.password_salt@)
    }

    /// Draws a fresh salt and hashes `password` under it.
    /// Returns the digest and the salt.
    pub fn make_password_hash(password: &str) -> (r: (Vec<u8>, String))
        requires
            password.spec_bytes().len() <= MAX_PASSWORD_BYTES,
        ensures
            is_token_of_len(r.1@, SALT_LEN as nat),
            salt_in_range(r.1@),
            r.0@ == argon2i_digest(password@, r.1@),
    {
        let salt = random_token(SALT_LEN);
        let hash = hash_password(password, salt.as_str());
        (hash, salt)
    }

    /// Recomputes the digest of `password` under the stored salt and
    /// compares it with the stored digest.
    pub fn verify_password(&self, password: &str) -> (r: bool)
        requires
            self.wf(),
            password.spec_bytes().len() <= MAX_PASSWORD_BYTES,
        ensures
            r == self.password_matches(password@),
    {
        let hash = hash_password(password, self.password_salt.as_str());
        digests_equal(&self.password_hash, &hash)
    }
}

} // verus!
