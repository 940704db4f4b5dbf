//! Random opaque tokens over a URL-safe alphabet, and account identifiers.
use vstd::prelude::*;

verus! {

/// Characters of access tokens, activation tokens and salts:
/// `A-Z`, `a-z`, `0-9`, `_` and `~`.
pub open spec fn is_url_safe(c: char) -> bool {
    ||| ('A' <= c && c <= 'Z')
    ||| ('a' <= c && c <= 'z')
    ||| ('0' <= c && c <= '9')
    ||| c == '_'
    ||| c == '~'
}

/// Whether `s` is an opaque token of exactly `n` URL-safe characters.
pub open spec fn is_token_of_len(s: Seq<char>, n: nat) -> bool {
    &&& s.len() == n
    &&& forall|i: int| 0 <= i < s.len() ==> is_url_safe(#[trigger] s[i])
}

/// Relies on nanoid::generate: `size` characters, each drawn from the
/// crate's SAFE alphabet with the operating system's random source.
#[verifier::external_body]
pub(crate) fn random_token(size: usize) -> (r: String)
    ensures
        is_token_of_len(r@, size as nat),
{
    nanoid::generate(size)
}

/// Characters in the hyphenated text form of an account identifier.
pub const ACCOUNT_ID_LEN: usize = 36;

/// Relies on uuid::Uuid::new_v4 and its hyphenated text form
/// (`Hyphenated::LENGTH`, 36 characters): a fresh random identifier.
#[verifier::external_body]
pub(crate) fn random_account_id() -> (r: String)
    ensures
        r@.len() == ACCOUNT_ID_LEN,
{
    uuid::Uuid::new_v4().to_hyphenated().to_string()
}

} // verus!
