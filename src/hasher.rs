//! Salted one-way password hashing (Argon2i) and digest comparison.
use vstd::prelude::*;
use vstd::string::StringSliceAdditionalSpecFns;

verus! {

/// Number of bytes in a password digest.
pub const DIGEST_LEN: usize = 32;

/// Longest salt, in characters, that the hasher is handed: four bytes per
/// character keep its byte length within the hasher's 32-bit bound.
pub const MAX_SALT_CHARS: usize = 0x3fff_ffff;

/// Longest password, in UTF-8 bytes, that the hasher accepts.
pub const MAX_PASSWORD_BYTES: usize = 0xffff_ffff;

/// The Argon2i digest of a password under a salt, with the default
/// parameters; it depends on the two strings alone.
pub uninterp spec fn argon2i_digest(password: Seq<char>, salt: Seq<char>) -> Seq<u8>;

/// Relies on argon2rs::argon2i_simple: the default Argon2i digest of the
/// password's and the salt's bytes, 32 bytes long. It asserts that the salt
/// has 8 to 2^32-1 bytes and the password at most 2^32-1 bytes; a salt
/// character takes one to four bytes, so the bounds below keep it from
/// panicking.
#[verifier::external_body]
fn argon2i_simple(password: &str, salt: &str) -> (r: Vec<u8>)
    requires
        password.spec_bytes().len() <= MAX_PASSWORD_BYTES,
        8 <= salt@.len() <= MAX_SALT_CHARS,
    ensures
        r@ == argon2i_digest(password@, salt@),
        r@.len() == DIGEST_LEN,
{
    argon2rs::argon2i_simple(password, salt).to_vec()
}

/// Whether `salt` may be handed to the hasher.
pub open spec fn salt_in_range(salt: Seq<char>) -> bool {
    8 <= salt.len() <= MAX_SALT_CHARS
}

/// The digest of `password` under `salt`.
pub fn hash_password(password: &str, salt: &str) -> (r: Vec<u8>)
    requires
        password.spec_bytes().len() <= MAX_PASSWORD_BYTES,
        salt_in_range(salt@),
    ensures
        r@ == argon2i_digest(password@, salt@),
        r@.len() == DIGEST_LEN,
{
    argon2i_simple(password, salt)
}

/// Compares two digests without stopping at the first difference: every
/// byte of the shorter one is read whatever the earlier bytes held.
pub fn digests_equal(a: &Vec<u8>, b: &Vec<u8>) -> (r: bool)
    ensures
        r == (a@ == b@),
{
    if a.len() != b.len() {
        return false;
    }
    let mut diff: u8 = 0;
    let mut i: usize = 0;
    while i < a.len()
        invariant
            a@.len() == b@.len(),
            i <= a@.len(),
            (diff == 0) <==> (forall|j: int| 0 <= j < i ==> a@[j] == b@[j]),
        decreases a@.len() - i,
    {
        let x: u8 = a[i];
        let y: u8 = b[i];
        let d: u8 = x ^ y;
        let next: u8 = diff | d;
        assert((d == 0) <==> (x == y)) by (bit_vector)
            requires
                d == x ^ y,
        ;
        assert((next == 0) <==> (diff == 0 && d == 0)) by (bit_vector)
            requires
                next == diff | d,
        ;
        diff = next;
        i = i + 1;
    }
    proof {
        if diff == 0 {
            assert(a@ =~= b@);
        }
    }
    diff == 0
}

} // verus!
