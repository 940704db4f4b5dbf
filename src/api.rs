//! Failures of the account lifecycle and the codes callers see for them.
use vstd::prelude::*;

verus! {

/// Code sent when no more specific one applies.
pub const DEFAULT_ERROR_CODE: &'static str = "AU0000";

/// Why an operation of the account lifecycle failed.
#[derive(Debug, Clone, Copy, PartialEq, Eq, Structural)]
pub enum AuthError {
    /// Registration: the username (or the drawn identifier) is taken.
    DuplicateIdentity,
    /// Login: no account has that username.
    InvalidCredentials,
    /// Login: the password does not match.
    WrongCredentials,
    /// Login: the password matches but the account is not activated.
    NotActivated,
    /// Activation: no account holds that activation token.
    InvalidToken,
    /// Activation: the token's validity has run out.
    TokenExpired,
    /// Who-am-I: no activated account holds that access token.
    Unauthenticated,
    /// The storage could not complete the operation.
    StorageUnavailable,
}

/// The code that stands in an error response for `e`; empty where the
/// response carries no specific code.
pub open spec fn code_of(e: AuthError) -> Seq<char> {
    match e {
        AuthError::DuplicateIdentity => "AU0001"@,
        AuthError::InvalidCredentials => "AU0011"@,
        AuthError::WrongCredentials => "AU0012"@,
        AuthError::NotActivated => "AU0012"@,
        _ => Seq::empty(),
    }
}

/// The HTTP status of the response for `e`.
pub open spec fn status_of(e: AuthError) -> u16 {
    match e {
        AuthError::DuplicateIdentity => 400,
        AuthError::InvalidToken => 400,
        AuthError::TokenExpired => 400,
        AuthError::InvalidCredentials => 401,
        AuthError::WrongCredentials => 401,
        AuthError::NotActivated => 401,
        AuthError::Unauthenticated => 401,
        AuthError::StorageUnavailable => 500,
    }
}

impl AuthError {
    /// The code for this error, as [`code_of`] gives it.
    pub fn code(&self) -> (r: &'static str)
        ensures
            r@ == code_of(*self),
    {
        match self {
            AuthError::DuplicateIdentity => "AU0001",
            AuthError::InvalidCredentials => "AU0011",
            AuthError::WrongCredentials => "AU0012",
            AuthError::NotActivated => "AU0012",
            _ => {
                proof {
                    reveal_strlit("");
                }
                ""
            },
        }
    }

    /// The HTTP status for this error, as [`status_of`] gives it.
    pub fn status(&self) -> (r: u16)
        ensures
            r == status_of(*self),
    {
        match self {
            AuthError::DuplicateIdentity => 400,
            AuthError::InvalidToken => 400,
            AuthError::TokenExpired => 400,
            AuthError::InvalidCredentials => 401,
            AuthError::WrongCredentials => 401,
            AuthError::NotActivated => 401,
            AuthError::Unauthenticated => 401,
            AuthError::StorageUnavailable => 500,
        }
    }
}

/// The code written into an error body: `error`, or the default code
/// where `error` is empty.
pub fn error_code_or_default(error: &str) -> (r: String)
    ensures
        error@.len() == 0 ==> r@ == DEFAULT_ERROR_CODE@,
        error@.len() != 0 ==> r@ == error@,
{
    if error.is_empty() {
        String::from_str(DEFAULT_ERROR_CODE)
    } else {
        String::from_str(error)
    }
}

/// Unicode white space, as `str::split_whitespace` separates words by it.
pub open spec fn is_white_space(c: char) -> bool {
    ||| ('\u{9}' <= c && c <= '\u{d}')
    ||| c == ' '
    ||| c == '\u{85}'
    ||| c == '\u{a0}'
    ||| c == '\u{1680}'
    ||| ('\u{2000}' <= c && c <= '\u{200a}')
    ||| c == '\u{2028}'
    ||| c == '\u{2029}'
    ||| c == '\u{202f}'
    ||| c == '\u{205f}'
    ||| c == '\u{3000}'
}

fn white_space(c: char) -> (r: bool)
    ensures
        r == is_white_space(c),
{
    ('\u{9}' <= c && c <= '\u{d}') || c == ' ' || c == '\u{85}' || c == '\u{a0}' || c == '\u{1680}'
        || ('\u{2000}' <= c && c <= '\u{200a}') || c == '\u{2028}' || c == '\u{2029}' || c == '\u{202f}'
        || c == '\u{205f}' || c == '\u{3000}'
}

/// `w` is the last white-space-separated word of `s`, found at `a..b`.
pub open spec fn is_last_word_at(s: Seq<char>, w: Seq<char>, a: int, b: int) -> bool {
    &&& 0 <= a < b <= s.len()
    &&& w == s.subrange(a, b)
    &&& forall|k: int| a <= k < b ==> !is_white_space(#[trigger] s[k])
    &&& forall|k: int| b <= k < s.len() ==> is_white_space(#[trigger] s[k])
    &&& (a == 0 || is_white_space(s[a - 1]))
}

/// The access token of an `Authorization` header: its last word, as in
/// `Bearer <token>`. A header with no word is refused.
pub fn bearer_token(header: &str) -> (r: Result<String, AuthError>)
    ensures
        r is Err <==> forall|k: int| 0 <= k < header@.len() ==> is_white_space(#[trigger] header@[k]),
        r is Err ==> r == Err::<String, AuthError>(AuthError::Unauthenticated),
        r is Ok ==> exists|a: int, b: int| is_last_word_at(header@, r->Ok_0@, a, b),
{
    let n = header.unicode_len();
    let mut i: usize = n;
    while i > 0 && white_space(header.get_char(i - 1))
        invariant
            n == header@.len(),
            i <= n,
            forall|k: int| i <= k < n ==> is_white_space(#[trigger] header@[k]),
        decreases i,
    {
        i = i - 1;
    }
    if i == 0 {
        return Err(AuthError::Unauthenticated);
    }
    let end = i;
    while i > 0 && !white_space(header.get_char(i - 1))
        invariant
            n == header@.len(),
            0 < end <= n,
            i <= end,
            !is_white_space(header@[end - 1]),
            forall|k: int| end <= k < n ==> is_white_space(#[trigger] header@[k]),
            forall|k: int| i <= k < end ==> !is_white_space(#[trigger] header@[k]),
        decreases i,
    {
        i = i - 1;
    }
    let word = String::from_str(header.substring_char(i, end));
    let r: Result<String, AuthError> = Ok(word);
    assert(is_last_word_at(header@, r->Ok_0@, i as int, end as int));
    r
}

} // verus!
