//! The account store and the lifecycle run over it: registration,
//! activation, login and who-am-I.
//!
//! Each operation's outcome is stated by a spec predicate over the records
//! before and after it (`register_post`, `activate_post`, `login_post`,
//! `me_post`); the values drawn at random or read from the clock are
//! parameters of those predicates, so the laws at the end hold whatever
//! was drawn.
use vstd::prelude::*;
use vstd::string::StringSliceAdditionalSpecFns;
use crate::api::AuthError;
use crate::clock::{now_timestamp, MAX_TIMESTAMP};
use crate::hasher::{argon2i_digest, hash_password, salt_in_range, MAX_PASSWORD_BYTES};
use crate::templates::{activation_body, email_body_activation, ACTIVATION_SUBJECT};
use crate::token::{is_token_of_len, random_account_id, random_token, ACCOUNT_ID_LEN};
use crate::user::{opt_view, User, SALT_LEN};

verus! {

/// Characters in an activation token.
pub const ACTIVATION_TOKEN_LEN: usize = 16;

/// Characters in an access token.
pub const ACCESS_TOKEN_LEN: usize = 64;

/// Seconds for which an activation token stays usable after registration.
pub const ACTIVATION_WINDOW: i64 = 7200;

/// Name of the service for which login also hands out a Firebase assertion.
pub const FIREBASE_SERVICE: &'static str = "firebase";

/// The activation email to send once a registration is stored.
pub struct Notification {
    pub address: String,
    pub subject: String,
    pub body: String,
}

/// What who-am-I reports of an account.
pub struct Identity {
    pub id: String,
    pub username: String,
    pub email: String,
}

/// What a successful login hands back: the access token and, where the
/// caller asked for the Firebase service, the identifier to mint an
/// assertion for.
pub struct LoginGrant {
    pub access_token: String,
    pub firebase_uid: Option<String>,
}

/// All registered accounts.
pub struct AccountStore {
    pub users: Vec<User>,
}

// ---------------------------------------------------------------------
// Lookups in the model

/// `i` is the first position whose record satisfies `p`.
pub open spec fn is_first(users: Seq<User>, p: spec_fn(User) -> bool, i: int) -> bool {
    &&& 0 <= i < users.len()
    &&& p(users[i])
    &&& forall|j: int| 0 <= j < i ==> !p(#[trigger] users[j])
}

/// The first position whose record satisfies `p`, if any does.
pub open spec fn first_index(users: Seq<User>, p: spec_fn(User) -> bool) -> Option<int> {
    if exists|i: int| is_first(users, p, i) {
        Some(choose|i: int| is_first(users, p, i))
    } else {
        None
    }
}

/// Picks the record named `username`.
pub open spec fn named(username: Seq<char>) -> spec_fn(User) -> bool {
    |u: User| u.username@ == username
}

/// Picks a record holding activation token `token`.
pub open spec fn holds_activation_token(token: Seq<char>) -> spec_fn(User) -> bool {
    |u: User| opt_view(u.activation_token) == Some(token)
}

/// Picks a record holding access token `token`.
pub open spec fn holds_access_token(token: Seq<char>) -> spec_fn(User) -> bool {
    |u: User| opt_view(u.access_token) == Some(token)
}

/// The record named `username`.
pub open spec fn username_index(users: Seq<User>, username: Seq<char>) -> Option<int> {
    first_index(users, named(username))
}

/// The first record holding activation token `token`.
pub open spec fn activation_index(users: Seq<User>, token: Seq<char>) -> Option<int> {
    first_index(users, holds_activation_token(token))
}

/// The first record holding access token `token`.
pub open spec fn access_index(users: Seq<User>, token: Seq<char>) -> Option<int> {
    first_index(users, holds_access_token(token))
}

pub open spec fn opt_int(r: Option<usize>) -> Option<int> {
    match r {
        Some(i) => Some(i as int),
        None => None,
    }
}

proof fn lemma_first_found(users: Seq<User>, p: spec_fn(User) -> bool, i: int)
    requires
        is_first(users, p, i),
    ensures
        first_index(users, p) == Some(i),
{
    let k = choose|k: int| is_first(users, p, k);
    assert(is_first(users, p, k));
    if k < i {
        assert(!p(users[k]));
    } else if k > i {
        assert(!p(users[i]));
    }
}

proof fn lemma_none_found(users: Seq<User>, p: spec_fn(User) -> bool)
    requires
        forall|j: int| 0 <= j < users.len() ==> !p(#[trigger] users[j]),
    ensures
        first_index(users, p) is None,
{
    if exists|i: int| is_first(users, p, i) {
        let k = choose|k: int| is_first(users, p, k);
        assert(p(users[k]));
    }
}

/// Whether some record already uses identifier `id` or name `username`.
pub open spec fn identity_taken(users: Seq<User>, id: Seq<char>, username: Seq<char>) -> bool {
    exists|i: int| 0 <= i < users.len() && ((#[trigger] users[i]).id@ == id || users[i].username@ == username)
}

/// No two distinct records `a` and `b` share a name, an identifier, an
/// activation token or an access token.
pub open spec fn records_distinct(a: User, b: User) -> bool {
    &&& a.username@ != b.username@
    &&& a.id@ != b.id@
    &&& (a.activation_token is Some ==> opt_view(a.activation_token) != opt_view(b.activation_token))
    &&& (a.access_token is Some ==> opt_view(a.access_token) != opt_view(b.access_token))
}

/// Every record is well formed, and no two share a name, an identifier or
/// a token.
pub open spec fn store_wf(users: Seq<User>) -> bool {
    &&& forall|i: int| 0 <= i < users.len() ==> (#[trigger] users[i]).wf()
    &&& forall|i: int, j: int|
        0 <= i < users.len() && 0 <= j < users.len() && i != j ==> records_distinct(
            #[trigger] users[i],
            #[trigger] users[j],
        )
}

// ---------------------------------------------------------------------
// Outcomes of the operations

/// `u` is the record that registration creates from these values.
pub open spec fn is_new_record(
    u: User,
    username: Seq<char>,
    password: Seq<char>,
    email: Seq<char>,
    url: Seq<char>,
    id: Seq<char>,
    salt: Seq<char>,
    token: Seq<char>,
    now: i64,
) -> bool {
    &&& u.id@ == id
    &&& u.username@ == username
    &&& u.password_salt@ == salt
    &&& u.password_hash@ == argon2i_digest(password, salt)
    &&& u.email@ == email
    &&& u.access_token is None
    &&& u.access_token_valid_until is None
    &&& !u.is_activated
    &&& opt_view(u.activation_token) == Some(token)
    &&& u.activation_token_valid_until == Some((now + ACTIVATION_WINDOW) as i64)
    &&& opt_view(u.activation_redirection_url) == Some(url)
}

/// Registration of `username` with identifier `id`, salt `salt` and
/// activation token `token` at instant `now`, taking the records from
/// `old` to `new`: it is refused, with nothing changed, when the name, the
/// identifier or the activation token is taken; otherwise the new record
/// is appended and the activation email for `token` is addressed to
/// `email`.
pub open spec fn register_post(
    old: Seq<User>,
    new: Seq<User>,
    username: Seq<char>,
    password: Seq<char>,
    email: Seq<char>,
    url: Seq<char>,
    id: Seq<char>,
    salt: Seq<char>,
    token: Seq<char>,
    now: i64,
    r: Result<Notification, AuthError>,
) -> bool {
    if identity_taken(old, id, username) || activation_index(old, token) is Some {
        &&& r == Err::<Notification, AuthError>(AuthError::DuplicateIdentity)
        &&& new == old
    } else {
        &&& new.len() == old.len() + 1
        &&& new.drop_last() == old
        &&& is_new_record(new.last(), username, password, email, url, id, salt, token, now)
        &&& match r {
            Ok(n) => {
                &&& n.address@ == email
                &&& n.subject@ == ACTIVATION_SUBJECT@
                &&& n.body@ == activation_body(token)
            },
            Err(_) => false,
        }
    }
}

/// Whether the activation token of `u` is past its validity at `now`.
pub open spec fn activation_expired(u: User, now: i64) -> bool {
    match u.activation_token_valid_until {
        Some(v) => now >= v,
        None => true,
    }
}

/// Activation with `token` at `now`: refused when no record holds the
/// token, or when the first that does is past its validity; otherwise that
/// record is marked activated and its redirection target is returned.
pub open spec fn activate_post(
    old: Seq<User>,
    new: Seq<User>,
    token: Seq<char>,
    now: i64,
    r: Result<String, AuthError>,
) -> bool {
    match activation_index(old, token) {
        None => {
            &&& r == Err::<String, AuthError>(AuthError::InvalidToken)
            &&& new == old
        },
        Some(i) => if activation_expired(old[i], now) {
            &&& r == Err::<String, AuthError>(AuthError::TokenExpired)
            &&& new == old
        } else {
            &&& new == old.update(i, User { is_activated: true, ..old[i] })
            &&& match r {
                Ok(url) => opt_view(old[i].activation_redirection_url) == Some(url@),
                Err(_) => false,
            }
        },
    }
}

/// Login of `username` with `password`; `fresh` is the token issued if the
/// account has none yet, and `firebase` whether an assertion was asked for.
/// An unknown name, a wrong password and an account not yet activated are
/// refused, each with its own error and nothing changed. Otherwise the
/// account's access token is returned: the one it holds, or else `fresh`,
/// which is then stored on it; where another account already holds
/// `fresh`, the store refuses it with `StorageUnavailable`.
pub open spec fn login_post(
    old: Seq<User>,
    new: Seq<User>,
    username: Seq<char>,
    password: Seq<char>,
    fresh: Seq<char>,
    firebase: bool,
    r: Result<LoginGrant, AuthError>,
) -> bool {
    match username_index(old, username) {
        None => {
            &&& r == Err::<LoginGrant, AuthError>(AuthError::InvalidCredentials)
            &&& new == old
        },
        Some(i) => if !old[i].password_matches(password) {
            &&& r == Err::<LoginGrant, AuthError>(AuthError::WrongCredentials)
            &&& new == old
        } else if !old[i].is_activated {
            &&& r == Err::<LoginGrant, AuthError>(AuthError::NotActivated)
            &&& new == old
        } else {
            match r {
                Ok(g) => {
                    &&& firebase ==> opt_view(g.firebase_uid) == Some(old[i].id@)
                    &&& !firebase ==> g.firebase_uid is None
                    &&& match old[i].access_token {
                        Some(t) => g.access_token@ == t@ && new == old,
                        None => {
                            &&& access_index(old, fresh) is None
                            &&& g.access_token@ == fresh
                            &&& opt_view(new[i].access_token) == Some(fresh)
                            &&& new == old.update(i, User { access_token: new[i].access_token, ..old[i] })
                        },
                    }
                },
                Err(e) => {
                    &&& old[i].access_token is None
                    &&& access_index(old, fresh) is Some
                    &&& e == AuthError::StorageUnavailable
                    &&& new == old
                },
            }
        },
    }
}

/// Who-am-I with access token `token`: the identity of the first record
/// holding it, provided that record is activated.
pub open spec fn me_post(users: Seq<User>, token: Seq<char>, r: Result<Identity, AuthError>) -> bool {
    match access_index(users, token) {
        None => r == Err::<Identity, AuthError>(AuthError::Unauthenticated),
        Some(i) => if !users[i].is_activated {
            r == Err::<Identity, AuthError>(AuthError::Unauthenticated)
        } else {
            match r {
                Ok(who) => {
                    &&& who.id@ == users[i].id@
                    &&& who.username@ == users[i].username@
                    &&& who.email@ == users[i].email@
                },
                Err(_) => false,
            }
        },
    }
}

/// Whether `service` is the Firebase service.
pub open spec fn names_firebase(service: String) -> bool {
    service@ == FIREBASE_SERVICE@
}

/// Whether the requested services include Firebase.
pub open spec fn requests_firebase(services: Option<Seq<String>>) -> bool {
    &&& services is Some
    &&& exists|k: int| 0 <= k < services->Some_0.len() && #[trigger] names_firebase(services->Some_0[k])
}

pub open spec fn services_view(services: Option<Vec<String>>) -> Option<Seq<String>> {
    match services {
        Some(list) => Some(list@),
        None => None,
    }
}

/// Whether `services` names the Firebase service.
pub fn wants_firebase(services: &Option<Vec<String>>) -> (r: bool)
    ensures
        r == requests_firebase(services_view(*services)),
{
    match services {
        None => false,
        Some(list) => {
            let target = String::from_str(FIREBASE_SERVICE);
            let mut k: usize = 0;
            while k < list.len()
                invariant
                    k <= list@.len(),
                    services_view(*services) == Some(list@),
                    target@ == FIREBASE_SERVICE@,
                    forall|j: int| 0 <= j < k ==> !#[trigger] names_firebase(list@[j]),
                decreases list@.len() - k,
            {
                if list[k] == target {
                    assert(names_firebase(services_view(*services)->Some_0[k as int]));
                    return true;
                }
                k = k + 1;
            }
            false
        },
    }
}

impl AccountStore {
    /// A store with no account.
    pub fn new() -> (r: AccountStore)
        ensures
            r.users@.len() == 0,
            store_wf(r.users@),
    {
        AccountStore { users: Vec::new() }
    }

    /// Position of the account named `username`.
    pub fn find_by_username(&self, username: &String) -> (r: Option<usize>)
        ensures
            opt_int(r) == username_index(self.users@, username@),
    {
        let ghost p = named(username@);
        let mut i: usize = 0;
        while i < self.users.len()
            invariant
                i <= self.users@.len(),
                p == named(username@),
                forall|j: int| 0 <= j < i ==> !p(#[trigger] self.users@[j]),
            decreases self.users@.len() - i,
        {
            if self.users[i].username == *username {
                proof {
                    lemma_first_found(self.users@, p, i as int);
                }
                return Some(i);
            }
            i = i + 1;
        }
        proof {
            lemma_none_found(self.users@, p);
        }
        None
    }
    /// Position of the first account whose activation token is `token`.
    pub fn find_by_activation_token(&self, token: &String) -> (r: Option<usize>)
        ensures
            opt_int(r) == activation_index(self.users@, token@),
    {
        let ghost p = holds_activation_token(token@);
        let mut i: usize = 0;
        while i < self.users.len()
            invariant
                i <= self.users@.len(),
                p == holds_activation_token(token@),
                forall|j: int| 0 <= j < i ==> !p(#[trigger] self.users@[j]),
            decreases self.users@.len() - i,
        {
            match &self.users[i].activation_token {
                Some(t) => {
                    if *t == *token {
                        proof {
                            lemma_first_found(self.users@, p, i as int);
                        }
                        return Some(i);
                    }
                },
                None => {},
            }
            i = i + 1;
        }
        proof {
            lemma_none_found(self.users@, p);
        }
        None
    }

    /// Position of the first account whose access token is `token`.
    pub fn find_by_access_token(&self, token: &String) -> (r: Option<usize>)
        ensures
            opt_int(r) == access_index(self.users@, token@),
    {
        let ghost p = holds_access_token(token@);
        let mut i: usize = 0;
        while i < self.users.len()
            invariant
                i <= self.users@.len(),
                p == holds_access_token(token@),
                forall|j: int| 0 <= j < i ==> !p(#[trigger] self.users@[j]),
            decreases self.users@.len() - i,
        {
            match &self.users[i].access_token {
                Some(t) => {
                    if *t == *token {
                        proof {
                            lemma_first_found(self.users@, p, i as int);
                        }
                        return Some(i);
                    }
                },
                None => {},
            }
            i = i + 1;
        }
        proof {
            lemma_none_found(self.users@, p);
        }
        None
    }

    /// Whether some account already uses identifier `id` or name `username`.
    pub fn is_identity_taken(&self, id: &String, username: &String) -> (r: bool)
        ensures
            r == identity_taken(self.users@, id@, username@),
    {
        let mut i: usize = 0;
        while i < self.users.len()
            invariant
                i <= self.users@.len(),
                forall|j: int| 0 <= j < i ==> !((#[trigger] self.users@[j]).id@ == id@ || self.users@[j].username@ == username@),
            decreases self.users@.len() - i,
        {
            let same_id = self.users[i].id == *id;
            let same_name = self.users[i].username == *username;
            if same_id || same_name {
                return true;
            }
            i = i + 1;
        }
        false
    }
    /// Registers `username` with the given identifier, salt, activation
    /// token and current instant; see [`register_post`].
    pub fn register_with(
        &mut self,
        username: &str,
        password: &str,
        email: &str,
        redirection_url: &str,
        id: String,
        salt: String,
        activation_token: String,
        now: i64,
    ) -> (r: Result<Notification, AuthError>)
        requires
            store_wf(old(self).users@),
            password.spec_bytes().len() <= MAX_PASSWORD_BYTES,
            salt_in_range(salt@),
            now <= i64::MAX - ACTIVATION_WINDOW,
        ensures
            store_wf(final(self).users@),
            register_post(
                old(self).users@,
                final(self).users@,
                username@,
                password@,
                email@,
                redirection_url@,
                id@,
                salt@,
                activation_token@,
                now,
                r,
            ),
    {
        let name = String::from_str(username);
        if self.is_identity_taken(&id, &name) {
            return Err(AuthError::DuplicateIdentity);
        }
        if self.find_by_activation_token(&activation_token).is_some() {
            return Err(AuthError::DuplicateIdentity);
        }
        let ghost token = activation_token@;
        let hash = hash_password(password, salt.as_str());
        let body = email_body_activation(activation_token.as_str());
        let user = User {
            id,
            username: name,
            password_hash: hash,
            password_salt: salt,
            email: String::from_str(email),
            access_token: None,
            access_token_valid_until: None,
            is_activated: false,
            activation_token: Some(activation_token),
            activation_token_valid_until: Some(now + ACTIVATION_WINDOW),
            activation_redirection_url: Some(String::from_str(redirection_url)),
        };
        self.users.push(user);
        proof {
            let old_users = old(self).users@;
            let users = self.users@;
            assert(users.drop_last() =~= old_users);
            assert forall|i: int| 0 <= i < old_users.len() implies users[i] == old_users[i] by {}
            assert forall|i: int, j: int|
                0 <= i < users.len() && 0 <= j < users.len() && i != j implies records_distinct(
                    #[trigger] users[i],
                    #[trigger] users[j],
                ) by {
                if i == old_users.len() {
                    assert(!((old_users[j]).id@ == users[i].id@ || old_users[j].username@ == users[i].username@));
                    if opt_view(old_users[j].activation_token) == Some(token) {
                        lemma_match_has_first(old_users, holds_activation_token(token), j);
                    }
                } else if j == old_users.len() {
                    assert(!((old_users[i]).id@ == users[j].id@ || old_users[i].username@ == users[j].username@));
                    if opt_view(old_users[i].activation_token) == Some(token) {
                        lemma_match_has_first(old_users, holds_activation_token(token), i);
                    }
                } else {
                    assert(records_distinct(old_users[i], old_users[j]));
                }
            }
        }
        Ok(
            Notification {
                address: String::from_str(email),
                subject: String::from_str(ACTIVATION_SUBJECT),
                body,
            },
        )
    }

    /// Registers a new account: draws its identifier, password salt and
    /// activation token, reads the clock, and goes on as
    /// [`AccountStore::register_with`].
    pub fn register(&mut self, username: &str, password: &str, email: &str, redirection_url: &str) -> (r:
        Result<Notification, AuthError>)
        requires
            store_wf(old(self).users@),
            password.spec_bytes().len() <= MAX_PASSWORD_BYTES,
        ensures
            store_wf(final(self).users@),
            exists|id: Seq<char>, salt: Seq<char>, token: Seq<char>, now: i64|
                {
                    &&& id.len() == ACCOUNT_ID_LEN
                    &&& is_token_of_len(salt, SALT_LEN as nat)
                    &&& is_token_of_len(token, ACTIVATION_TOKEN_LEN as nat)
                    &&& -MAX_TIMESTAMP <= now <= MAX_TIMESTAMP
                    &&& #[trigger] register_post(
                        old(self).users@,
                        final(self).users@,
                        username@,
                        password@,
                        email@,
                        redirection_url@,
                        id,
                        salt,
                        token,
                        now,
                        r,
                    )
                },
    {
        let id = random_account_id();
        let salt = random_token(SALT_LEN);
        let activation_token = random_token(ACTIVATION_TOKEN_LEN);
        let now = now_timestamp();
        let ghost (gid, gsalt, gtoken) = (id@, salt@, activation_token@);
        let r = self.register_with(username, password, email, redirection_url, id, salt, activation_token, now);
        assert(register_post(
            old(self).users@,
            self.users@,
            username@,
            password@,
            email@,
            redirection_url@,
            gid,
            gsalt,
            gtoken,
            now,
            r,
        ));
        r
    }

    /// Activates the account holding `token` at instant `now`; see
    /// [`activate_post`]. A token that stays findable activates again,
    /// which changes nothing further.
    pub fn activate_at(&mut self, token: &str, now: i64) -> (r: Result<String, AuthError>)
        requires
            store_wf(old(self).users@),
        ensures
            store_wf(final(self).users@),
            activate_post(old(self).users@, final(self).users@, token@, now, r),
    {
        let wanted = String::from_str(token);
        let i = match self.find_by_activation_token(&wanted) {
            None => {
                return Err(AuthError::InvalidToken);
            },
            Some(i) => i,
        };
        proof {
            let p = holds_activation_token(token@);
            assert(is_first(self.users@, p, i as int));
        }
        let valid_until = match self.users[i].activation_token_valid_until {
            Some(v) => v,
            None => {
                return Err(AuthError::TokenExpired);
            },
        };
        if now >= valid_until {
            return Err(AuthError::TokenExpired);
        }
        let url = match &self.users[i].activation_redirection_url {
            Some(u) => u.clone(),
            None => {
                return Err(AuthError::InvalidToken);
            },
        };
        self.users[i].is_activated = true;
        proof {
            assert(self.users@ =~= old(self).users@.update(i as int, User { is_activated: true, ..old(self).users@[i as int] }));
            assert forall|j: int| 0 <= j < self.users@.len() implies (#[trigger] self.users@[j]).wf() by {
                assert(old(self).users@[j].wf());
            }
            assert forall|a: int, b: int|
                0 <= a < self.users@.len() && 0 <= b < self.users@.len() && a != b implies {
                    &&& (#[trigger] self.users@[a]).username@ != (#[trigger] self.users@[b]).username@
                    &&& self.users@[a].id@ != self.users@[b].id@
                } by {
                assert(old(self).users@[a].username@ != old(self).users@[b].username@);
            }
        }
        Ok(url)
    }
    /// Activates the account holding `token`, as of now.
    pub fn activate(&mut self, token: &str) -> (r: Result<String, AuthError>)
        requires
            store_wf(old(self).users@),
        ensures
            store_wf(final(self).users@),
            exists|now: i64|
                -MAX_TIMESTAMP <= now <= MAX_TIMESTAMP && #[trigger] activate_post(old(self).users@, final(self).users@, token@, now, r),
    {
        let now = now_timestamp();
        self.activate_at(token, now)
    }

    /// Logs `username` in with `password`, issuing `fresh` if the account
    /// has no access token yet; see [`login_post`].
    pub fn login_with(
        &mut self,
        username: &str,
        password: &str,
        services: &Option<Vec<String>>,
        fresh: String,
    ) -> (r: Result<LoginGrant, AuthError>)
        requires
            store_wf(old(self).users@),
            password.spec_bytes().len() <= MAX_PASSWORD_BYTES,
        ensures
            store_wf(final(self).users@),
            login_post(
                old(self).users@,
                final(self).users@,
                username@,
                password@,
                fresh@,
                requests_firebase(services_view(*services)),
                r,
            ),
    {
        let name = String::from_str(username);
        let i = match self.find_by_username(&name) {
            None => {
                return Err(AuthError::InvalidCredentials);
            },
            Some(i) => i,
        };
        if !self.users[i].verify_password(password) {
            return Err(AuthError::WrongCredentials);
        }
        if !self.users[i].is_activated {
            return Err(AuthError::NotActivated);
        }
        let firebase_uid = if wants_firebase(services) {
            Some(self.users[i].id.clone())
        } else {
            None
        };
        match &self.users[i].access_token {
            Some(t) => {
                return Ok(LoginGrant { access_token: t.clone(), firebase_uid });
            },
            None => {},
        }
        if self.find_by_access_token(&fresh).is_some() {
            return Err(AuthError::StorageUnavailable);
        }
        let ghost fresh_view = fresh@;
        let issued = fresh.clone();
        self.users[i].access_token = Some(fresh);
        proof {
            assert(self.users@ =~= old(self).users@.update(
                i as int,
                User { access_token: self.users@[i as int].access_token, ..old(self).users@[i as int] },
            ));
            assert forall|j: int| 0 <= j < self.users@.len() implies (#[trigger] self.users@[j]).wf() by {
                assert(old(self).users@[j].wf());
            }
            assert forall|a: int, b: int|
                0 <= a < self.users@.len() && 0 <= b < self.users@.len() && a != b implies records_distinct(
                    #[trigger] self.users@[a],
                    #[trigger] self.users@[b],
                ) by {
                assert(records_distinct(old(self).users@[a], old(self).users@[b]));
                if a == i {
                    if opt_view(old(self).users@[b].access_token) == Some(fresh_view) {
                        lemma_match_has_first(old(self).users@, holds_access_token(fresh_view), b);
                    }
                } else if b == i {
                    if opt_view(old(self).users@[a].access_token) == Some(fresh_view) {
                        lemma_match_has_first(old(self).users@, holds_access_token(fresh_view), a);
                    }
                }
            }
        }
        Ok(LoginGrant { access_token: issued, firebase_uid })
    }

    /// Logs `username` in with `password`; an account without an access
    /// token gets a freshly drawn one.
    pub fn login(&mut self, username: &str, password: &str, services: &Option<Vec<String>>) -> (r:
        Result<LoginGrant, AuthError>)
        requires
            store_wf(old(self).users@),
            password.spec_bytes().len() <= MAX_PASSWORD_BYTES,
        ensures
            store_wf(final(self).users@),
            exists|fresh: Seq<char>|
                is_token_of_len(fresh, ACCESS_TOKEN_LEN as nat) && #[trigger] login_post(
                    old(self).users@,
                    final(self).users@,
                    username@,
                    password@,
                    fresh,
                    requests_firebase(services_view(*services)),
                    r,
                ),
    {
        let fresh = random_token(ACCESS_TOKEN_LEN);
        let ghost issued = fresh@;
        let r = self.login_with(username, password, services, fresh);
        assert(login_post(
            old(self).users@,
            self.users@,
            username@,
            password@,
            issued,
            requests_firebase(services_view(*services)),
            r,
        ));
        r
    }

    /// The identity of the activated account holding `access_token`; see
    /// [`me_post`].
    pub fn me(&self, access_token: &str) -> (r: Result<Identity, AuthError>)
        ensures
            me_post(self.users@, access_token@, r),
    {
        let wanted = String::from_str(access_token);
        let i = match self.find_by_access_token(&wanted) {
            None => {
                return Err(AuthError::Unauthenticated);
            },
            Some(i) => i,
        };
        if !self.users[i].is_activated {
            return Err(AuthError::Unauthenticated);
        }
        Ok(
            Identity {
                id: self.users[i].id.clone(),
                username: self.users[i].username.clone(),
                email: self.users[i].email.clone(),
            },
        )
    }
}

// ---------------------------------------------------------------------
// Laws of the lifecycle

proof fn lemma_match_has_first(users: Seq<User>, p: spec_fn(User) -> bool, k: int)
    requires
        0 <= k < users.len(),
        p(users[k]),
    ensures
        first_index(users, p) is Some,
    decreases k,
{
    if exists|j: int| 0 <= j < k && p(#[trigger] users[j]) {
        let j = choose|j: int| 0 <= j < k && p(#[trigger] users[j]);
        lemma_match_has_first(users, p, j);
    } else {
        lemma_first_found(users, p, k);
    }
}

/// The first position that `p` picks in `a` is the one it picks in `b`
/// when the two agree on every position.
proof fn lemma_first_index_agrees(a: Seq<User>, b: Seq<User>, p: spec_fn(User) -> bool)
    requires
        a.len() == b.len(),
        forall|j: int| 0 <= j < a.len() ==> p(#[trigger] a[j]) == p(b[j]),
    ensures
        first_index(a, p) == first_index(b, p),
{
    if exists|i: int| is_first(a, p, i) {
        let i = choose|i: int| is_first(a, p, i);
        assert forall|j: int| 0 <= j < i implies !p(#[trigger] b[j]) by {
            assert(!p(a[j]));
        }
        lemma_first_found(a, p, i);
        lemma_first_found(b, p, i);
    } else if exists|i: int| is_first(b, p, i) {
        let i = choose|i: int| is_first(b, p, i);
        assert forall|j: int| 0 <= j < i implies !p(#[trigger] a[j]) by {
            assert(!p(b[j]));
        }
        assert(is_first(a, p, i));
    }
}

/// The first record that `p` picks after a registration is the new one,
/// when `p` picks it and no earlier record.
proof fn lemma_new_record_found(old: Seq<User>, new: Seq<User>, p: spec_fn(User) -> bool)
    requires
        new.len() == old.len() + 1,
        new.drop_last() == old,
        p(new.last()),
        first_index(old, p) is None,
    ensures
        first_index(new, p) == Some(old.len() as int),
{
    assert forall|j: int| 0 <= j < old.len() implies !p(#[trigger] new[j]) by {
        assert(new[j] == old[j]);
        if p(old[j]) {
            lemma_match_has_first(old, p, j);
        }
    }
    lemma_first_found(new, p, old.len() as int);
}

/// A record whose digest was made from `password` under its own salt
/// verifies `password`.
pub proof fn lemma_own_digest_verifies(u: User, password: Seq<char>)
    requires
        u.password_hash@ == argon2i_digest(password, u.password_salt@),
    ensures
        u.password_matches(password),
{
}

/// Registering a name that some account already has fails with
/// `DuplicateIdentity` and leaves every record as it was.
pub proof fn lemma_taken_username_refused(
    old: Seq<User>,
    new: Seq<User>,
    username: Seq<char>,
    password: Seq<char>,
    email: Seq<char>,
    url: Seq<char>,
    id: Seq<char>,
    salt: Seq<char>,
    token: Seq<char>,
    now: i64,
    i: int,
    r: Result<Notification, AuthError>,
)
    requires
        0 <= i < old.len(),
        old[i].username@ == username,
        register_post(old, new, username, password, email, url, id, salt, token, now, r),
    ensures
        r == Err::<Notification, AuthError>(AuthError::DuplicateIdentity),
        new == old,
{
    assert(identity_taken(old, id, username));
}

/// Logging in to an unactivated account with its right password fails
/// with `NotActivated` and changes nothing.
pub proof fn lemma_unactivated_login_refused(
    old: Seq<User>,
    new: Seq<User>,
    username: Seq<char>,
    password: Seq<char>,
    fresh: Seq<char>,
    firebase: bool,
    i: int,
    r: Result<LoginGrant, AuthError>,
)
    requires
        store_wf(old),
        0 <= i < old.len(),
        old[i].username@ == username,
        old[i].password_matches(password),
        !old[i].is_activated,
        login_post(old, new, username, password, fresh, firebase, r),
    ensures
        r == Err::<LoginGrant, AuthError>(AuthError::NotActivated),
        new == old,
{
    let p = named(username);
    assert forall|j: int| 0 <= j < i implies !p(#[trigger] old[j]) by {
        assert(records_distinct(old[i], old[j]));
    }
    lemma_first_found(old, p, i);
}

/// After a registration, the record it created verifies the password it
/// was registered with.
pub proof fn lemma_registered_password_verifies(
    old: Seq<User>,
    new: Seq<User>,
    username: Seq<char>,
    password: Seq<char>,
    email: Seq<char>,
    url: Seq<char>,
    id: Seq<char>,
    salt: Seq<char>,
    token: Seq<char>,
    now: i64,
    r: Result<Notification, AuthError>,
)
    requires
        register_post(old, new, username, password, email, url, id, salt, token, now, r),
        r is Ok,
    ensures
        new.last().password_matches(password),
{
}

/// Registering a name that a registration has already taken fails with
/// `DuplicateIdentity`, whatever the second password, address or drawn
/// values, and leaves every record as it was.
pub proof fn lemma_duplicate_registration_refused(
    s0: Seq<User>,
    s1: Seq<User>,
    s2: Seq<User>,
    username: Seq<char>,
    password1: Seq<char>,
    email1: Seq<char>,
    url1: Seq<char>,
    id1: Seq<char>,
    salt1: Seq<char>,
    token1: Seq<char>,
    now1: i64,
    r1: Result<Notification, AuthError>,
    password2: Seq<char>,
    email2: Seq<char>,
    url2: Seq<char>,
    id2: Seq<char>,
    salt2: Seq<char>,
    token2: Seq<char>,
    now2: i64,
    r2: Result<Notification, AuthError>,
)
    requires
        register_post(s0, s1, username, password1, email1, url1, id1, salt1, token1, now1, r1),
        r1 is Ok,
        register_post(s1, s2, username, password2, email2, url2, id2, salt2, token2, now2, r2),
    ensures
        r2 == Err::<Notification, AuthError>(AuthError::DuplicateIdentity),
        s2 == s1,
{
    let k = s0.len() as int;
    assert(s1[k].username@ == username);
    assert(identity_taken(s1, id2, username));
}

/// In a well-formed store, the record holding activation token `token` is
/// the one that activation finds.
proof fn lemma_activation_holder_found(users: Seq<User>, token: Seq<char>, i: int)
    requires
        store_wf(users),
        0 <= i < users.len(),
        opt_view(users[i].activation_token) == Some(token),
    ensures
        activation_index(users, token) == Some(i),
{
    let p = holds_activation_token(token);
    assert forall|j: int| 0 <= j < i implies !p(#[trigger] users[j]) by {
        assert(records_distinct(users[i], users[j]));
    }
    lemma_first_found(users, p, i);
}

/// Activating with the token of an account, once that token's validity
/// has run out, fails with `TokenExpired` and changes nothing: the account
/// stays as it was, and a retry with the same token is judged afresh.
pub proof fn lemma_expired_token_refused(
    old: Seq<User>,
    new: Seq<User>,
    token: Seq<char>,
    now: i64,
    i: int,
    r: Result<String, AuthError>,
)
    requires
        store_wf(old),
        0 <= i < old.len(),
        opt_view(old[i].activation_token) == Some(token),
        activation_expired(old[i], now),
        activate_post(old, new, token, now, r),
    ensures
        r == Err::<String, AuthError>(AuthError::TokenExpired),
        new == old,
        new[i].is_activated == old[i].is_activated,
        new[i].activation_token == old[i].activation_token,
{
    lemma_activation_holder_found(old, token, i);
}

/// Activating with the token of an account before that token's validity
/// runs out marks the account activated, changes no other record, and
/// returns the account's redirection target.
pub proof fn lemma_valid_token_activates(
    old: Seq<User>,
    new: Seq<User>,
    token: Seq<char>,
    now: i64,
    i: int,
    r: Result<String, AuthError>,
)
    requires
        store_wf(old),
        0 <= i < old.len(),
        opt_view(old[i].activation_token) == Some(token),
        !activation_expired(old[i], now),
        activate_post(old, new, token, now, r),
    ensures
        r is Ok,
        opt_view(old[i].activation_redirection_url) == Some(r->Ok_0@),
        new.len() == old.len(),
        new[i].is_activated,
        forall|j: int| 0 <= j < old.len() && j != i ==> new[j] == old[j],
{
    lemma_activation_holder_found(old, token, i);
}

/// Activating a freshly registered account once its token's validity has
/// run out fails with `TokenExpired`, and the account stays unactivated.
pub proof fn lemma_activation_after_expiry(
    s0: Seq<User>,
    s1: Seq<User>,
    s2: Seq<User>,
    username: Seq<char>,
    password: Seq<char>,
    email: Seq<char>,
    url: Seq<char>,
    id: Seq<char>,
    salt: Seq<char>,
    token: Seq<char>,
    now: i64,
    r1: Result<Notification, AuthError>,
    later: i64,
    r2: Result<String, AuthError>,
)
    requires
        now <= i64::MAX - ACTIVATION_WINDOW,
        register_post(s0, s1, username, password, email, url, id, salt, token, now, r1),
        r1 is Ok,
        later >= now + ACTIVATION_WINDOW,
        activate_post(s1, s2, token, later, r2),
    ensures
        r2 == Err::<String, AuthError>(AuthError::TokenExpired),
        s2 == s1,
        !s2.last().is_activated,
{
    lemma_new_record_found(s0, s1, holds_activation_token(token));
}

/// Activating a freshly registered account before its token's validity
/// runs out marks it activated and returns the redirection target given
/// at registration.
pub proof fn lemma_activation_before_expiry(
    s0: Seq<User>,
    s1: Seq<User>,
    s2: Seq<User>,
    username: Seq<char>,
    password: Seq<char>,
    email: Seq<char>,
    url: Seq<char>,
    id: Seq<char>,
    salt: Seq<char>,
    token: Seq<char>,
    now: i64,
    r1: Result<Notification, AuthError>,
    later: i64,
    r2: Result<String, AuthError>,
)
    requires
        now <= i64::MAX - ACTIVATION_WINDOW,
        register_post(s0, s1, username, password, email, url, id, salt, token, now, r1),
        r1 is Ok,
        later < now + ACTIVATION_WINDOW,
        activate_post(s1, s2, token, later, r2),
    ensures
        r2 is Ok,
        r2->Ok_0@ == url,
        s2.len() == s1.len(),
        s2.last().is_activated,
{
    lemma_new_record_found(s0, s1, holds_activation_token(token));
}

/// Logging in to a freshly registered account, with the right password,
/// fails with `NotActivated`.
pub proof fn lemma_login_before_activation(
    s0: Seq<User>,
    s1: Seq<User>,
    s2: Seq<User>,
    username: Seq<char>,
    password: Seq<char>,
    email: Seq<char>,
    url: Seq<char>,
    id: Seq<char>,
    salt: Seq<char>,
    token: Seq<char>,
    now: i64,
    r1: Result<Notification, AuthError>,
    fresh: Seq<char>,
    firebase: bool,
    r2: Result<LoginGrant, AuthError>,
)
    requires
        register_post(s0, s1, username, password, email, url, id, salt, token, now, r1),
        r1 is Ok,
        login_post(s1, s2, username, password, fresh, firebase, r2),
    ensures
        r2 == Err::<LoginGrant, AuthError>(AuthError::NotActivated),
        s2 == s1,
{
    let p = named(username);
    assert forall|j: int| 0 <= j < s0.len() implies !p(#[trigger] s1[j]) by {
        assert(s1[j] == s0[j]);
        assert(!(s0[j].id@ == id || s0[j].username@ == username));
    }
    lemma_first_found(s1, p, s0.len() as int);
}

/// Two successive successful logins to one account return the same access
/// token, and the second changes nothing.
pub proof fn lemma_login_reuses_token(
    s0: Seq<User>,
    s1: Seq<User>,
    s2: Seq<User>,
    username: Seq<char>,
    password: Seq<char>,
    fresh1: Seq<char>,
    firebase1: bool,
    r1: Result<LoginGrant, AuthError>,
    fresh2: Seq<char>,
    firebase2: bool,
    r2: Result<LoginGrant, AuthError>,
)
    requires
        login_post(s0, s1, username, password, fresh1, firebase1, r1),
        r1 is Ok,
        login_post(s1, s2, username, password, fresh2, firebase2, r2),
    ensures
        r2 is Ok,
        r2->Ok_0.access_token@ == r1->Ok_0.access_token@,
        s2 == s1,
{
    let p = named(username);
    let i = username_index(s0, username)->Some_0;
    assert forall|j: int| 0 <= j < s0.len() implies p(#[trigger] s0[j]) == p(s1[j]) by {
        if j == i {
            assert(s1[j].username == s0[j].username);
        } else {
            assert(s1[j] == s0[j]);
        }
    }
    lemma_first_index_agrees(s0, s1, p);
}

/// Who-am-I with the access token of an unactivated account fails with
/// `Unauthenticated`.
pub proof fn lemma_me_requires_activation(
    users: Seq<User>,
    token: Seq<char>,
    i: int,
    r: Result<Identity, AuthError>,
)
    requires
        store_wf(users),
        0 <= i < users.len(),
        opt_view(users[i].access_token) == Some(token),
        !users[i].is_activated,
        me_post(users, token, r),
    ensures
        r == Err::<Identity, AuthError>(AuthError::Unauthenticated),
{
    let p = holds_access_token(token);
    assert forall|j: int| 0 <= j < i implies !p(#[trigger] users[j]) by {
        assert(records_distinct(users[i], users[j]));
    }
    lemma_first_found(users, p, i);
}

/// On an empty store: registering an account, activating it with its token
/// before that expires, logging in with the same name and password, and
/// asking who-am-I with the access token returned, gives back the
/// account's identifier, name and address. On the way, the registration
/// stores one unactivated record whose token is valid for the activation
/// window, activation returns the redirection target given at
/// registration, and login issues the token drawn for it.
pub proof fn lemma_register_activate_login_me(
    s0: Seq<User>,
    s1: Seq<User>,
    s2: Seq<User>,
    s3: Seq<User>,
    username: Seq<char>,
    password: Seq<char>,
    email: Seq<char>,
    url: Seq<char>,
    id: Seq<char>,
    salt: Seq<char>,
    token: Seq<char>,
    now: i64,
    r1: Result<Notification, AuthError>,
    later: i64,
    r2: Result<String, AuthError>,
    fresh: Seq<char>,
    firebase: bool,
    r3: Result<LoginGrant, AuthError>,
    r4: Result<Identity, AuthError>,
)
    requires
        s0.len() == 0,
        now <= i64::MAX - ACTIVATION_WINDOW,
        register_post(s0, s1, username, password, email, url, id, salt, token, now, r1),
        later < now + ACTIVATION_WINDOW,
        activate_post(s1, s2, token, later, r2),
        login_post(s2, s3, username, password, fresh, firebase, r3),
        me_post(s3, r3->Ok_0.access_token@, r4),
    ensures
        r1 is Ok,
        s1.len() == 1,
        !s1[0].is_activated,
        opt_view(s1[0].activation_token) == Some(token),
        s1[0].activation_token_valid_until == Some((now + ACTIVATION_WINDOW) as i64),
        r2 is Ok,
        r2->Ok_0@ == url,
        s2[0].is_activated,
        r3 is Ok,
        r3->Ok_0.access_token@ == fresh,
        r4 is Ok,
        r4->Ok_0.id@ == id,
        r4->Ok_0.username@ == username,
        r4->Ok_0.email@ == email,
{
    assert(!identity_taken(s0, id, username));
    lemma_none_found(s0, holds_activation_token(token));
    lemma_activation_before_expiry(s0, s1, s2, username, password, email, url, id, salt, token, now, r1, later, r2);
    lemma_first_found(s2, named(username), 0);
    assert(s2[0].password_matches(password));
    lemma_first_found(s3, holds_access_token(fresh), 0);
}

} // verus!
