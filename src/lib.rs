//! Account authentication core: password hashing, opaque tokens, the account
//! record, and the register / activate / login / who-am-i lifecycle.

pub mod accounts;
pub mod api;
pub mod clock;
pub mod firebase;
pub mod hasher;
pub mod templates;
pub mod token;
pub mod user;
