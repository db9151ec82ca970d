//! Users and the credential check behind sign-in.
//!
//! Session tokens and their expiry live outside the library; it only
//! decides whether a username/password pair names a configured user.
use vstd::prelude::*;

use crate::config::Config;
use crate::config::argon2_verifies;

verus! {

/// A configured user: a name and the argon2 hash of the password.
#[derive(Clone, Debug)]
pub struct User {
    pub username: String,
    pub password: String,
}

impl User {
    pub fn new(username: String, password: String) -> (r: User)
        ensures
            r.username@ == username@,
            r.password@ == password@,
    {
        User { username, password }
    }
}

/// A sign-in request: the credentials a client presented.
#[derive(Debug)]
pub struct SignInRequest {
    pub username: String,
    pub password: String,
}

/// The answer to a sign-in request: whether it succeeded, and the fresh
/// session token when it did.
#[derive(Debug)]
pub struct SignInResponse {
    pub success: bool,
    pub token: Option<String>,
}

/// Whether `i` names the first user called `name`, and that user's stored
/// hash verifies against `password`.
pub open spec fn credentials_match_at(
    users: Seq<User>,
    name: Seq<char>,
    password: Seq<char>,
    i: int,
) -> bool {
    &&& 0 <= i < users.len()
    &&& users[i].username@ == name
    &&& (forall|k: int| 0 <= k < i ==> users[k].username@ != name)
    &&& argon2_verifies(password, users[i].password@)
}

/// Index of the user the presented credentials name: the first user with
/// the given username, provided the password verifies against that user's
/// stored hash.  Later users with the same name are never consulted.
pub fn get_user_by_credentials(
    config: &Config,
    users: &Vec<User>,
    username: &String,
    password: &String,
) -> (r: Option<usize>)
    ensures
        (r matches Some(i) ==> credentials_match_at(users@, username@, password@, i as int)),
        (r is None ==> forall|i: int|
            !credentials_match_at(users@, username@, password@, i)),
{
    let mut i: usize = 0;
    while i < users.len()
        invariant
            i <= users.len(),
            forall|k: int| 0 <= k < i ==> users@[k].username@ != username@,
        decreases users.len() - i,
    {
        if users[i].username == *username {
            if config.verify_password(password, &users[i].password) {
                return Some(i);
            }
            return None;
        }
        i += 1;
    }
    None
}

} // verus!
