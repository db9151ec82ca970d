//! Controller configuration: the password salt, the session token lifetime,
//! and an optional timezone override for schedule evaluation.
//!
//! Password hashing itself is delegated to argon2 behind trusted wrappers;
//! the library only states that both operations are functions of their
//! arguments.
use vstd::prelude::*;

verus! {

/// Configuration loaded at startup.  Reading and writing the configuration
/// file happens outside the library.
#[derive(Debug)]
pub struct Config {
    /// Base64 salt used when hashing user passwords.
    pub user_pass_hash: String,
    /// How long a session token stays valid, in seconds.
    pub user_token_expiry_time_seconds: u64,
    /// IANA timezone name used by schedule evaluation; the system timezone
    /// when unset.
    pub timezone_override: Option<String>,
}

/// The argon2 hash of `password` under the salt `salt_b64`, as the encoded
/// hash string.  Named only: argon2 documents the result as a deterministic
/// function of password, salt and parameters.
pub uninterp spec fn argon2_hash_of(salt_b64: Seq<char>, password: Seq<char>) -> Seq<char>;

/// Whether `password` verifies against the encoded hash string `hash`.
/// Named only: argon2 recomputes the hash with the parameters carried by
/// `hash`, so the outcome is a deterministic function of the two arguments.
pub uninterp spec fn argon2_verifies(password: Seq<char>, hash: Seq<char>) -> bool;

impl Config {
    /// Hash a password with the salt stored in the configuration.  `None`
    /// when the stored salt is not a valid argon2 salt or hashing fails.
    ///
    /// Relies on argon2's `PasswordHasher::hash_password` with default
    /// parameters and `Salt::from_b64`; the encoded result is
    /// [`argon2_hash_of`] of the salt and the password.
    #[verifier::external_body]
    pub fn hash_password(&self, password: &String) -> (r: Option<String>)
        ensures
            (r matches Some(h) ==> h@ == argon2_hash_of(self.user_pass_hash@, password@)),
    {
        let a2 = argon2::Argon2::default();
        let salt = argon2::password_hash::Salt::from_b64(&self.user_pass_hash).ok()?;
        let hashed = argon2::PasswordHasher::hash_password(&a2, password.as_bytes(), salt).ok()?;
        Some(hashed.serialize().to_string())
    }

    /// Whether `plain_password` verifies against the encoded hash `hash`;
    /// `false` when the hash does not parse.
    ///
    /// Relies on argon2's `PasswordVerifier::verify_password` and
    /// `PasswordHashString::parse`; the outcome is [`argon2_verifies`] of
    /// the password and the hash.
    #[verifier::external_body]
    pub fn verify_password(&self, plain_password: &String, hash: &String) -> (r: bool)
        ensures
            r == argon2_verifies(plain_password@, hash@),
    {
        let a2 = argon2::Argon2::default();
        match argon2::password_hash::PasswordHashString::parse(
            hash,
            argon2::password_hash::Encoding::B64,
        ) {
            Ok(h) => argon2::PasswordVerifier::verify_password(
                &a2,
                plain_password.as_bytes(),
                &h.password_hash(),
            ).is_ok(),
            Err(_) => false,
        }
    }
}

} // verus!
