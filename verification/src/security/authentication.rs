//! Who may log in.
//!
//! Passwords are kept as Argon2 hashes in PHC string format. Hashing and
//! verifying is the work of the `argon2` crate; what is asked of it, and
//! what its answers come to, is decided here.

use argon2::password_hash::{PasswordHash, PasswordHasher, PasswordVerifier, SaltString};
use vstd::prelude::*;
use vstd::string::*;

verus! {

#[verifier::external_type_specification]
#[verifier::external_body]
pub struct ExPasswordHashError(argon2::password_hash::Error);

/// `s` is a password hash in PHC string format, as `PasswordHash::new`
/// reads it.
pub uninterp spec fn is_phc_string(s: Seq<char>) -> bool;

/// Argon2, with its default parameters, computes from `password` and the
/// parameters and salt of the PHC string `hash` the output that `hash`
/// holds: the answer of `PasswordVerifier::verify_password`.
pub uninterp spec fn argon2_accepts(hash: Seq<char>, password: Seq<char>) -> bool;

/// The PHC string that Argon2, with its default parameters, computes from
/// the bytes of `password` and the salt that `salt` writes in B64: the
/// result of `PasswordHasher::hash_password`, written out; nothing where
/// `salt` writes no salt or the hashing fails.
pub uninterp spec fn argon2_phc(password: Seq<char>, salt: Seq<char>) -> Option<Seq<char>>;

/// `SaltString::generate` from the random source of the system, written
/// out: a random salt. Nothing is claimed of what it returns.
#[verifier::external_body]
fn fresh_salt() -> String {
    SaltString::generate(&mut argon2::password_hash::rand_core::OsRng).as_str().to_string()
}

/// `PasswordHasher::hash_password` of Argon2 with its default parameters,
/// on the bytes of `password` and the salt that `SaltString::from_b64`
/// makes of `salt`, with the hash written out as a PHC string. What it
/// returns depends on the two texts alone, and is what [`argon2_phc`]
/// names.
#[verifier::external_body]
fn argon2_hash(password: &str, salt: &str) -> (r: Result<String, argon2::password_hash::Error>)
    ensures
        match r {
            Ok(hash) => argon2_phc(password@, salt@) == Some(hash@),
            Err(_) => argon2_phc(password@, salt@) is None,
        },
{
    let salt = SaltString::from_b64(salt)?;
    let hash = argon2::Argon2::default().hash_password(password.as_bytes(), &salt)?;
    Ok(hash.to_string())
}

/// `PasswordHash::new` on `hash`, then `PasswordVerifier::verify_password`
/// of Argon2 with its default parameters on the bytes of `password`. It
/// fails exactly where `hash` is no PHC string, and else says whether the
/// password is accepted.
#[verifier::external_body]
fn argon2_verify(hash: &str, password: &str) -> (r: Result<bool, argon2::password_hash::Error>)
    ensures
        r is Ok <==> is_phc_string(hash@),
        r matches Ok(accepted) ==> accepted == argon2_accepts(hash@, password@),
{
    let parsed = PasswordHash::new(hash)?;
    Ok(argon2::Argon2::default().verify_password(password.as_bytes(), &parsed).is_ok())
}

/// What went wrong in Argon2.
#[derive(Debug)]
pub struct Argon2Error(argon2::password_hash::Error);

/// The failure `e` in the words of the crate that reports it: its
/// `Display`, through the `format` macro of std. Nothing is claimed of the
/// words.
#[verifier::external_body]
fn failure_words(e: &argon2::password_hash::Error) -> String {
    format!("{}", e)
}

/// The message of a failure that the crate reports in the words `words`.
pub open spec fn failure_message(words: Seq<char>) -> Seq<char> {
    "Argon2 error: "@ + words
}

/// The message of a failure that the crate reports in the words `words`.
pub fn argon2_message(words: &str) -> (out: String)
    ensures
        out@ == failure_message(words@),
{
    let mut out = "Argon2 error: ".to_owned();
    out.append(words);
    out
}

impl Argon2Error {
    /// What went wrong, in words: `Argon2 error: `, then the words of the
    /// crate for the failure.
    pub fn message(&self) -> (out: String)
        ensures
            exists|words: Seq<char>| out@ == #[trigger] failure_message(words),
    {
        let words = failure_words(&self.0);
        argon2_message(words.as_str())
    }
}

/// A user and the hash of the password of that user.
pub struct Authenticator {
    username: String,
    password_hash: String,
}

/// What an [`Authenticator`] holds.
pub struct AuthenticatorView {
    pub username: Seq<char>,
    pub password_hash: Seq<char>,
}

impl View for Authenticator {
    type V = AuthenticatorView;

    closed spec fn view(&self) -> AuthenticatorView {
        AuthenticatorView { username: self.username@, password_hash: self.password_hash@ }
    }
}

impl AuthenticatorView {
    /// What `authenticate` answers for `username` and `password`: another
    /// user is turned away without a look at the hash; for this user the
    /// hash must be readable, and Argon2 decides.
    pub open spec fn answer(self, username: Seq<char>, password: Seq<char>) -> Option<bool> {
        if self.username != username {
            Some(false)
        } else if is_phc_string(self.password_hash) {
            Some(argon2_accepts(self.password_hash, password))
        } else {
            None
        }
    }
}

impl Authenticator {
    /// The user `username` with the password hash `password_hash`.
    pub fn with_hash(username: String, password_hash: String) -> (a: Self)
        ensures
            a@ == (AuthenticatorView { username: username@, password_hash: password_hash@ }),
    {
        Authenticator { username, password_hash }
    }

    /// The user `username` with the password `password`, which is kept as
    /// a hash with a random salt.
    pub fn new(username: String, password: String) -> (r: Result<Self, Argon2Error>)
        ensures
            r matches Ok(a) ==> a@.username == username@ && exists|salt: Seq<char>| #[trigger]
                argon2_phc(password@, salt) == Some(a@.password_hash),
    {
        match Self::hash_password(password.as_str()) {
            Ok(password_hash) => Ok(Self::with_hash(username, password_hash)),
            Err(e) => Err(e),
        }
    }

    pub fn username(&self) -> (r: &str)
        ensures
            r@ == self@.username,
    {
        self.username.as_str()
    }

    pub fn password_hash(&self) -> (r: &str)
        ensures
            r@ == self@.password_hash,
    {
        self.password_hash.as_str()
    }

    /// The Argon2 hash of `password` with the salt that `salt` writes, as a
    /// PHC string; an error where there is none.
    pub fn hash_password_with(password: &str, salt: &str) -> (r: Result<String, Argon2Error>)
        ensures
            match r {
                Ok(hash) => argon2_phc(password@, salt@) == Some(hash@),
                Err(_) => argon2_phc(password@, salt@) is None,
            },
    {
        match argon2_hash(password, salt) {
            Ok(hash) => Ok(hash),
            Err(e) => Err(Argon2Error(e)),
        }
    }

    /// The Argon2 hash of `password` with a random salt, as a PHC string:
    /// what [`Authenticator::hash_password_with`] gives for some salt.
    pub fn hash_password(password: &str) -> (r: Result<String, Argon2Error>)
        ensures
            exists|salt: Seq<char>|
                match r {
                    Ok(hash) => #[trigger] argon2_phc(password@, salt) == Some(hash@),
                    Err(_) => argon2_phc(password@, salt) is None,
                },
    {
        let salt = fresh_salt();
        let r = Self::hash_password_with(password, salt.as_str());
        assert(match r {
            Ok(hash) => argon2_phc(password@, salt@) == Some(hash@),
            Err(_) => argon2_phc(password@, salt@) is None,
        });
        r
    }

    /// Whether `password` is the password that `hash` was made of; an
    /// error where `hash` is no PHC string.
    pub fn verify_password(hash: &str, password: &str) -> (r: Result<bool, Argon2Error>)
        ensures
            r is Ok <==> is_phc_string(hash@),
            r matches Ok(accepted) ==> accepted == argon2_accepts(hash@, password@),
    {
        match argon2_verify(hash, password) {
            Ok(accepted) => Ok(accepted),
            Err(e) => Err(Argon2Error(e)),
        }
    }

    /// Whether `username` is this user and `password` the password of this
    /// user; an error where that takes a look at a hash that cannot be read.
    pub fn authenticate(&self, username: &str, password: &str) -> (r: Result<bool, Argon2Error>)
        ensures
            match self@.answer(username@, password@) {
                Some(b) => r matches Ok(x) && x == b,
                None => r is Err,
            },
    {
        if crate::text::same_str(self.username.as_str(), username) {
            Self::verify_password(self.password_hash.as_str(), password)
        } else {
            Ok(false)
        }
    }
}

} // verus!
