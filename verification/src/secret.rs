//! API keys, wiped from memory when they are dropped.

use vstd::prelude::*;
use secrecy::ExposeSecret;

verus! {

/// An API key in a `secrecy::SecretString`.
#[verifier::external_body]
pub struct ApiKey {
    secret: secrecy::SecretString,
}

/// The characters of `key`.
pub uninterp spec fn key_text(key: ApiKey) -> Seq<char>;

/// `secrecy::SecretString::new`.
///
/// Claims that the secret holds the characters that it was made of.
#[verifier::external_body]
pub(crate) fn seal(text: String) -> (key: ApiKey)
    ensures
        key_text(key) == text@,
{
    ApiKey { secret: secrecy::SecretString::new(text) }
}

/// `secrecy::ExposeSecret::expose_secret`.
///
/// Claims that the characters that the secret holds are handed out.
#[verifier::external_body]
pub(crate) fn expose(key: &ApiKey) -> (text: &String)
    ensures
        text@ == key_text(*key),
{
    key.secret.expose_secret()
}

} // verus!
