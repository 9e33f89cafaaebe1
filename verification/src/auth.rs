//! Token authentication: the scheme that an `Authorization` header must
//! carry, and the token that the header holds.

use crate::text::{strip_prefix, text_of, trim, trimmed};
use vstd::prelude::*;
use vstd::slice::slice_to_vec;
use vstd::string::StringExecFns;

verus! {

/// Why a request carries no token to validate.
#[derive(Clone, Copy, Debug, PartialEq, Eq, Structural)]
pub enum AuthFailure {
    /// The request has no `Authorization` header.
    Missing,
    /// The header does not start with the configured prefix.
    Malformed,
}

impl AuthFailure {
    /// The message that the client is given.
    pub open spec fn text(self) -> Seq<char> {
        match self {
            AuthFailure::Missing => "missing auth token"@,
            AuthFailure::Malformed => "malformed auth token"@,
        }
    }

    /// The message that the client is given, with the status "unauthorized".
    pub fn message(&self) -> (message: String)
        ensures
            message@ == self.text(),
    {
        match self {
            AuthFailure::Missing => "missing auth token".to_owned(),
            AuthFailure::Malformed => "malformed auth token".to_owned(),
        }
    }
}

/// The signing key and the prefix that introduces a token in the
/// `Authorization` header.
#[derive(Clone, Debug)]
pub struct AuthConfig {
    key: Vec<u8>,
    prefix: String,
}

/// The prefix that `with_prefix` makes of a scheme name: the name and a
/// space, or nothing for an empty name.
pub open spec fn prefix_of(scheme: Seq<char>) -> Seq<char> {
    if scheme.len() == 0 {
        scheme
    } else {
        scheme + " "@
    }
}

/// The token that a header holds under `prefix`: what follows the prefix,
/// trimmed.
pub open spec fn token_of(prefix: Seq<char>, header: Option<Seq<char>>) -> Result<
    Seq<char>,
    AuthFailure,
> {
    match header {
        None => Err(AuthFailure::Missing),
        Some(value) => if prefix.is_prefix_of(value) {
            Ok(trimmed(value.skip(prefix.len() as int)))
        } else {
            Err(AuthFailure::Malformed)
        },
    }
}

impl AuthConfig {
    /// The signing key.
    pub closed spec fn key(&self) -> Seq<u8> {
        self.key@
    }

    /// The prefix that introduces a token.
    pub closed spec fn prefix(&self) -> Seq<char> {
        self.prefix@
    }

    /// A configuration with the signing key `key` and the prefix `Token `.
    pub fn new(key: &[u8]) -> (config: Self)
        ensures
            config.key() == key@,
            config.prefix() == "Token "@,
    {
        AuthConfig { key: slice_to_vec(key), prefix: "Token ".to_owned() }
    }

    /// Replaces the prefix by the scheme name `prefix` and a space, or by
    /// nothing where the name is empty.
    pub fn with_prefix(self, prefix: String) -> (config: Self)
        ensures
            config.key() == self.key(),
            config.prefix() == prefix_of(prefix@),
    {
        let mut prefix = prefix;
        if !prefix.as_str().is_empty() {
            prefix.append(" ");
        }
        AuthConfig { key: self.key, prefix }
    }

    /// Gives the signing key.
    pub fn key_bytes(&self) -> (key: &[u8])
        ensures
            key@ == self.key(),
    {
        self.key.as_slice()
    }

    /// Gives the prefix that introduces a token.
    pub fn prefix_str(&self) -> (prefix: &str)
        ensures
            prefix@ == self.prefix(),
    {
        self.prefix.as_str()
    }

    /// Finds the token in the value of the `Authorization` header: what
    /// follows the prefix, trimmed. A request without the header, or with
    /// one that does not start with the prefix, carries none.
    pub fn token<'a>(&self, header: Option<&'a str>) -> (token: Result<&'a str, AuthFailure>)
        ensures
            match token {
                Ok(found) => token_of(self.prefix(), text_of(header)) == Ok::<
                    Seq<char>,
                    AuthFailure,
                >(found@),
                Err(failure) => token_of(self.prefix(), text_of(header)) == Err::<
                    Seq<char>,
                    AuthFailure,
                >(failure),
            },
    {
        match header {
            None => Err(AuthFailure::Missing),
            Some(value) => match strip_prefix(value, self.prefix.as_str()) {
                Some(rest) => Ok(trim(rest)),
                None => Err(AuthFailure::Malformed),
            },
        }
    }
}

} // verus!
