//! Authorization schemes and their names.

use vstd::prelude::*;
use vstd::string::*;
use crate::error::AuthError;
use crate::text::{ascii_lowercase, lowercase_is};

verus! {

/// The scheme under which a credential is presented. More schemes may be
/// added; each one brings an arm to the parser and to the formatter.
#[derive(Clone, Copy, Debug, PartialEq, Eq, Structural)]
#[non_exhaustive]
pub enum ApiAuth {
    /// A bearer token.
    Bearer,
}

impl ApiAuth {
    /// The name under which the scheme appears in a header.
    pub open spec fn name(self) -> Seq<char> {
        match self {
            ApiAuth::Bearer => "Bearer"@,
        }
    }

    /// The scheme that a text names, whatever the case of its ASCII letters.
    pub open spec fn parse(s: Seq<char>) -> Result<ApiAuth, AuthError> {
        if ascii_lowercase(s) == "bearer"@ {
            Ok(ApiAuth::Bearer)
        } else {
            Err(AuthError::UnsupportedScheme)
        }
    }

    /// Reads a scheme from its name, ignoring the case of the letters. A text
    /// that names no scheme is refused with `UnsupportedScheme`.
    pub fn from_str(s: &str) -> (scheme: Result<ApiAuth, AuthError>)
        ensures
            scheme == ApiAuth::parse(s@),
    {
        if lowercase_is(s, "bearer") {
            Ok(ApiAuth::Bearer)
        } else {
            Err(AuthError::UnsupportedScheme)
        }
    }

    /// The scheme's name as it is written in a header.
    pub fn to_string(&self) -> (name: String)
        ensures
            name@ == self.name(),
    {
        match self {
            ApiAuth::Bearer => "Bearer".to_owned(),
        }
    }
}

} // verus!
