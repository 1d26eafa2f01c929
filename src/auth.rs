//! The credential that authenticates requests, and the header it renders to.
use vstd::prelude::*;
use crate::error::{Error, Result};
use crate::oauth::AccessToken;

verus! {

/// The name of the header that carries the credential.
pub open spec fn authorization_name() -> Seq<char> {
    "Authorization"@
}

/// The message of the error raised when no credential is configured.
pub open spec fn missing_token_message() -> Seq<char> {
    "client token not set"@
}

/// The credential used for requests: a static token, an OAuth2 access
/// token, or none at all.
#[derive(Debug)]
pub enum Auth {
    Token(String),
    OAuth2(AccessToken),
    Absent,
}

impl Clone for Auth {
    fn clone(&self) -> (r: Self)
        ensures
            r == *self,
    {
        match self {
            Auth::Token(t) => Auth::Token(t.clone()),
            Auth::OAuth2(a) => Auth::OAuth2(a.clone()),
            Auth::Absent => Auth::Absent,
        }
    }
}

impl Auth {
    /// The value of the authorization header, or `None` when there is no
    /// credential.
    pub open spec fn header_value(self) -> Option<Seq<char>> {
        match self {
            Auth::Token(t) => Some("token "@ + t@),
            Auth::OAuth2(a) => Some(a.token_type.tag() + " "@ + a.access_token@),
            Auth::Absent => None,
        }
    }

    /// Whether `r` is what `headers` gives for this credential: the header
    /// name and value, or the `Unauthorized` error when there is none.
    pub open spec fn headers_outcome(self, r: Result<(String, String)>) -> bool {
        match self.header_value() {
            Some(v) => r matches Ok(h) && h.0@ == authorization_name() && h.1@ == v,
            None => r matches Err(Error::Unauthorized(m)) && m@ == missing_token_message(),
        }
    }

    /// Renders the header that authenticates a request with this credential.
    pub fn headers(&self) -> (r: Result<(String, String)>)
        ensures
            self.headers_outcome(r),
    {
        match self {
            Auth::Token(token) => {
                let mut value = String::from_str("token ");
                value.append(token.as_str());
                Ok((String::from_str("Authorization"), value))
            },
            Auth::OAuth2(oauth_token) => {
                let mut value = oauth_token.token_type.to_string();
                value.append(" ");
                value.append(oauth_token.access_token.as_str());
                Ok((String::from_str("Authorization"), value))
            },
            Auth::Absent => Err(Error::Unauthorized(String::from_str("client token not set"))),
        }
    }
}

} // verus!
