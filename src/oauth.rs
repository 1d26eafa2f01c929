//! OAuth2 records and the URLs of the authorization flow.
use vstd::prelude::*;
use crate::error::{Error, Result};
use crate::urls::{append_query_pair, join_url, joined_url, url_with_pair};

verus! {

/// The kind of an OAuth2 access token.
#[derive(Debug, Clone, Copy, PartialEq, Eq, Structural)]
pub enum TokenType {
    Bearer,
    Mac,
}

impl TokenType {
    /// The lowercase tag of the token type, as it appears on the wire.
    pub open spec fn tag(self) -> Seq<char> {
        match self {
            TokenType::Bearer => "bearer"@,
            TokenType::Mac => "mac"@,
        }
    }

    /// Renders the lowercase tag of the token type.
    pub fn to_string(&self) -> (r: String)
        ensures
            r@ == self.tag(),
    {
        match self {
            TokenType::Bearer => String::from_str("bearer"),
            TokenType::Mac => String::from_str("mac"),
        }
    }
}

/// For issuing access tokens from authorization codes or refresh tokens.
#[derive(Debug, Clone)]
pub struct AccessTokenForm {
    pub grant_type: String,
    pub client_id: String,
    pub client_secret: String,
    pub redirect_uri: String,
    pub code: String,
    pub refresh_token: String,
}

/// A successful access token response.
#[derive(Debug)]
pub struct AccessToken {
    pub access_token: String,
    pub token_type: TokenType,
    pub expires_in: i64,
    pub refresh_token: String,
}

impl Clone for AccessToken {
    fn clone(&self) -> (r: Self)
        ensures
            r == *self,
    {
        AccessToken {
            access_token: self.access_token.clone(),
            token_type: self.token_type,
            expires_in: self.expires_in,
            refresh_token: self.refresh_token.clone(),
        }
    }
}

/// The path of the authorization page, relative to the server's base URL.
pub open spec fn authorize_path() -> Seq<char> {
    "login/oauth/authorize"@
}

/// The path of the token endpoint, relative to the server's base URL.
pub open spec fn access_token_path() -> Seq<char> {
    "login/oauth/access_token"@
}

/// Appends one query pair to an optional URL.
pub open spec fn then_pair(url: Option<Seq<char>>, name: Seq<char>, value: Seq<char>) -> Option<
    Seq<char>,
> {
    match url {
        Some(u) => url_with_pair(u, name, value),
        None => None,
    }
}

/// The authorization URL: the authorize page under `base`, with the four
/// query pairs appended in order.
pub open spec fn authorize_url(
    base: Seq<char>,
    client_id: Seq<char>,
    redirect_uri: Seq<char>,
    response_type: Seq<char>,
    state: Seq<char>,
) -> Option<Seq<char>> {
    then_pair(
        then_pair(
            then_pair(
                then_pair(joined_url(base, authorize_path()), "client_id"@, client_id),
                "redirect_uri"@,
                redirect_uri,
            ),
            "response_type"@,
            response_type,
        ),
        "state"@,
        state,
    )
}

fn add_pair(url: Result<String>, name: &str, value: &str) -> (r: Result<String>)
    ensures
        r is Ok <==> (url is Ok && url_with_pair(url->Ok_0@, name@, value@) is Some),
        r is Ok ==> Some(r->Ok_0@) == url_with_pair(url->Ok_0@, name@, value@),
        url is Err ==> r == url,
        url is Ok && r is Err ==> r->Err_0 is UrlParse,
{
    match url {
        Ok(u) => match append_query_pair(u.as_str(), name, value) {
            Ok(v) => Ok(v),
            Err(e) => Err(Error::UrlParse(e)),
        },
        Err(e) => Err(e),
    }
}

/// Builds the URL that a user agent is sent to in order to authorize the
/// client: `login/oauth/authorize` under `base_url`, with the query pairs
/// `client_id`, `redirect_uri`, `response_type` and `state`, in this order.
/// Fails with `UrlParse` exactly when one of the URL steps fails.
pub fn oauth2_url(
    base_url: &str,
    client_id: &str,
    redirect_uri: &str,
    response_type: &str,
    state: &str,
) -> (r: Result<String>)
    ensures
        r is Ok <==> authorize_url(base_url@, client_id@, redirect_uri@, response_type@, state@) is Some,
        r is Ok ==> Some(r->Ok_0@) == authorize_url(
            base_url@,
            client_id@,
            redirect_uri@,
            response_type@,
            state@,
        ),
        r is Err ==> r->Err_0 is UrlParse,
{
    let joined = match join_url(base_url, "login/oauth/authorize") {
        Ok(u) => Ok(u),
        Err(e) => Err(Error::UrlParse(e)),
    };
    let with_id = add_pair(joined, "client_id", client_id);
    let with_redirect = add_pair(with_id, "redirect_uri", redirect_uri);
    let with_type = add_pair(with_redirect, "response_type", response_type);
    add_pair(with_type, "state", state)
}

/// The URL of the token endpoint under `base_url`, where an access token
/// form is posted.
pub fn access_token_url(base_url: &str) -> (r: Result<String>)
    ensures
        r is Ok <==> joined_url(base_url@, access_token_path()) is Some,
        r is Ok ==> Some(r->Ok_0@) == joined_url(base_url@, access_token_path()),
        r is Err ==> r->Err_0 is UrlParse,
{
    match join_url(base_url, "login/oauth/access_token") {
        Ok(u) => Ok(u),
        Err(e) => Err(Error::UrlParse(e)),
    }
}

} // verus!
