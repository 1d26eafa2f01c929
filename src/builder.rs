//! Fluent assembly of a client's configuration.
use vstd::prelude::*;
use crate::auth::Auth;
use crate::client::Gritea;
use crate::config::Config;
use crate::error::{Error, Result};
use crate::oauth::AccessToken;
use crate::urls::{parse_url, parsed_url};

verus! {

/// The text of the API's base URL on `host` under `scheme`:
/// `<scheme>://<host>/api/v1/`.
pub open spec fn base_text(scheme: Seq<char>, host: Seq<char>) -> Seq<char> {
    scheme + "://"@ + host + "/api/v1/"@
}

/// Collects the scheme, host and credential of a client.
#[derive(Debug)]
pub struct GriteaBuilder {
    pub scheme: String,
    pub host: String,
    pub token: Auth,
}

impl GriteaBuilder {
    /// A builder for the server at `host`, over https, without a credential.
    pub fn new(host: &str) -> (r: Self)
        ensures
            r.scheme@ == "https"@,
            r.host@ == host@,
            r.token == Auth::Absent,
    {
        GriteaBuilder {
            scheme: String::from_str("https"),
            host: String::from_str(host),
            token: Auth::Absent,
        }
    }

    /// Switches to plain http.
    pub fn insecure(&mut self) -> (r: &mut Self)
        ensures
            r.scheme@ == "http"@,
            r.host == old(self).host,
            r.token == old(self).token,
            *final(self) == *final(r),
    {
        self.scheme = String::from_str("http");
        self
    }

    /// Sets the scheme of the server.
    pub fn scheme(&mut self, scheme: &str) -> (r: &mut Self)
        ensures
            r.scheme@ == scheme@,
            r.host == old(self).host,
            r.token == old(self).token,
            *final(self) == *final(r),
    {
        self.scheme = String::from_str(scheme);
        self
    }

    /// Authenticates with a static application token, in place of any
    /// earlier credential.
    pub fn token(&mut self, token: &str) -> (r: &mut Self)
        ensures
            r.token matches Auth::Token(t) && t@ == token@,
            r.scheme == old(self).scheme,
            r.host == old(self).host,
            *final(self) == *final(r),
    {
        self.token = Auth::Token(String::from_str(token));
        self
    }

    /// Authenticates with an OAuth2 access token, in place of any earlier
    /// credential.
    pub fn oauth2_token(&mut self, oauth_token: &AccessToken) -> (r: &mut Self)
        ensures
            r.token == Auth::OAuth2(*oauth_token),
            r.scheme == old(self).scheme,
            r.host == old(self).host,
            *final(self) == *final(r),
    {
        self.token = Auth::OAuth2(oauth_token.clone());
        self
    }

    /// Builds a client whose base URL is `<scheme>://<host>/api/v1/` as the
    /// URL parser normalizes it, so that text itself when it is already in
    /// normal form. Fails with `UrlParse`, and builds nothing, exactly when
    /// that text does not parse.
    pub fn build(&self) -> (r: Result<Gritea>)
        ensures
            r is Ok <==> parsed_url(base_text(self.scheme@, self.host@)) is Some,
            r is Ok ==> Some(r->Ok_0.conf.base_url@) == parsed_url(
                base_text(self.scheme@, self.host@),
            ),
            r is Ok ==> r->Ok_0.conf.token == self.token,
            parsed_url(base_text(self.scheme@, self.host@)) == Some(
                base_text(self.scheme@, self.host@),
            ) ==> r is Ok && r->Ok_0.conf.base_url@ == base_text(self.scheme@, self.host@),
            r is Err ==> r->Err_0 is UrlParse,
    {
        let mut text = self.scheme.clone();
        text.append("://");
        text.append(self.host.as_str());
        text.append("/api/v1/");
        match parse_url(text.as_str()) {
            Ok(base_url) => Ok(Gritea::new(Config { base_url, token: self.token.clone() })),
            Err(e) => Err(Error::UrlParse(e)),
        }
    }
}

} // verus!
