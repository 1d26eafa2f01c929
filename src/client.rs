//! The request pipeline: endpoint paths, URL joining, the authentication
//! header, and the mapping of response statuses to results.
use vstd::prelude::*;
use crate::auth::{Auth, authorization_name, missing_token_message};
use crate::builder::GriteaBuilder;
use crate::config::Config;
use crate::decimal::{i64_to_decimal, int_decimal, nat_decimal, u64_to_decimal};
use crate::error::{Error, Result};
use crate::pagination::{page_query, pairs_view, Pagination};
use crate::urls::{join_url, joined_url};

verus! {

/// The HTTP methods that the endpoints use.
#[derive(Debug, Clone, Copy, PartialEq, Eq, Structural)]
pub enum Method {
    Get,
    Post,
    Delete,
}

/// A request ready to be sent: method, absolute URL, the authorization
/// header and the query pairs. A JSON body, where the endpoint takes one, is
/// attached by the transport.
#[derive(Debug)]
pub struct ApiRequest {
    pub method: Method,
    pub url: String,
    pub header: (String, String),
    pub query: Vec<(String, String)>,
}

/// A client of one server, with its configuration.
#[derive(Debug)]
pub struct Gritea {
    pub conf: Config,
}

impl Clone for Gritea {
    fn clone(&self) -> (r: Self)
        ensures
            r == *self,
    {
        Gritea { conf: self.conf.clone() }
    }
}

/// `repos/<owner>/<repo>`
pub open spec fn repo_path(owner: Seq<char>, repo: Seq<char>) -> Seq<char> {
    "repos/"@ + owner + "/"@ + repo
}

/// `repos/<owner>/<repo>/statuses/<commit>`
pub open spec fn statuses_path(owner: Seq<char>, repo: Seq<char>, commit: Seq<char>) -> Seq<char> {
    repo_path(owner, repo) + "/statuses/"@ + commit
}

/// `repos/<owner>/<repo>/hooks`
pub open spec fn hooks_path(owner: Seq<char>, repo: Seq<char>) -> Seq<char> {
    repo_path(owner, repo) + "/hooks"@
}

/// `repos/<owner>/<repo>/hooks/<id>`
pub open spec fn hook_path(owner: Seq<char>, repo: Seq<char>, id: i64) -> Seq<char> {
    hooks_path(owner, repo) + "/"@ + int_decimal(id as int)
}

fn make_repo_path(owner: &str, repo: &str) -> (r: String)
    ensures
        r@ == repo_path(owner@, repo@),
{
    let mut path = String::from_str("repos/");
    path.append(owner);
    path.append("/");
    path.append(repo);
    path
}

fn make_hooks_path(owner: &str, repo: &str) -> (r: String)
    ensures
        r@ == hooks_path(owner@, repo@),
{
    let mut path = make_repo_path(owner, repo);
    path.append("/hooks");
    path
}

impl Gritea {
    /// Whether `r` is what preparing a `method` request for `rel` with the
    /// query pairs `query` gives: the joined URL and the credential's header,
    /// or `UrlParse` when the join fails, else `Unauthorized` when there is
    /// no credential.
    pub open spec fn request_outcome(
        self,
        method: Method,
        rel: Seq<char>,
        query: Seq<(Seq<char>, Seq<char>)>,
        r: Result<ApiRequest>,
    ) -> bool {
        let url = joined_url(self.conf.base_url@, rel);
        let value = self.conf.token.header_value();
        match r {
            Ok(req) => {
                &&& req.method == method
                &&& url == Some(req.url@)
                &&& req.header.0@ == authorization_name()
                &&& value == Some(req.header.1@)
                &&& pairs_view(req.query@) == query
            },
            Err(Error::UrlParse(_)) => url is None,
            Err(Error::Unauthorized(m)) => url is Some && value is None && m@
                == missing_token_message(),
            Err(_) => false,
        }
    }

    /// A builder for the server at `host`.
    pub fn builder(host: &str) -> (r: GriteaBuilder)
        ensures
            r.scheme@ == "https"@,
            r.host@ == host@,
            r.token == Auth::Absent,
    {
        GriteaBuilder::new(host)
    }

    pub fn new(conf: Config) -> (r: Self)
        ensures
            r.conf == conf,
    {
        Gritea { conf }
    }

    /// A copy of the configuration.
    pub fn r_conf(&self) -> (r: Result<Config>)
        ensures
            r matches Ok(c) && c == self.conf,
    {
        Ok(self.conf.clone())
    }

    /// The absolute URL of `rel_url` under the base URL.
    pub fn abs_url(&self, rel_url: &str) -> (r: Result<String>)
        ensures
            r is Ok <==> joined_url(self.conf.base_url@, rel_url@) is Some,
            r is Ok ==> joined_url(self.conf.base_url@, rel_url@) == Some(r->Ok_0@),
            r is Err ==> r->Err_0 is UrlParse,
    {
        match join_url(self.conf.base_url.as_str(), rel_url) {
            Ok(u) => Ok(u),
            Err(e) => Err(Error::UrlParse(e)),
        }
    }

    /// The authorization header of the configured credential.
    pub fn headers(&self) -> (r: Result<(String, String)>)
        ensures
            self.conf.token.headers_outcome(r),
    {
        self.conf.token.headers()
    }

    /// Prepares a `method` request for `rel_url`, a path relative to the
    /// base URL, without query pairs.
    pub fn request(&self, method: Method, rel_url: &str) -> (r: Result<ApiRequest>)
        ensures
            self.request_outcome(method, rel_url@, seq![], r),
    {
        let url = match self.abs_url(rel_url) {
            Ok(u) => u,
            Err(e) => {
                return Err(e);
            },
        };
        let header = match self.headers() {
            Ok(h) => h,
            Err(e) => {
                return Err(e);
            },
        };
        let query: Vec<(String, String)> = Vec::new();
        assert(pairs_view(query@) =~= seq![]);
        Ok(ApiRequest { method, url, header, query })
    }

    fn paged_request(&self, rel_url: &str, page: &Pagination) -> (r: Result<ApiRequest>)
        ensures
            self.request_outcome(Method::Get, rel_url@, page_query(page.page, page.limit), r),
    {
        match self.request(Method::Get, rel_url) {
            Ok(req) => {
                let pairs = page.to_query();
                let mut query: Vec<(String, String)> = Vec::new();
                query.push((pairs[0].0.clone(), pairs[0].1.clone()));
                query.push((pairs[1].0.clone(), pairs[1].1.clone()));
                assert(pairs_view(query@) =~= pairs_view(pairs@));
                Ok(ApiRequest { query, ..req })
            },
            Err(e) => Err(e),
        }
    }

    /// `GET user`: the user who owns the credential.
    pub fn current_user_request(&self) -> (r: Result<ApiRequest>)
        ensures
            self.request_outcome(Method::Get, "user"@, seq![], r),
    {
        self.request(Method::Get, "user")
    }

    /// `GET user/repos`, one page: the repositories the user may access.
    pub fn list_repos_request(&self, page: &Pagination) -> (r: Result<ApiRequest>)
        ensures
            self.request_outcome(Method::Get, "user/repos"@, page_query(page.page, page.limit), r),
    {
        self.paged_request("user/repos", page)
    }

    /// `GET repos/<owner>/<repo>`: one repository.
    pub fn get_repo_request(&self, owner: &str, repo: &str) -> (r: Result<ApiRequest>)
        ensures
            self.request_outcome(Method::Get, repo_path(owner@, repo@), seq![], r),
    {
        let path = make_repo_path(owner, repo);
        self.request(Method::Get, path.as_str())
    }

    /// `POST repos/<owner>/<repo>/statuses/<commit>`: creates a commit status.
    pub fn create_status_request(&self, owner: &str, repo: &str, commit: &str) -> (r: Result<
        ApiRequest,
    >)
        ensures
            self.request_outcome(Method::Post, statuses_path(owner@, repo@, commit@), seq![], r),
    {
        let mut path = make_repo_path(owner, repo);
        path.append("/statuses/");
        path.append(commit);
        self.request(Method::Post, path.as_str())
    }

    /// `POST repos/<owner>/<repo>/hooks`: creates a webhook.
    pub fn create_hook_request(&self, owner: &str, repo: &str) -> (r: Result<ApiRequest>)
        ensures
            self.request_outcome(Method::Post, hooks_path(owner@, repo@), seq![], r),
    {
        let path = make_hooks_path(owner, repo);
        self.request(Method::Post, path.as_str())
    }

    /// `DELETE repos/<owner>/<repo>/hooks/<id>`: deletes a webhook.
    pub fn delete_hook_request(&self, owner: &str, repo: &str, id: i64) -> (r: Result<ApiRequest>)
        ensures
            self.request_outcome(Method::Delete, hook_path(owner@, repo@, id), seq![], r),
    {
        let mut path = make_hooks_path(owner, repo);
        path.append("/");
        let digits = i64_to_decimal(id);
        path.append(digits.as_str());
        self.request(Method::Delete, path.as_str())
    }

    /// `GET repos/<owner>/<repo>/hooks`, one page: the webhooks of a
    /// repository.
    pub fn list_hooks_request(&self, owner: &str, repo: &str, page: &Pagination) -> (r: Result<
        ApiRequest,
    >)
        ensures
            self.request_outcome(
                Method::Get,
                hooks_path(owner@, repo@),
                page_query(page.page, page.limit),
                r,
            ),
    {
        let path = make_hooks_path(owner, repo);
        self.paged_request(path.as_str(), page)
    }
}

/// The operation label of a failed listing of the webhooks of a repository.
pub open spec fn list_hooks_label_text(owner: Seq<char>, repo: Seq<char>) -> Seq<char> {
    "list hooks of repo "@ + owner + "/"@ + repo + " failed"@
}

/// Renders the operation label for a failed listing of webhooks.
pub fn list_hooks_label(owner: &str, repo: &str) -> (r: String)
    ensures
        r@ == list_hooks_label_text(owner@, repo@),
{
    let mut label = String::from_str("list hooks of repo ");
    label.append(owner);
    label.append("/");
    label.append(repo);
    label.append(" failed");
    label
}

/// The registered reason phrase of an HTTP status code, if it has one.
pub uninterp spec fn canonical_reason_of(code: u16) -> Option<Seq<char>>;

/// Relies on `http::StatusCode::from_u16` and `StatusCode::canonical_reason`:
/// the phrase depends on the code alone.
#[verifier::external_body]
fn canonical_reason(code: u16) -> (r: Option<String>)
    ensures
        r is Some <==> canonical_reason_of(code) is Some,
        r is Some ==> canonical_reason_of(code) == Some(r->Some_0@),
{
    match http::StatusCode::from_u16(code) {
        Ok(status) => status.canonical_reason().map(String::from),
        Err(_) => None,
    }
}

/// Whether a status code is in the success range 200 to 299.
pub open spec fn success_code(status: u16) -> bool {
    200 <= status < 300
}

/// The status as HTTP displays it: the code and its reason phrase.
pub open spec fn status_text(status: u16) -> Seq<char> {
    nat_decimal(status as nat) + " "@ + match canonical_reason_of(status) {
        Some(reason) => reason,
        None => "<unknown status code>"@,
    }
}

/// The message of a remote error: `<label>: [<status>] <body>`.
pub open spec fn remote_message(label: Seq<char>, status: u16, body: Seq<char>) -> Seq<char> {
    label + ": ["@ + status_text(status) + "] "@ + body
}

/// Whether the response status means success.
pub fn is_success(status: u16) -> (r: bool)
    ensures
        r == success_code(status),
{
    200 <= status && status < 300
}

/// The error for a response whose status is not a success: it carries the
/// operation label, the status and the body text, which is not decoded.
pub fn remote_error(err_mes: &str, status: u16, body: &str) -> (e: Error)
    ensures
        e matches Error::GiteaError(m) && m@ == remote_message(err_mes@, status, body@),
{
    let mut message = String::from_str(err_mes);
    message.append(": [");
    let code = u64_to_decimal(status as u64);
    message.append(code.as_str());
    message.append(" ");
    match canonical_reason(status) {
        Some(reason) => message.append(reason.as_str()),
        None => message.append("<unknown status code>"),
    }
    message.append("] ");
    message.append(body);
    Error::GiteaError(message)
}

/// Maps a response status to a result: `Ok` for a success, else the remote
/// error with the label, the status and `body`.
pub fn check_status(status: u16, err_mes: &str, body: &str) -> (r: Result<()>)
    ensures
        r is Ok <==> success_code(status),
        !success_code(status) ==> (r matches Err(Error::GiteaError(m)) && m@ == remote_message(
            err_mes@,
            status,
            body@,
        )),
{
    if is_success(status) {
        Ok(())
    } else {
        Err(remote_error(err_mes, status, body))
    }
}

/// Whether `t` occurs in `s` as a contiguous run.
pub open spec fn contains(s: Seq<char>, t: Seq<char>) -> bool {
    exists|i: int| 0 <= i && i + t.len() <= s.len() && #[trigger] s.subrange(i, i + t.len()) == t
}

/// The message of a remote error names the operation label, the numeric
/// status code and the response body.
pub proof fn remote_message_mentions(label: Seq<char>, status: u16, body: Seq<char>)
    ensures
        contains(remote_message(label, status, body), label),
        contains(remote_message(label, status, body), nat_decimal(status as nat)),
        contains(remote_message(label, status, body), body),
{
    let m = remote_message(label, status, body);
    let code = nat_decimal(status as nat);
    reveal_strlit(": [");
    let at_code: int = label.len() as int + 3;
    let at_body: int = m.len() as int - body.len() as int;
    let start: int = 0;
    assert(m.subrange(start, start + label.len()) =~= label);
    assert(m.subrange(at_code, at_code + code.len()) =~= code);
    assert(m.subrange(at_body, at_body + body.len()) =~= body);
}

} // verus!
