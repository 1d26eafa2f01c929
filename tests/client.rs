use gritea::builder::GriteaBuilder;
use gritea::client::{
    check_status, is_success, list_hooks_label, remote_error, ApiRequest, Gritea, Method,
};
use gritea::pagination::Pagination;
use gritea::Error;

fn client() -> Gritea {
    Gritea::builder("example.com").token("abc123").build().unwrap()
}

fn auth_header() -> (String, String) {
    ("Authorization".to_string(), "token abc123".to_string())
}

fn check(req: ApiRequest, method: Method, url: &str) {
    assert_eq!(req.method, method);
    assert_eq!(req.url, url);
    assert_eq!(req.header, auth_header());
}

#[test]
fn build_composes_base_url() {
    let cli = GriteaBuilder::new("example.com").build().unwrap();
    assert_eq!(cli.conf.base_url, "https://example.com/api/v1/");
    let cli = GriteaBuilder::new("example.com").insecure().build().unwrap();
    assert_eq!(cli.conf.base_url, "http://example.com/api/v1/");
    let cli = GriteaBuilder::new("git.local:3000").scheme("http").build().unwrap();
    assert_eq!(cli.conf.base_url, "http://git.local:3000/api/v1/");
}

#[test]
fn build_rejects_bad_host() {
    assert!(matches!(GriteaBuilder::new("exa mple.com").build(), Err(Error::UrlParse(_))));
    assert!(matches!(GriteaBuilder::new("[::1").build(), Err(Error::UrlParse(_))));
}

#[test]
fn build_twice_gives_independent_clients() {
    let mut b = GriteaBuilder::new("example.com");
    b.token("one");
    let first = b.build().unwrap();
    b.token("two");
    let second = b.build().unwrap();
    assert_eq!(first.headers().unwrap().1, "token one");
    assert_eq!(second.headers().unwrap().1, "token two");
}

#[test]
fn current_user_request_targets_user() {
    let req = client().current_user_request().unwrap();
    check(req, Method::Get, "https://example.com/api/v1/user");
}

#[test]
fn create_hook_request_targets_hooks() {
    let req = client().create_hook_request("o", "r").unwrap();
    check(req, Method::Post, "https://example.com/api/v1/repos/o/r/hooks");
}

#[test]
fn endpoint_paths() {
    let cli = client();
    check(cli.get_repo_request("o", "r").unwrap(), Method::Get, "https://example.com/api/v1/repos/o/r");
    check(
        cli.create_status_request("o", "r", "c0a03f7f").unwrap(),
        Method::Post,
        "https://example.com/api/v1/repos/o/r/statuses/c0a03f7f",
    );
    check(
        cli.delete_hook_request("o", "r", 42).unwrap(),
        Method::Delete,
        "https://example.com/api/v1/repos/o/r/hooks/42",
    );
}

#[test]
fn paged_requests_carry_query() {
    let cli = client();
    let req = cli.list_repos_request(&Pagination::default()).unwrap();
    assert_eq!(
        req.query,
        vec![("page".to_string(), "1".to_string()), ("limit".to_string(), "20".to_string())]
    );
    check(req, Method::Get, "https://example.com/api/v1/user/repos");
    let req = cli.list_hooks_request("o", "r", &Pagination::new(2, 5)).unwrap();
    assert_eq!(
        req.query,
        vec![("page".to_string(), "2".to_string()), ("limit".to_string(), "5".to_string())]
    );
    check(req, Method::Get, "https://example.com/api/v1/repos/o/r/hooks");
}

#[test]
fn request_without_credential_is_unauthorized() {
    let cli = Gritea::builder("example.com").build().unwrap();
    assert!(matches!(cli.current_user_request(), Err(Error::Unauthorized(_))));
    assert_eq!(cli.abs_url("user").unwrap(), "https://example.com/api/v1/user");
}

#[test]
fn absolute_path_replaces_prefix() {
    assert_eq!(client().abs_url("/user").unwrap(), "https://example.com/user");
}

#[test]
fn r_conf_copies_configuration() {
    let cli = client();
    let conf = cli.r_conf().unwrap();
    assert_eq!(conf.base_url, cli.conf.base_url);
}

#[test]
fn not_found_is_remote_error() {
    match remote_error("get user failed", 404, "not found") {
        Error::GiteaError(m) => {
            assert_eq!(m, "get user failed: [404 Not Found] not found");
            assert!(m.contains("get user failed") && m.contains("404") && m.contains("not found"));
        }
        other => panic!("unexpected {:?}", other),
    }
}

#[test]
fn unknown_status_has_placeholder_reason() {
    match remote_error("x", 599, "") {
        Error::GiteaError(m) => assert_eq!(m, "x: [599 <unknown status code>] "),
        other => panic!("unexpected {:?}", other),
    }
}

#[test]
fn success_range() {
    assert!(!is_success(199));
    assert!(is_success(200));
    assert!(is_success(201));
    assert!(is_success(299));
    assert!(!is_success(300));
    assert!(check_status(204, "delete hook failed", "").is_ok());
    match check_status(500, "delete hook failed", "boom") {
        Err(Error::GiteaError(m)) => {
            assert_eq!(m, "delete hook failed: [500 Internal Server Error] boom")
        }
        other => panic!("unexpected {:?}", other),
    }
}

#[test]
fn list_hooks_label_names_repo() {
    assert_eq!(list_hooks_label("o", "r"), "list hooks of repo o/r failed");
}
