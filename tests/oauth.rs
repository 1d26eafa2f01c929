use gritea::oauth::{access_token_url, oauth2_url};
use gritea::Error;

#[test]
fn authorize_url_with_query() {
    let url = oauth2_url(
        "https://git.example.com",
        "fake_client_id",
        "https://app.example.com/v1/gitea/callback",
        "code",
        "asdf",
    )
    .unwrap();
    assert_eq!(
        url,
        "https://git.example.com/login/oauth/authorize?client_id=fake_client_id&redirect_uri=https%3A%2F%2Fapp.example.com%2Fv1%2Fgitea%2Fcallback&response_type=code&state=asdf"
    );
}

#[test]
fn authorize_url_encodes_spaces() {
    let url = oauth2_url("http://h/", "a b", "r", "code", "x&y").unwrap();
    assert_eq!(
        url,
        "http://h/login/oauth/authorize?client_id=a+b&redirect_uri=r&response_type=code&state=x%26y"
    );
}

#[test]
fn authorize_url_rejects_relative_base() {
    assert!(matches!(oauth2_url("not a url", "a", "b", "c", "d"), Err(Error::UrlParse(_))));
}

#[test]
fn token_endpoint_url() {
    assert_eq!(
        access_token_url("https://git.example.com/").unwrap(),
        "https://git.example.com/login/oauth/access_token"
    );
    assert!(matches!(access_token_url(""), Err(Error::UrlParse(_))));
}
