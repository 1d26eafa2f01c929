use gritea::auth::Auth;
use gritea::oauth::{AccessToken, TokenType};
use gritea::Error;

fn oauth_token(kind: TokenType) -> AccessToken {
    AccessToken {
        access_token: "xyz789".to_string(),
        token_type: kind,
        expires_in: 3600,
        refresh_token: "refresh".to_string(),
    }
}

#[test]
fn static_token_header() {
    let h = Auth::Token("abc123".to_string()).headers().unwrap();
    assert_eq!(h, ("Authorization".to_string(), "token abc123".to_string()));
}

#[test]
fn oauth2_bearer_header() {
    let h = Auth::OAuth2(oauth_token(TokenType::Bearer)).headers().unwrap();
    assert_eq!(h, ("Authorization".to_string(), "bearer xyz789".to_string()));
}

#[test]
fn oauth2_mac_header() {
    let h = Auth::OAuth2(oauth_token(TokenType::Mac)).headers().unwrap();
    assert_eq!(h, ("Authorization".to_string(), "mac xyz789".to_string()));
}

#[test]
fn absent_credential_is_unauthorized() {
    match Auth::Absent.headers() {
        Err(Error::Unauthorized(m)) => assert_eq!(m, "client token not set"),
        other => panic!("unexpected {:?}", other),
    }
}

#[test]
fn token_type_renders_lowercase() {
    assert_eq!(TokenType::Bearer.to_string(), "bearer");
    assert_eq!(TokenType::Mac.to_string(), "mac");
}
