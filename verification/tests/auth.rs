use kilam_launcher::auth::{
    authorize_url, microsoft_profile, oauth_code, offline_profile, offline_uuid, prefer_session, redirect_uri,
    require_field, rps_ticket, validate_username, xbox_identity_token, AuthError, AuthType, UserProfile,
};
use kilam_launcher::error::LauncherError;

fn rejected(name: &str) -> String {
    match validate_username(name) {
        Err(LauncherError::Auth(AuthError::InvalidUsername(u))) => u,
        other => panic!("expected a rejection, got {:?}", other),
    }
}

#[test]
fn accepts_plain_username() {
    assert!(validate_username("Steve_123").is_ok());
    assert!(validate_username("abc").is_ok());
    assert!(validate_username("abcdefghijklmnop").is_ok());
}

#[test]
fn rejects_short_and_long_usernames() {
    assert_eq!(rejected("ab"), "ab");
    assert_eq!(rejected("abcdefghijklmnopq"), "abcdefghijklmnopq");
    assert_eq!(rejected(""), "");
}

#[test]
fn rejects_forbidden_characters() {
    assert_eq!(rejected("bad-name"), "bad-name");
    assert_eq!(rejected("two words"), "two words");
}

#[test]
fn trims_before_checking() {
    assert!(validate_username("  Steve \n").is_ok());
    assert_eq!(rejected("  ab  "), "ab");
}

#[test]
fn counts_utf8_bytes_and_accepts_unicode_letters() {
    assert!(validate_username("ñandú12").is_ok());
    assert_eq!(rejected("ñññññññññ"), "ñññññññññ");
}

#[test]
fn offline_uuid_matches_known_value() {
    assert_eq!(offline_uuid("Notch"), "b50ad385-829d-3141-a216-7e7d7539ba7f");
    assert_eq!(offline_uuid("Steve_123"), "77cae0ff-71ba-39ba-b80c-74428607dfcc");
}

#[test]
fn offline_uuid_is_deterministic_and_version_three() {
    let a = offline_uuid("Alex");
    let b = offline_uuid("Alex");
    assert_eq!(a, b);
    assert_eq!(a.len(), 36);
    assert_eq!(a.chars().nth(14), Some('3'));
    assert!(matches!(a.chars().nth(19), Some('8' | '9' | 'a' | 'b')));
    assert_ne!(offline_uuid("Alex"), offline_uuid("alex"));
}

#[test]
fn offline_profile_keeps_typed_name() {
    let p = offline_profile(" Steve ").unwrap();
    assert_eq!(p.username, " Steve ");
    assert_eq!(p.uuid, "4d53680f-0c07-36b2-8793-d3931967c543");
    assert_eq!(p.token, None);
    assert_eq!(p.auth_type, AuthType::Offline);
    assert!(offline_profile("x").is_err());
}

fn profile(name: &str, kind: AuthType) -> UserProfile {
    UserProfile { username: name.to_string(), uuid: "u".to_string(), token: None, auth_type: kind }
}

#[test]
fn microsoft_session_takes_precedence() {
    let ms = profile("ms", AuthType::Microsoft);
    let off = profile("off", AuthType::Offline);
    assert_eq!(prefer_session(Some(ms.clone()), Some(off.clone())), Some(ms));
    assert_eq!(prefer_session(None, Some(off.clone())), Some(off));
    assert_eq!(prefer_session(None, None), None);
}

#[test]
fn oauth_addresses() {
    assert_eq!(redirect_uri(8080), "http://localhost:8080");
    assert_eq!(redirect_uri(0), "http://localhost:0");
    assert_eq!(
        authorize_url(1234),
        "https://login.microsoftonline.com/consumers/oauth2/v2.0/authorize?client_id=a3b355d3-569d-4db8-9323-86fdb75e8e41&response_type=code&redirect_uri=http://localhost:1234&scope=XboxLive.signin%20offline_access&prompt=select_account"
    );
}

#[test]
fn xbox_tokens() {
    assert_eq!(rps_ticket("tok"), "d=tok");
    assert_eq!(xbox_identity_token("uhs", "xsts"), "XBL3.0 x=uhs;xsts");
}

#[test]
fn microsoft_profile_carries_token() {
    let p = microsoft_profile("Name".to_string(), "id".to_string(), "mc".to_string());
    assert_eq!(p.auth_type, AuthType::Microsoft);
    assert_eq!(p.token, Some("mc".to_string()));
    assert_eq!(p.username, "Name");
    assert_eq!(p.uuid, "id");
}

#[test]
fn missing_reply_field_means_no_session() {
    assert_eq!(require_field(Some("t".to_string())), Ok("t".to_string()));
    assert_eq!(require_field(None), Err(LauncherError::Auth(AuthError::MissingSession)));
}

#[test]
fn oauth_code_from_redirect() {
    assert_eq!(oauth_code("http://localhost:1234/?code=abc&state=x"), Some("abc".to_string()));
    assert_eq!(oauth_code("http://localhost:1234/?a=1&code=M.R3%2Bx&code=second"), Some("M.R3+x".to_string()));
    assert_eq!(oauth_code("http://localhost:1234/?error=access_denied"), None);
    assert_eq!(oauth_code("not a url"), None);
}
