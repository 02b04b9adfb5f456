use qrush::basic_auth::check_basic_auth;
use qrush::config::QrushBasicAuthConfig;

fn admin() -> QrushBasicAuthConfig {
    QrushBasicAuthConfig { username: "admin".to_string(), password: "secret".to_string() }
}

#[test]
fn open_without_credentials() {
    assert!(check_basic_auth(None, None));
    assert!(check_basic_auth(None, Some("garbage")));
}

#[test]
fn accepts_matching_credentials() {
    assert!(check_basic_auth(Some(&admin()), Some("Basic YWRtaW46c2VjcmV0")));
}

#[test]
fn refuses_wrong_or_missing_credentials() {
    let a = admin();
    assert!(!check_basic_auth(Some(&a), None));
    assert!(!check_basic_auth(Some(&a), Some("Basic YWRtaW46d3Jvbmc=")));
    assert!(!check_basic_auth(Some(&a), Some("Bearer YWRtaW46c2VjcmV0")));
    assert!(!check_basic_auth(Some(&a), Some("basic YWRtaW46c2VjcmV0")));
    assert!(!check_basic_auth(Some(&a), Some("Basic not base64!")));
    // Decodes to "admin", which has no colon.
    assert!(!check_basic_auth(Some(&a), Some("Basic YWRtaW4=")));
    // Decodes to a byte that is not UTF-8.
    assert!(!check_basic_auth(Some(&a), Some("Basic /w==")));
}

#[test]
fn password_may_hold_colons() {
    let a = QrushBasicAuthConfig { username: "admin".to_string(), password: "pa:ss".to_string() };
    assert!(check_basic_auth(Some(&a), Some("Basic YWRtaW46cGE6c3M=")));
}

#[test]
fn user_name_with_a_colon_never_matches() {
    let a = QrushBasicAuthConfig { username: "ad:min".to_string(), password: "x".to_string() };
    assert!(!check_basic_auth(Some(&a), Some("Basic YWQ6bWluOng=")));
}
