use hikwatch::credential::{encode_password, AuthSetting};
use hikwatch::endpoint::WebEndpoint;
use hikwatch::session::{extract_cookie, login_token, ClientError, HikClient};

fn setting() -> AuthSetting {
    AuthSetting {
        session_id: "sid-1".to_string(),
        challenge: "c".to_string(),
        iterations: 4,
        salt: "s".to_string(),
        is_irreversible: true,
        is_session_id_valid_long_term: true,
        session_id_version: 2,
    }
}

fn client() -> HikClient<WebEndpoint> {
    HikClient::new("u", "p", WebEndpoint::new("http://10.0.0.2"))
}

#[test]
fn cookie_is_cut_at_first_separator() {
    assert_eq!(
        extract_cookie("abc=123; Path=/; HttpOnly"),
        Ok("abc=123".to_string())
    );
}

#[test]
fn cookie_without_separator_is_kept_whole() {
    assert_eq!(extract_cookie("abc=123"), Ok("abc=123".to_string()));
    assert_eq!(extract_cookie(""), Ok(String::new()));
    assert_eq!(extract_cookie(";x"), Ok(String::new()));
}

#[test]
fn login_without_cookie_is_rejected() {
    assert_eq!(login_token(None), Err(ClientError::LoginRejected));
    assert_eq!(
        login_token(Some("WebSession=ab12; path=/")),
        Ok("WebSession=ab12".to_string())
    );
}

#[test]
fn poll_before_login_is_refused() {
    let c = client();
    assert!(!c.is_connected());
    assert_eq!(c.online_users_request().err(), Some(ClientError::NotLoggedIn));
}

#[test]
fn login_payload_carries_derived_password() {
    let c = client();
    assert!(c.begin_login().is_ok());
    let p = c.login_payload(&setting()).unwrap();
    assert_eq!(p.username, "u");
    assert_eq!(p.password, encode_password("u", "p", &setting()));
    assert_eq!(p.session_id, "sid-1");
    assert!(p.is_session_id_valid_long_term);
    assert_eq!(p.session_id_version, 2);
}

#[test]
fn second_login_is_refused_and_keeps_token() {
    let rt = tokio::runtime::Runtime::new().unwrap();
    let mut c = client();
    let first = rt.spawn(async {});
    assert_eq!(c.complete_login(setting(), "tok=1".to_string(), first), Ok(()));
    assert!(c.is_connected());
    assert_eq!(c.begin_login().err(), Some(ClientError::AlreadyConnected));
    assert_eq!(
        c.login_payload(&setting()).err(),
        Some(ClientError::AlreadyConnected)
    );
    let second = rt.spawn(async {});
    assert_eq!(
        c.complete_login(setting(), "tok=2".to_string(), second),
        Err(ClientError::AlreadyConnected)
    );
    let (_, cookie) = c.online_users_request().unwrap();
    assert_eq!(cookie, "tok=1");
}

#[test]
fn logout_closes_the_session() {
    let rt = tokio::runtime::Runtime::new().unwrap();
    let mut c = client();
    let hb = rt.spawn(async {});
    assert_eq!(c.complete_login(setting(), "tok=1".to_string(), hb), Ok(()));
    c.logout();
    assert!(!c.is_connected());
    assert_eq!(c.online_users_request().err(), Some(ClientError::NotLoggedIn));
    c.logout();
    assert!(!c.is_connected());
}

#[test]
fn requests_go_to_the_device_addresses() {
    let c = client();
    let url = c.begin_login().unwrap();
    let prefix = "http://10.0.0.2/ISAPI/Security/sessionLogin/capabilities?username=u&random=";
    assert!(url.starts_with(prefix));
    assert!(url[prefix.len()..].parse::<u16>().is_ok());

    let rt = tokio::runtime::Runtime::new().unwrap();
    let mut c = client();
    let hb = rt.spawn(async {});
    assert_eq!(c.complete_login(setting(), "tok=1".to_string(), hb), Ok(()));
    let (poll_url, cookie) = c.online_users_request().unwrap();
    assert_eq!(poll_url, "http://10.0.0.2/ISAPI/Security/onlineUser");
    assert_eq!(cookie, "tok=1");
    c.logout();
}
