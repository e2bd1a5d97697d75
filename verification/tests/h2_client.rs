use chaussette::h2::{
    check_keepalive, check_status, handshake_settings, proxy_uri, request, take_identity,
    IdentityError, KeepAliveError, RefusedStatus, RequestError,
};
use chaussette::{Config, Http2KeepAliveConfig, HttpVersion};

fn config() -> Config {
    Config {
        proxy: "https://proxy.example:8443/".to_string(),
        geohash: "xn76cvs0-JP".to_string(),
        request_timeout: Some(5),
        masque_preshared_key: None,
        proxy_ca: Some("ca.pem".to_string()),
        client_cert: None,
        client_key: None,
        http_version: HttpVersion::H3,
        http2_keepalive: None,
    }
}

fn keepalive(interval: u128, timeout: u128) -> Option<Http2KeepAliveConfig> {
    Some(Http2KeepAliveConfig { interval, timeout })
}

#[test]
fn keepalive_needs_an_interval_and_a_timeout() {
    let mut config = config();
    assert_eq!(check_keepalive(&config), Ok(()));
    config.http2_keepalive = keepalive(1, 1);
    assert_eq!(check_keepalive(&config), Ok(()));
    config.http2_keepalive = keepalive(0, 1);
    assert_eq!(check_keepalive(&config), Err(KeepAliveError::ZeroInterval));
    config.http2_keepalive = keepalive(1, 0);
    assert_eq!(check_keepalive(&config), Err(KeepAliveError::ZeroTimeout));
    config.http2_keepalive = keepalive(0, 0);
    assert_eq!(check_keepalive(&config), Err(KeepAliveError::ZeroInterval));
}

#[test]
fn keepalive_errors_in_words() {
    assert_eq!(
        KeepAliveError::ZeroInterval.message(),
        "HTTP/2 keepalive interval must be greater than zero"
    );
    assert_eq!(
        KeepAliveError::ZeroTimeout.message(),
        "HTTP/2 keepalive timeout must be greater than zero"
    );
}

#[test]
fn identity_is_taken_out_of_the_configuration() {
    let mut config = config();
    config.client_cert = Some("cert".to_string());
    config.client_key = Some("key".to_string());
    let identity = take_identity(&mut config).unwrap().unwrap();
    assert_eq!(identity.cert, "cert");
    assert_eq!(identity.key, "key");
    assert_eq!(config.client_cert, None);
    assert_eq!(config.client_key, None);
    assert_eq!(config.proxy_ca.as_deref(), Some("ca.pem"));
    assert!(take_identity(&mut config).unwrap().is_none());
}

#[test]
fn identity_needs_both_halves() {
    let mut config = config();
    config.client_key = Some("key".to_string());
    assert_eq!(take_identity(&mut config).err(), Some(IdentityError::MissingCert));
    config.client_cert = Some("cert".to_string());
    assert_eq!(take_identity(&mut config).err(), Some(IdentityError::MissingKey));
    assert_eq!(config.client_cert, None);
    assert_eq!(IdentityError::MissingCert.message(), "client cert is missing");
    assert_eq!(IdentityError::MissingKey.message(), "client key is missing");
}

#[test]
fn proxy_uri_has_its_components() {
    let uri = proxy_uri(&config()).unwrap();
    assert_eq!(uri.scheme.as_deref(), Some("https"));
    assert_eq!(uri.authority.as_deref(), Some("proxy.example:8443"));
    assert_eq!(uri.path_and_query.as_deref(), Some("/"));
}

#[test]
fn proxy_uri_must_be_a_uri() {
    let mut config = config();
    config.proxy = "https://a b".to_string();
    assert!(proxy_uri(&config).is_err());
}

#[test]
fn keepalive_goes_on_while_idle() {
    let settings = handshake_settings(keepalive(20_000_000, 30_000_000));
    assert!(settings.timer);
    assert_eq!(settings.keep_alive_interval, Some(20_000_000));
    assert_eq!(settings.keep_alive_timeout, Some(30_000_000));
    assert_eq!(settings.keep_alive_while_idle, Some(true));
}

#[test]
fn no_keepalive_leaves_the_settings_alone() {
    let settings = handshake_settings(None);
    assert!(!settings.timer);
    assert_eq!(settings.keep_alive_interval, None);
    assert_eq!(settings.keep_alive_timeout, None);
    assert_eq!(settings.keep_alive_while_idle, None);
}

#[test]
fn request_outcomes() {
    let answered: Result<u8, RequestError<&str>> = request(true, Some(Ok(7)));
    assert_eq!(answered.unwrap(), 7);
    let failed: Result<u8, RequestError<&str>> = request(true, Some(Err("reset")));
    assert!(matches!(failed, Err(RequestError::Failed("reset"))));
    let dropped: Result<u8, RequestError<&str>> = request(true, None);
    assert!(matches!(dropped, Err(RequestError::ResponseDropped)));
    let closed: Result<u8, RequestError<&str>> = request(false, None);
    assert!(matches!(closed, Err(RequestError::ClientClosed)));
}

#[test]
fn request_errors_in_words() {
    let closed: RequestError<()> = RequestError::ClientClosed;
    let dropped: RequestError<()> = RequestError::ResponseDropped;
    let failed: RequestError<()> = RequestError::Failed(());
    assert_eq!(closed.message(), "proxy client connection closed");
    assert_eq!(dropped.message(), "proxy response channel closed");
    assert_eq!(failed.message(), "proxy request failed");
}

#[test]
fn only_success_opens_a_tunnel() {
    assert_eq!(check_status(199), Err(RefusedStatus { status: 199 }));
    assert_eq!(check_status(200), Ok(()));
    assert_eq!(check_status(299), Ok(()));
    assert_eq!(check_status(300), Err(RefusedStatus { status: 300 }));
    assert_eq!(check_status(403), Err(RefusedStatus { status: 403 }));
}

#[test]
fn refused_status_in_words() {
    assert_eq!(
        RefusedStatus { status: 403 }.message(),
        "proxy connection failed with status: 403 Forbidden"
    );
    assert_eq!(
        RefusedStatus { status: 999 }.message(),
        "proxy connection failed with status: 999 <unknown status code>"
    );
}
