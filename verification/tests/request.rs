use chaussette::message::{bytes_equal, request_parts};
use chaussette::request::connect_request;
use chaussette::{fst, Config, HttpVersion};

fn config(geohash: &str, key: Option<&str>) -> Config {
    Config {
        proxy: "https://proxy.example:443".to_string(),
        geohash: geohash.to_string(),
        request_timeout: None,
        masque_preshared_key: key.map(|k| k.to_string()),
        proxy_ca: None,
        client_cert: None,
        client_key: None,
        http_version: HttpVersion::H2,
        http2_keepalive: None,
    }
}

fn fields(request: &http::Request<()>) -> Vec<(String, String)> {
    request_parts(request)
        .fields
        .iter()
        .map(|f| {
            (
                String::from_utf8(f.name.clone()).unwrap(),
                String::from_utf8(f.value.clone()).unwrap(),
            )
        })
        .collect()
}

fn pair(name: &str, value: &str) -> (String, String) {
    (name.to_string(), value.to_string())
}

#[test]
fn connect_request_without_key() {
    let request = connect_request(&config("xn76cvs0-JP", None), "example.com:443").unwrap();
    assert_eq!(request.method(), http::Method::CONNECT);
    assert_eq!(request.version(), http::Version::HTTP_11);
    assert_eq!(
        fields(&request),
        vec![
            pair("host", "example.com:443"),
            pair("sec-ch-geohash", "xn76cvs0-JP"),
        ]
    );
}

#[test]
fn connect_request_with_key() {
    let request = connect_request(&config("xn76cvs0-JP", Some("1234")), "192.0.2.1:80").unwrap();
    assert_eq!(
        fields(&request),
        vec![
            pair("host", "192.0.2.1:80"),
            pair("sec-ch-geohash", "xn76cvs0-JP"),
            pair("proxy-authorization", "Preshared 1234"),
        ]
    );
}

#[test]
fn connect_request_is_in_authority_form() {
    for target in [
        "example.com:443",
        "192.0.2.1:80",
        "[2001:db8::1]:443",
        "[ffff:ffff:ffff:ffff:ffff:ffff:ffff:ffff]:65535",
        "under_score~tilde:1",
        ":7",
    ] {
        let request = connect_request(&config("a", None), target).unwrap();
        let parts = request_parts(&request);
        assert_eq!(parts.method, "CONNECT");
        assert_eq!(parts.protocol, None);
        assert_eq!(parts.scheme, None);
        assert_eq!(parts.authority.as_deref(), Some(target));
        assert_eq!(parts.path_and_query, None);
    }
}

#[test]
fn connect_request_refuses_what_is_no_uri() {
    for target in ["", "a b:443", "b\u{fc}cher.example:443", "a:1:2"] {
        assert!(connect_request(&config("a", None), target).is_err());
    }
}

#[test]
fn connect_request_refuses_control_characters() {
    assert!(connect_request(&config("a\nb", None), "example.com:443").is_err());
    assert!(connect_request(&config("a", Some("k\u{0}")), "example.com:443").is_err());
    assert!(connect_request(&config("a", Some("k\u{7f}")), "example.com:443").is_err());
}

#[test]
fn connect_request_takes_tabs_and_non_ascii_values() {
    let request = connect_request(&config("a\tb", Some("k\u{e9}y")), "example.com:443").unwrap();
    assert_eq!(
        fields(&request),
        vec![
            pair("host", "example.com:443"),
            pair("sec-ch-geohash", "a\tb"),
            pair("proxy-authorization", "Preshared k\u{e9}y"),
        ]
    );
}

#[test]
fn empty_values_are_carried() {
    let request = connect_request(&config("", Some("")), "example.com:443").unwrap();
    assert_eq!(
        fields(&request),
        vec![
            pair("host", "example.com:443"),
            pair("sec-ch-geohash", ""),
            pair("proxy-authorization", "Preshared "),
        ]
    );
}

#[test]
fn parts_hold_the_protocol_and_all_components() {
    let mut request = http::Request::builder()
        .method("CONNECT")
        .uri("https://proxy.example:8443/masque?x=1")
        .header("A", "1")
        .header("B", "2")
        .header("a", "3")
        .body(())
        .unwrap();
    request
        .extensions_mut()
        .insert(::h2::ext::Protocol::from_static("connect-udp"));
    let parts = request_parts(&request);
    assert_eq!(parts.protocol.as_deref(), Some("connect-udp"));
    assert_eq!(parts.scheme.as_deref(), Some("https"));
    assert_eq!(parts.authority.as_deref(), Some("proxy.example:8443"));
    assert_eq!(parts.path_and_query.as_deref(), Some("/masque?x=1"));
    assert_eq!(
        fields(&request),
        vec![pair("a", "1"), pair("a", "3"), pair("b", "2")]
    );
}

#[test]
fn byte_strings_are_compared() {
    assert!(bytes_equal(b"abc", b"abc"));
    assert!(bytes_equal(b"", b""));
    assert!(!bytes_equal(b"abc", b"abd"));
    assert!(!bytes_equal(b"abc", b"ab"));
}

#[test]
fn fst_is_the_first() {
    assert_eq!(fst((1, "a")), 1);
}
