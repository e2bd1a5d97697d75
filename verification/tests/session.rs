use chaussette::message::request_parts;
use chaussette::session::{Session, SessionAction, SessionError, SessionEvent};
use chaussette::socks::{Address, Command, Reply};
use chaussette::{Config, HttpVersion};

fn config(timeout: Option<u64>) -> Config {
    Config {
        proxy: "https://proxy.example:443".to_string(),
        geohash: "xn76cvs0-JP".to_string(),
        request_timeout: timeout,
        masque_preshared_key: Some("1234".to_string()),
        proxy_ca: None,
        client_cert: None,
        client_key: None,
        http_version: HttpVersion::H2,
        http2_keepalive: None,
    }
}

fn v4() -> Address {
    Address::V4([192, 0, 2, 1], 443)
}

fn is_v4(address: &Address) -> bool {
    matches!(address, Address::V4([192, 0, 2, 1], 443))
}

/// A session that has read a command, and what it does then.
fn after_command(config: &Config, command: Command, address: Address) -> (Session, SessionAction) {
    let (session, action) = Session::start();
    assert!(matches!(action, SessionAction::Authenticate));
    let (session, action) = step(session, config, SessionEvent::Authenticated);
    assert!(matches!(action, SessionAction::AwaitCommand));
    step(session, config, SessionEvent::Command(command, address))
}

fn step(session: Session, config: &Config, event: SessionEvent) -> (Session, SessionAction) {
    assert!(session.accepts(&event));
    session.step(config, event)
}

#[test]
fn tunnel_is_opened_relayed_and_shut_down() {
    let config = config(Some(30));
    let (session, action) = after_command(&config, Command::Connect, v4());
    match action {
        SessionAction::Connect { request, timeout } => {
            assert_eq!(timeout, Some(30));
            let parts = request_parts(&request);
            assert_eq!(parts.method, "CONNECT");
            assert_eq!(parts.authority.as_deref(), Some("192.0.2.1:443"));
            assert_eq!(parts.fields.len(), 3);
            assert_eq!(parts.fields[0].name, b"host".to_vec());
            assert_eq!(parts.fields[0].value, b"192.0.2.1:443".to_vec());
            assert_eq!(parts.fields[1].name, b"sec-ch-geohash".to_vec());
            assert_eq!(parts.fields[1].value, b"xn76cvs0-JP".to_vec());
            assert_eq!(parts.fields[2].name, b"proxy-authorization".to_vec());
            assert_eq!(parts.fields[2].value, b"Preshared 1234".to_vec());
        }
        _ => panic!("no request"),
    }
    let (session, action) = step(session, &config, SessionEvent::UpstreamConnected);
    match action {
        SessionAction::Reply(reply, address) => {
            assert_eq!(reply, Reply::Succeeded);
            assert!(is_v4(&address));
        }
        _ => panic!("no reply"),
    }
    let (session, action) = step(session, &config, SessionEvent::Replied);
    assert!(matches!(action, SessionAction::Relay));
    let (session, action) = step(session, &config, SessionEvent::Relayed);
    assert!(matches!(action, SessionAction::ShutDown));
    let (session, action) = step(session, &config, SessionEvent::ShutDown);
    assert!(matches!(action, SessionAction::Finish(Ok(()))));
    assert!(matches!(session, Session::Finished));
    assert!(!session.accepts(&SessionEvent::Replied));
}

#[test]
fn no_timeout_means_no_limit() {
    let config = config(None);
    let (_, action) = after_command(&config, Command::Connect, v4());
    assert!(matches!(action, SessionAction::Connect { timeout: None, .. }));
}

#[test]
fn failed_upstream_is_a_general_failure() {
    let config = config(Some(1));
    let (session, _) = after_command(&config, Command::Connect, v4());
    let (session, action) = step(session, &config, SessionEvent::UpstreamFailed);
    match action {
        SessionAction::Reply(reply, address) => {
            assert_eq!(reply, Reply::GeneralFailure);
            assert!(is_v4(&address));
        }
        _ => panic!("no reply"),
    }
    let (_, action) = step(session, &config, SessionEvent::Replied);
    assert!(matches!(action, SessionAction::Finish(Ok(()))));
}

#[test]
fn other_commands_get_command_not_supported() {
    for command in [Command::Bind, Command::Associate] {
        let config = config(None);
        let (session, action) = after_command(&config, command, v4());
        match action {
            SessionAction::Reply(reply, address) => {
                assert_eq!(reply, Reply::CommandNotSupported);
                assert!(is_v4(&address));
            }
            _ => panic!("no reply"),
        }
        let (_, action) = step(session, &config, SessionEvent::Replied);
        assert!(matches!(action, SessionAction::Finish(Ok(()))));
    }
}

#[test]
fn refusal_that_cannot_be_sent_is_an_error() {
    let config = config(None);
    let (session, _) = after_command(&config, Command::Bind, v4());
    let (_, action) = step(session, &config, SessionEvent::ReplyFailed);
    assert!(matches!(
        action,
        SessionAction::Finish(Err(SessionError::FailedToReply))
    ));
}

#[test]
fn domain_that_is_not_utf8_ends_the_session_unanswered() {
    let config = config(None);
    let (session, action) =
        after_command(&config, Command::Connect, Address::Domain(vec![0xc0], 80));
    assert!(matches!(
        action,
        SessionAction::Finish(Err(SessionError::InvalidDomain))
    ));
    assert!(matches!(session, Session::Finished));
}

#[test]
fn domain_that_is_no_uri_is_a_general_failure() {
    let config = config(None);
    let (session, action) = after_command(
        &config,
        Command::Connect,
        Address::Domain(b"a b".to_vec(), 80),
    );
    assert!(matches!(
        action,
        SessionAction::Reply(Reply::GeneralFailure, Address::Domain(_, 80))
    ));
    let (_, action) = step(session, &config, SessionEvent::ReplyFailed);
    assert!(matches!(
        action,
        SessionAction::Finish(Err(SessionError::FailedToReply))
    ));
}

#[test]
fn ipv6_tunnel_is_requested_in_brackets() {
    let config = config(None);
    let address = Address::V6([0, 0, 0, 0, 0, 0, 0, 1], 8443);
    match after_command(&config, Command::Connect, address).1 {
        SessionAction::Connect { request, .. } => {
            assert_eq!(request_parts(&request).authority.as_deref(), Some("[::1]:8443"));
        }
        _ => panic!("no request"),
    }
}

#[test]
fn failed_authentication_ends_the_session() {
    let config = config(None);
    let (session, _) = Session::start();
    let (_, action) = step(session, &config, SessionEvent::AuthenticationFailed);
    assert!(matches!(
        action,
        SessionAction::Finish(Err(SessionError::Authentication))
    ));
}

#[test]
fn failed_command_ends_the_session() {
    let config = config(None);
    let (session, _) = Session::start();
    let (session, _) = step(session, &config, SessionEvent::Authenticated);
    let (_, action) = step(session, &config, SessionEvent::CommandFailed);
    assert!(matches!(
        action,
        SessionAction::Finish(Err(SessionError::Command))
    ));
}

#[test]
fn success_that_cannot_be_reported_ends_the_session() {
    let config = config(None);
    let (session, _) = after_command(&config, Command::Connect, v4());
    let (session, _) = step(session, &config, SessionEvent::UpstreamConnected);
    let (_, action) = step(session, &config, SessionEvent::ReplyFailed);
    assert!(matches!(
        action,
        SessionAction::Finish(Err(SessionError::SuccessReply))
    ));
}

#[test]
fn failed_relay_ends_the_session_without_shutdown() {
    let config = config(None);
    let (session, _) = after_command(&config, Command::Connect, v4());
    let (session, _) = step(session, &config, SessionEvent::UpstreamConnected);
    let (session, _) = step(session, &config, SessionEvent::Replied);
    let (_, action) = step(session, &config, SessionEvent::RelayFailed);
    assert!(matches!(
        action,
        SessionAction::Finish(Err(SessionError::Relay))
    ));
}

#[test]
fn failed_shutdown_ends_the_session() {
    let config = config(None);
    let (session, _) = after_command(&config, Command::Connect, v4());
    let (session, _) = step(session, &config, SessionEvent::UpstreamConnected);
    let (session, _) = step(session, &config, SessionEvent::Replied);
    let (session, _) = step(session, &config, SessionEvent::Relayed);
    let (_, action) = step(session, &config, SessionEvent::ShutdownFailed);
    assert!(matches!(
        action,
        SessionAction::Finish(Err(SessionError::Shutdown))
    ));
}
