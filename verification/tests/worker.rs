use chaussette::h2::{handshake_settings, HandshakeSettings, ProxyClient};
use chaussette::worker::{Purpose, WorkerAction, WorkerEvent, WorkerState};
use chaussette::Http2KeepAliveConfig;

const KEEPALIVE: Option<Http2KeepAliveConfig> = Some(Http2KeepAliveConfig {
    interval: 20,
    timeout: 30,
});

fn step(worker: &mut ProxyClient, event: WorkerEvent) -> WorkerAction {
    assert!(worker.accepts(event));
    worker.step(event)
}

#[test]
fn keepalive_connects_before_any_request() {
    let (worker, action) = ProxyClient::new(KEEPALIVE);
    assert_eq!(action, WorkerAction::Connect(handshake_settings(KEEPALIVE)));
    assert_eq!(worker.state, WorkerState::Connecting(Purpose::Recovery));
}

#[test]
fn lost_connection_is_made_anew_without_a_request() {
    let (mut worker, _) = ProxyClient::new(KEEPALIVE);
    assert_eq!(
        step(&mut worker, WorkerEvent::Connected),
        WorkerAction::Await { watch: true }
    );
    assert_eq!(
        step(&mut worker, WorkerEvent::ConnectionClosed),
        WorkerAction::Connect(handshake_settings(KEEPALIVE))
    );
    assert_eq!(
        step(&mut worker, WorkerEvent::Connected),
        WorkerAction::Await { watch: true }
    );
    assert!(worker.connected);
}

#[test]
fn no_keepalive_connects_for_the_first_request() {
    let (mut worker, action) = ProxyClient::new(None);
    assert_eq!(action, WorkerAction::Await { watch: false });
    assert!(!worker.accepts(WorkerEvent::ConnectionClosed));
    assert_eq!(step(&mut worker, WorkerEvent::Request), WorkerAction::Connect(handshake_settings(None)));
    assert_eq!(step(&mut worker, WorkerEvent::Connected), WorkerAction::Send);
    assert_eq!(
        step(&mut worker, WorkerEvent::Sent),
        WorkerAction::Await { watch: false }
    );
}

#[test]
fn ready_connection_is_used_again() {
    let (mut worker, _) = ProxyClient::new(None);
    step(&mut worker, WorkerEvent::Request);
    step(&mut worker, WorkerEvent::Connected);
    step(&mut worker, WorkerEvent::Sent);
    assert_eq!(step(&mut worker, WorkerEvent::Request), WorkerAction::CheckReady);
    assert_eq!(step(&mut worker, WorkerEvent::Ready), WorkerAction::Send);
}

#[test]
fn stale_connection_is_replaced() {
    let (mut worker, _) = ProxyClient::new(None);
    step(&mut worker, WorkerEvent::Request);
    step(&mut worker, WorkerEvent::Connected);
    step(&mut worker, WorkerEvent::Sent);
    step(&mut worker, WorkerEvent::Request);
    assert_eq!(step(&mut worker, WorkerEvent::NotReady), WorkerAction::Connect(handshake_settings(None)));
    assert!(!worker.connected);
    assert_eq!(step(&mut worker, WorkerEvent::Connected), WorkerAction::Send);
}

#[test]
fn failed_attempt_is_followed_by_a_pause_and_another() {
    let (mut worker, _) = ProxyClient::new(None);
    step(&mut worker, WorkerEvent::Request);
    let before = worker;
    assert_eq!(
        step(&mut worker, WorkerEvent::ConnectFailed),
        WorkerAction::BackOff
    );
    assert_eq!(
        step(&mut worker, WorkerEvent::BackoffElapsed),
        WorkerAction::Connect(handshake_settings(None))
    );
    assert_eq!(worker, before);
}

#[test]
fn cancelled_request_is_not_sent() {
    let (mut worker, _) = ProxyClient::new(None);
    step(&mut worker, WorkerEvent::Request);
    assert_eq!(
        step(&mut worker, WorkerEvent::RequestCancelled),
        WorkerAction::Await { watch: false }
    );
    assert!(!worker.connected);
}

#[test]
fn cancelled_request_leaves_keepalive_recovery_running() {
    let (mut worker, _) = ProxyClient::new(KEEPALIVE);
    step(&mut worker, WorkerEvent::Connected);
    step(&mut worker, WorkerEvent::Request);
    step(&mut worker, WorkerEvent::NotReady);
    assert_eq!(
        step(&mut worker, WorkerEvent::RequestCancelled),
        WorkerAction::Connect(handshake_settings(KEEPALIVE))
    );
    assert_eq!(worker.state, WorkerState::Connecting(Purpose::Recovery));
}

#[test]
fn worker_stops_without_clients() {
    let (mut worker, _) = ProxyClient::new(None);
    assert_eq!(
        step(&mut worker, WorkerEvent::RequestsClosed),
        WorkerAction::Stop
    );
    assert!(!worker.accepts(WorkerEvent::Request));
}

#[test]
fn every_connection_has_the_configured_keepalive() {
    let expected = HandshakeSettings {
        timer: true,
        keep_alive_interval: Some(20),
        keep_alive_timeout: Some(30),
        keep_alive_while_idle: Some(true),
    };
    let (mut worker, action) = ProxyClient::new(KEEPALIVE);
    assert_eq!(action, WorkerAction::Connect(expected));
    step(&mut worker, WorkerEvent::ConnectFailed);
    assert_eq!(
        step(&mut worker, WorkerEvent::BackoffElapsed),
        WorkerAction::Connect(expected)
    );
    step(&mut worker, WorkerEvent::Connected);
    assert_eq!(
        step(&mut worker, WorkerEvent::ConnectionClosed),
        WorkerAction::Connect(expected)
    );
    step(&mut worker, WorkerEvent::Connected);
    step(&mut worker, WorkerEvent::Request);
    assert_eq!(
        step(&mut worker, WorkerEvent::NotReady),
        WorkerAction::Connect(expected)
    );
}

#[test]
fn client_serves_requests_after_a_cancelled_recovery() {
    let (mut worker, _) = ProxyClient::new(KEEPALIVE);
    step(&mut worker, WorkerEvent::Connected);
    step(&mut worker, WorkerEvent::Request);
    step(&mut worker, WorkerEvent::NotReady);
    step(&mut worker, WorkerEvent::ConnectFailed);
    step(&mut worker, WorkerEvent::RequestCancelled);
    assert_eq!(
        step(&mut worker, WorkerEvent::Connected),
        WorkerAction::Await { watch: true }
    );
    assert_eq!(step(&mut worker, WorkerEvent::Request), WorkerAction::CheckReady);
    assert_eq!(step(&mut worker, WorkerEvent::Ready), WorkerAction::Send);
}

#[test]
fn client_that_breaks_its_invariant_accepts_nothing() {
    let idle = ProxyClient {
        keepalive: KEEPALIVE,
        connected: false,
        state: WorkerState::Idle,
    };
    assert!(!idle.accepts(WorkerEvent::Request));
    let sound = ProxyClient {
        connected: true,
        ..idle
    };
    assert!(sound.accepts(WorkerEvent::Request));
}
