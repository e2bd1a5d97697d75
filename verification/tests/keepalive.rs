use chaussette::h2::{handshake_settings, HandshakeSettings, ProxyClient};
use chaussette::worker::{WorkerAction, WorkerEvent};
use chaussette::Http2KeepAliveConfig;
use hyper_util::rt::{TokioExecutor, TokioIo, TokioTimer};
use std::future::pending;
use std::time::Duration;
use tokio::io::DuplexStream;
use tokio::sync::oneshot;

type Sender = hyper::client::conn::http2::SendRequest<http_body_util::Empty<bytes::Bytes>>;

fn runtime() -> tokio::runtime::Runtime {
    tokio::runtime::Builder::new_multi_thread()
        .enable_all()
        .build()
        .unwrap()
}

fn millis(millis: u64) -> u128 {
    Duration::from_millis(millis).as_nanos()
}

fn duration(nanos: u128) -> Duration {
    Duration::from_nanos(nanos as u64)
}

/// An HTTP/2 connection with these settings, and a channel that tells when it is
/// closed.
async fn handshake(
    stream: DuplexStream,
    settings: HandshakeSettings,
) -> (Sender, oneshot::Receiver<()>) {
    let mut builder = hyper::client::conn::http2::Builder::new(TokioExecutor::new());
    if settings.timer {
        builder.timer(TokioTimer::new());
    }
    if let Some(interval) = settings.keep_alive_interval {
        builder.keep_alive_interval(duration(interval));
    }
    if let Some(timeout) = settings.keep_alive_timeout {
        builder.keep_alive_timeout(duration(timeout));
    }
    if let Some(while_idle) = settings.keep_alive_while_idle {
        builder.keep_alive_while_idle(while_idle);
    }
    let (sender, connection) = builder.handshake(TokioIo::new(stream)).await.unwrap();
    let (closed_sender, closed) = oneshot::channel();
    tokio::spawn(async move {
        let _ = connection.await;
        let _ = closed_sender.send(());
    });
    (sender, closed)
}

#[test]
fn keepalive_closes_an_unresponsive_http2_connection() {
    runtime().block_on(async {
        let (client_stream, server_stream) = tokio::io::duplex(1024);
        let server_task = tokio::spawn(async move {
            let _connection = ::h2::server::handshake(server_stream).await.unwrap();

            pending::<()>().await;
        });

        let (_sender, closed) = handshake(
            client_stream,
            handshake_settings(Some(Http2KeepAliveConfig {
                interval: millis(20),
                timeout: millis(20),
            })),
        )
        .await;

        tokio::time::timeout(Duration::from_secs(1), closed)
            .await
            .unwrap()
            .unwrap();

        server_task.abort();
    });
}

#[test]
fn connection_without_keepalive_stays_open() {
    runtime().block_on(async {
        let (client_stream, server_stream) = tokio::io::duplex(1024);
        let server_task = tokio::spawn(async move {
            let _connection = ::h2::server::handshake(server_stream).await.unwrap();

            pending::<()>().await;
        });

        let (_sender, closed) = handshake(client_stream, handshake_settings(None)).await;

        assert!(tokio::time::timeout(Duration::from_millis(200), closed)
            .await
            .is_err());

        server_task.abort();
    });
}

/// A worker with a keepalive, run against two connections of which the first is
/// lost: it makes the second one with no request in sight.
#[test]
fn configured_keepalive_reconnects_without_waiting_for_a_request() {
    runtime().block_on(async {
        let keepalive = Some(Http2KeepAliveConfig {
            interval: millis(60_000),
            timeout: millis(60_000),
        });
        let (first_stream, first_server) = tokio::io::duplex(1024);
        let (second_stream, second_server) = tokio::io::duplex(1024);
        let (first_connected_sender, first_connected) = oneshot::channel();
        let (close_first_sender, close_first) = oneshot::channel::<()>();
        let (second_connected_sender, second_connected) = oneshot::channel();

        let server_task = tokio::spawn(async move {
            let first_connection = ::h2::server::handshake(first_server).await.unwrap();
            first_connected_sender.send(()).unwrap();

            close_first.await.unwrap();
            drop(first_connection);

            let _second_connection = ::h2::server::handshake(second_server).await.unwrap();
            second_connected_sender.send(()).unwrap();

            pending::<()>().await;
        });

        let worker_task = tokio::spawn(async move {
            let mut streams = vec![second_stream, first_stream];
            let mut connection = None;
            let (mut worker, mut action) = ProxyClient::new(keepalive);
            loop {
                let event = match action {
                    WorkerAction::Connect(settings) => {
                        connection = Some(handshake(streams.pop().unwrap(), settings).await);
                        WorkerEvent::Connected
                    }
                    WorkerAction::Await { watch } => {
                        assert!(watch);
                        let (_, closed) = connection.as_mut().unwrap();
                        let _ = closed.await;
                        WorkerEvent::ConnectionClosed
                    }
                    _ => unreachable!(),
                };
                assert!(worker.accepts(event));
                action = worker.step(event);
            }
        });

        tokio::time::timeout(Duration::from_secs(1), first_connected)
            .await
            .unwrap()
            .unwrap();
        close_first_sender.send(()).unwrap();
        tokio::time::timeout(Duration::from_secs(1), second_connected)
            .await
            .unwrap()
            .unwrap();

        worker_task.abort();
        server_task.abort();
    });
}
