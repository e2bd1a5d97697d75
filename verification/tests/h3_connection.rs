use chaussette::h3::connection::{
    ClientH3Event, Connection, EventError, NotSubmitted, RequestIds,
};
use chaussette::h3::headers::{h3_response_to_hyper_response, hyper_request_parts_to_h3_headers};
use chaussette::h3::run::{
    send_request, ReadySources, RunAction, RunError, RunEvent, RunStage, SendError, Source,
};
use chaussette::message::{request_parts, Header};
use chaussette::request::connect_request;
use chaussette::{Config, HttpVersion};

fn header(name: &str, value: &str) -> Header {
    Header {
        name: name.as_bytes().to_vec(),
        value: value.as_bytes().to_vec(),
    }
}

fn pairs(headers: &[Header]) -> Vec<(String, String)> {
    headers
        .iter()
        .map(|h| {
            (
                String::from_utf8(h.name.clone()).unwrap(),
                String::from_utf8(h.value.clone()).unwrap(),
            )
        })
        .collect()
}

fn pair(name: &str, value: &str) -> (String, String) {
    (name.to_string(), value.to_string())
}

fn config() -> Config {
    Config {
        proxy: "https://proxy.example:443".to_string(),
        geohash: "xn76cvs0-JP".to_string(),
        request_timeout: None,
        masque_preshared_key: Some("1234".to_string()),
        proxy_ca: None,
        client_cert: None,
        client_key: None,
        http_version: HttpVersion::H3,
        http2_keepalive: None,
    }
}

type Event = ClientH3Event<&'static str, &'static str>;
type Running = RunEvent<&'static str, &'static str, &'static str, u8>;

fn connection() -> Connection<&'static str, &'static str> {
    Connection::new_with_connection()
}

fn status(stream_id: u64, status: &str) -> Event {
    ClientH3Event::IncomingHeaders {
        stream_id,
        headers: vec![header(":status", status)],
        read_fin: false,
    }
}

#[test]
fn connect_goes_out_as_method_authority_and_fields() {
    let request = connect_request(&config(), "example.com:443").unwrap();
    let headers = hyper_request_parts_to_h3_headers(request_parts(&request));
    assert_eq!(
        pairs(&headers),
        vec![
            pair(":method", "CONNECT"),
            pair(":authority", "example.com:443"),
            pair("host", "example.com:443"),
            pair("sec-ch-geohash", "xn76cvs0-JP"),
            pair("proxy-authorization", "Preshared 1234"),
        ]
    );
}

#[test]
fn extended_connect_goes_out_with_all_pseudo_headers() {
    let mut request = http::Request::builder()
        .method("CONNECT")
        .uri("https://proxy.example/masque?h=1")
        .header("capsule-protocol", "?1")
        .body(())
        .unwrap();
    request
        .extensions_mut()
        .insert(::h2::ext::Protocol::from_static("connect-udp"));
    let headers = hyper_request_parts_to_h3_headers(request_parts(&request));
    assert_eq!(
        pairs(&headers),
        vec![
            pair(":method", "CONNECT"),
            pair(":protocol", "connect-udp"),
            pair(":scheme", "https"),
            pair(":authority", "proxy.example"),
            pair(":path", "/masque?h=1"),
            pair("capsule-protocol", "?1"),
        ]
    );
}

#[test]
fn response_has_its_status_and_fields() {
    let response = h3_response_to_hyper_response(vec![
        header(":status", "404"),
        header("Set-Cookie", "a=1"),
        header("server", "x"),
        header("set-cookie", "b=2"),
    ])
    .unwrap();
    assert_eq!(response.status().as_u16(), 404);
    assert_eq!(response.version(), http::Version::HTTP_3);
    let cookies: Vec<&str> = response
        .headers()
        .get_all("set-cookie")
        .iter()
        .map(|v| v.to_str().unwrap())
        .collect();
    assert_eq!(cookies, vec!["a=1", "b=2"]);
    let all: Vec<(&str, &[u8])> = response
        .headers()
        .iter()
        .map(|(n, v)| (n.as_str(), v.as_bytes()))
        .collect();
    assert_eq!(
        all,
        vec![
            ("set-cookie", &b"a=1"[..]),
            ("set-cookie", &b"b=2"[..]),
            ("server", &b"x"[..]),
        ]
    );
}

#[test]
fn response_without_status_is_200() {
    let response = h3_response_to_hyper_response(Vec::new()).unwrap();
    assert_eq!(response.status().as_u16(), 200);
    assert!(response.headers().is_empty());
}

#[test]
fn last_status_counts() {
    let response =
        h3_response_to_hyper_response(vec![header(":status", "100"), header(":status", "999")])
            .unwrap();
    assert_eq!(response.status().as_u16(), 999);
}

#[test]
fn what_is_no_status_is_refused() {
    for text in ["", "20", "099", "2000", "2a0", "abc"] {
        assert!(h3_response_to_hyper_response(vec![header(":status", text)]).is_err());
    }
}

#[test]
fn what_is_no_field_is_refused() {
    for name in ["", ":path", "a b", "a(b", "b\u{fc}"] {
        assert!(h3_response_to_hyper_response(vec![header(name, "x")]).is_err());
    }
    for value in ["a\nb", "\u{0}", "\u{7f}"] {
        assert!(h3_response_to_hyper_response(vec![header("x", value)]).is_err());
    }
}

#[test]
fn many_fields_are_kept() {
    let headers: Vec<Header> = (0..6553).map(|i| header(&format!("x-{}", i), "v")).collect();
    let response = h3_response_to_hyper_response(headers).unwrap();
    assert_eq!(response.headers().len(), 6553);
}

#[test]
fn values_of_one_name_are_not_limited() {
    let mut headers: Vec<Header> = (0..40000).map(|i| header("X-Many", &format!("{}", i))).collect();
    headers.push(header(":status", "204"));
    let response = h3_response_to_hyper_response(headers).unwrap();
    assert_eq!(response.status().as_u16(), 204);
    assert_eq!(response.headers().keys_len(), 1);
    assert_eq!(response.headers().len(), 40000);
    let last = response.headers().get_all("x-many").iter().last().unwrap();
    assert_eq!(last.as_bytes(), b"39999");
}

#[test]
fn too_many_names_are_refused() {
    let headers: Vec<Header> = (0..24577).map(|i| header(&format!("x-{}", i), "v")).collect();
    assert!(h3_response_to_hyper_response(headers).is_err());
}

#[test]
fn ready_sources_go_in_order() {
    let ready = |driver, request, shutdown, cancellation| {
        ReadySources {
            driver,
            request,
            shutdown,
            cancellation,
        }
        .first()
    };
    assert_eq!(ready(true, true, true, true), Some(Source::Driver));
    assert_eq!(ready(true, false, false, false), Some(Source::Driver));
    assert_eq!(ready(false, true, true, true), Some(Source::Request));
    assert_eq!(ready(false, false, true, true), Some(Source::Shutdown));
    assert_eq!(ready(false, false, false, true), Some(Source::Cancellation));
    assert_eq!(ready(false, false, false, false), None);
}

#[test]
fn response_reaches_the_request_of_its_stream() {
    let mut connection = connection();
    connection.client_req_submitted(1, "first", true).unwrap();
    connection.client_req_submitted(2, "second", true).unwrap();
    for (stream_id, request_id) in [(8, 1), (4, 2)] {
        let event: Event = ClientH3Event::NewOutboundRequest {
            stream_id,
            request_id,
        };
        assert!(matches!(connection.handle_event(event), Ok(None)));
    }
    let answer = connection.handle_event(status(4, "200")).ok().unwrap().unwrap();
    assert_eq!(answer.response, "second");
    assert_eq!(answer.head.status().as_u16(), 200);
    assert_eq!(answer.body.stream_id, 4);
    assert!(answer.body.has_recv);
    assert!(!answer.body.read_fin);
    let answer = connection.handle_event(status(8, "403")).ok().unwrap().unwrap();
    assert_eq!(answer.response, "first");
    assert_eq!(answer.head.status().as_u16(), 403);
}

#[test]
fn second_headers_on_a_stream_are_unknown() {
    let mut connection = connection();
    connection.client_req_submitted(1, "first", true).unwrap();
    let event: Event = ClientH3Event::NewOutboundRequest {
        stream_id: 4,
        request_id: 1,
    };
    assert!(connection.handle_event(event).is_ok());
    assert!(matches!(connection.handle_event(status(4, "200")), Ok(Some(_))));
    match connection.handle_event(status(4, "200")) {
        Err(error) => assert_eq!(
            error.message().as_deref(),
            Some("got headers for unknown stream_id=4")
        ),
        Ok(_) => panic!("answered twice"),
    }
}

#[test]
fn reset_request_gets_no_response() {
    let mut connection = connection();
    connection.client_req_submitted(1, "first", true).unwrap();
    let opened: Event = ClientH3Event::NewOutboundRequest {
        stream_id: 4,
        request_id: 1,
    };
    assert!(connection.handle_event(opened).is_ok());
    let reset: Event = ClientH3Event::ResetStream { stream_id: 4 };
    assert!(matches!(connection.handle_event(reset), Ok(None)));
    assert!(matches!(connection.handle_event(status(4, "200")), Ok(None)));
}

#[test]
fn reset_of_an_unknown_stream_changes_nothing() {
    let mut connection = connection();
    connection.client_req_submitted(1, "first", true).unwrap();
    let reset: Event = ClientH3Event::ResetStream { stream_id: 4 };
    assert!(matches!(connection.handle_event(reset), Ok(None)));
    assert_eq!(connection.pending_requests.len(), 1);
}

#[test]
fn invalid_response_is_an_error() {
    let mut connection = connection();
    connection.client_req_submitted(1, "first", true).unwrap();
    let opened: Event = ClientH3Event::NewOutboundRequest {
        stream_id: 4,
        request_id: 1,
    };
    assert!(connection.handle_event(opened).is_ok());
    match connection.handle_event(status(4, "oops")) {
        Err(error) => {
            assert!(matches!(error, EventError::InvalidResponse(_)));
            assert_eq!(error.message(), None);
        }
        Ok(_) => panic!("no response"),
    }
    assert!(connection.pending_requests.is_empty());
}

#[test]
fn settings_come_once() {
    let mut connection = connection();
    let first: Event = ClientH3Event::IncomingSettings {
        settings: vec![(6, 100), (8, 1)],
    };
    assert!(matches!(connection.handle_event(first), Ok(None)));
    assert_eq!(connection.peer_settings, Some(vec![(6, 100), (8, 1)]));
    let second: Event = ClientH3Event::IncomingSettings { settings: vec![] };
    match connection.handle_event(second) {
        Err(error) => assert_eq!(
            error.message().as_deref(),
            Some("settings already set - received duplicate settings from peer")
        ),
        Ok(_) => panic!("settings changed"),
    }
    assert_eq!(connection.peer_settings, Some(vec![(6, 100), (8, 1)]));
}

#[test]
fn flows_are_kept() {
    let mut connection = connection();
    let flow: Event = ClientH3Event::NewFlow {
        flow_id: 3,
        flow: "flow",
    };
    assert!(matches!(connection.handle_event(flow), Ok(None)));
    assert_eq!(connection.flow_map.get(&3), Some(&"flow"));
}

#[test]
fn errors_of_the_connection_are_passed_on() {
    let mut connection = connection();
    let failed: Event = ClientH3Event::ConnectionError("broken");
    assert!(matches!(
        connection.handle_event(failed),
        Err(EventError::Transport("broken"))
    ));
    let goaway: Event = ClientH3Event::GoAway;
    match connection.handle_event(goaway) {
        Err(error) => assert_eq!(error.message().as_deref(), Some("goaway")),
        Ok(_) => panic!("goes on"),
    }
    let shutdown: Event = ClientH3Event::ConnectionShutdown;
    assert!(matches!(
        connection.handle_event(shutdown),
        Err(EventError::Shutdown)
    ));
}

#[test]
fn body_bytes_and_closed_streams_need_nothing() {
    let mut connection = connection();
    let received: Event = ClientH3Event::BodyBytesReceived;
    assert!(matches!(connection.handle_event(received), Ok(None)));
    let closed: Event = ClientH3Event::StreamClosed;
    assert!(matches!(connection.handle_event(closed), Ok(None)));
}

#[test]
fn writer_is_wanted_for_bodies_and_connects() {
    let connect = connect_request(&config(), "example.com:443").unwrap();
    let get = http::Request::get("https://a.example/").body(()).unwrap();
    type C = Connection<(), ()>;
    let mut ids = RequestIds::new();
    let cases = [
        (C::handle_client_req(&mut ids, &connect, Some(0)), true, false),
        (C::handle_client_req(&mut ids, &connect, None), true, true),
        (C::handle_client_req(&mut ids, &get, Some(0)), false, false),
        (C::handle_client_req(&mut ids, &get, Some(1)), true, true),
        (C::handle_client_req(&mut ids, &get, None), true, true),
    ];
    assert_eq!(ids.next, 5);
    for (i, (new, body_writer, has_body)) in cases.into_iter().enumerate() {
        assert_eq!(new.request_id, i as u64);
        assert_eq!(new.body_writer, body_writer);
        assert_eq!(new.has_body, has_body);
    }
}

#[test]
fn request_that_was_not_taken_is_not_pending() {
    let mut connection = connection();
    assert_eq!(
        connection.client_req_submitted(1, "first", false),
        Err(NotSubmitted)
    );
    assert!(connection.pending_requests.is_empty());
    assert_eq!(
        NotSubmitted.message(),
        "unable to send new client request to IO worker"
    );
}

fn run(
    connection: &mut Connection<&'static str, &'static str>,
    ids: &mut RequestIds,
    stage: RunStage<&'static str>,
    event: Running,
) -> (
    RunStage<&'static str>,
    RunAction<&'static str, &'static str, u8>,
) {
    assert!(stage.accepts(&event));
    connection.run(ids, stage, event)
}

fn request_event(body_size: Option<u64>, response: &'static str) -> Running {
    RunEvent::Request {
        request: connect_request(&config(), "example.com:443").unwrap(),
        body_size,
        response,
    }
}

#[test]
fn loop_submits_a_request_and_answers_it() {
    let mut connection = connection();
    let mut ids = RequestIds { next: 7 };
    let (stage, action) = run(
        &mut connection,
        &mut ids,
        RunStage::Awaiting,
        request_event(Some(0), "client"),
    );
    match action {
        RunAction::Submit(new) => {
            assert_eq!(new.request_id, 7);
            assert!(new.body_writer);
            assert_eq!(pairs(&new.headers)[0], pair(":method", "CONNECT"));
        }
        _ => panic!("not submitted"),
    }
    let (stage, action) = run(&mut connection, &mut ids, stage, RunEvent::Submitted);
    assert!(matches!(action, RunAction::Await));
    let (stage, _) = run(
        &mut connection,
        &mut ids,
        stage,
        RunEvent::Driver(ClientH3Event::NewOutboundRequest {
            stream_id: 4,
            request_id: 7,
        }),
    );
    let (stage, action) = run(&mut connection, &mut ids, stage, RunEvent::Driver(status(4, "200")));
    match action {
        RunAction::Answer(answer) => assert_eq!(answer.response, "client"),
        _ => panic!("no answer"),
    }
    let (stage, action) = run(&mut connection, &mut ids, stage, RunEvent::DriverClosed);
    assert!(matches!(action, RunAction::Finish(Ok(()))));
    let late: Running = RunEvent::Cancelled;
    assert!(!stage.accepts(&late));
}

#[test]
fn loop_sends_a_body_once_the_request_was_taken() {
    let mut connection = connection();
    let mut ids = RequestIds { next: 7 };
    let (stage, _) = run(
        &mut connection,
        &mut ids,
        RunStage::Awaiting,
        request_event(None, "client"),
    );
    let (_, action) = run(&mut connection, &mut ids, stage, RunEvent::Submitted);
    assert!(matches!(action, RunAction::SendBody));
}

#[test]
fn loop_ends_when_a_request_is_not_taken() {
    let mut connection = connection();
    let mut ids = RequestIds { next: 7 };
    let (stage, _) = run(
        &mut connection,
        &mut ids,
        RunStage::Awaiting,
        request_event(None, "client"),
    );
    let (_, action) = run(&mut connection, &mut ids, stage, RunEvent::SubmitFailed);
    assert!(matches!(
        action,
        RunAction::Finish(Err(RunError::NotSubmitted(NotSubmitted)))
    ));
}

#[test]
fn loop_ends_on_goaway() {
    let mut connection = connection();
    let mut ids = RequestIds { next: 7 };
    let (_, action) = run(
        &mut connection,
        &mut ids,
        RunStage::Awaiting,
        RunEvent::Driver(ClientH3Event::GoAway),
    );
    assert!(matches!(
        action,
        RunAction::Finish(Err(RunError::Event(EventError::GoAway)))
    ));
}

#[test]
fn loop_closes_on_request_and_ends_once_cancelled() {
    let mut connection = connection();
    let mut ids = RequestIds { next: 7 };
    let (stage, action) = run(
        &mut connection,
        &mut ids,
        RunStage::Awaiting,
        RunEvent::ShutdownRequested(9),
    );
    assert!(matches!(action, RunAction::Close(9)));
    let (stage, action) = run(&mut connection, &mut ids, stage, RunEvent::Cancelled);
    assert!(matches!(action, RunAction::CloseTransport));
    let (_, action) = run(&mut connection, &mut ids, stage, RunEvent::Closed);
    assert!(matches!(action, RunAction::Finish(Ok(()))));
}

#[test]
fn sent_request_outcomes() {
    assert_eq!(send_request(true, Some(5)), Ok(5));
    assert_eq!(send_request::<u8>(true, None), Err(SendError::ResponseDropped));
    assert_eq!(send_request(false, Some(5)), Err(SendError::ConnectionClosed));
    assert_eq!(
        SendError::ConnectionClosed.message(),
        "connection to h3 client driver closed"
    );
    assert_eq!(SendError::ResponseDropped.message(), "channel closed");
}

#[test]
fn ids_are_drawn_once_even_for_requests_that_fail() {
    let mut ids = RequestIds::new();
    let mut first = connection();
    let mut second = connection();
    let (stage, action) = run(
        &mut first,
        &mut ids,
        RunStage::Awaiting,
        request_event(Some(0), "first"),
    );
    assert!(matches!(action, RunAction::Submit(new) if new.request_id == 0));
    let (_, action) = run(
        &mut second,
        &mut ids,
        RunStage::Awaiting,
        request_event(Some(0), "second"),
    );
    assert!(matches!(action, RunAction::Submit(new) if new.request_id == 1));
    run(&mut first, &mut ids, stage, RunEvent::SubmitFailed);
    assert_eq!(ids.next, 2);
    assert_eq!(ids.draw(), 2);
    assert_eq!(ids.draw(), 3);
}

#[test]
fn submitted_requests_are_all_pending() {
    let mut ids = RequestIds::new();
    let mut connection = connection();
    let mut stage = RunStage::Awaiting;
    for client in ["a", "b", "c"] {
        stage = run(&mut connection, &mut ids, stage, request_event(Some(0), client)).0;
        stage = run(&mut connection, &mut ids, stage, RunEvent::Submitted).0;
    }
    assert_eq!(connection.pending_requests.len(), 3);
    assert_eq!(connection.pending_requests.get(&0), Some(&"a"));
    assert_eq!(connection.pending_requests.get(&1), Some(&"b"));
    assert_eq!(connection.pending_requests.get(&2), Some(&"c"));
}
