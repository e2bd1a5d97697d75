//! The client's side of an HTTP/3 connection: which request each response
//! belongs to, and what the connection does with what comes in.

use std::collections::HashMap;

use vstd::prelude::*;
use vstd::utf8::encode_utf8_decode_utf8;

use super::body::{BodyView, H3Body};
use super::headers::{
    are_response_headers, h3_headers, h3_response, h3_response_to_hyper_response,
    hyper_request_parts_to_h3_headers,
};
use crate::message::{
    bytes_equal, header_views, names, request_head, request_parts, response_head, Header, RequestHead,
    ResponseHead, FULL, ROOMY,
};
use crate::socks::{decimal, number_text};

verus! {

broadcast use vstd::std_specs::hash::group_hash_axioms;

/// The state of a connection. `R` is what a request's response is sent to, `F`
/// a datagram flow.
pub struct Connection<R, F> {
    /// The datagram flows, by their ids.
    pub flow_map: HashMap<u64, F>,
    /// The peer's settings, once they came in.
    pub peer_settings: Option<Vec<(u64, u64)>>,
    /// The requests without a response, by their ids.
    pub pending_requests: HashMap<u64, R>,
    /// The request that each stream was opened for.
    pub stream_id_to_request_id: HashMap<u64, u64>,
}

/// The state of a connection over plain maps.
pub struct ConnectionView<R, F> {
    pub flows: Map<u64, F>,
    pub settings: Option<Seq<(u64, u64)>>,
    pub pending: Map<u64, R>,
    pub streams: Map<u64, u64>,
}

impl<R, F> View for Connection<R, F> {
    type V = ConnectionView<R, F>;

    open spec fn view(&self) -> ConnectionView<R, F> {
        ConnectionView {
            flows: self.flow_map@,
            settings: match self.peer_settings {
                Some(settings) => Some(settings@),
                None => None,
            },
            pending: self.pending_requests@,
            streams: self.stream_id_to_request_id@,
        }
    }
}

/// What the connection's driver tells. `E` is an error of the transport.
#[derive(Debug)]
pub enum ClientH3Event<E, F> {
    /// A stream was opened for a request.
    NewOutboundRequest { stream_id: u64, request_id: u64 },
    ConnectionError(E),
    /// The peer takes no new requests.
    GoAway,
    ConnectionShutdown,
    NewFlow { flow_id: u64, flow: F },
    IncomingSettings { settings: Vec<(u64, u64)> },
    /// A response's headers came in on a stream, and whether they end it.
    IncomingHeaders { stream_id: u64, headers: Vec<Header>, read_fin: bool },
    ResetStream { stream_id: u64 },
    BodyBytesReceived,
    StreamClosed,
}

/// What the connection's driver tells, over plain sequences.
pub enum ClientH3EventView<E, F> {
    NewOutboundRequest { stream_id: u64, request_id: u64 },
    ConnectionError(E),
    GoAway,
    ConnectionShutdown,
    NewFlow { flow_id: u64, flow: F },
    IncomingSettings { settings: Seq<(u64, u64)> },
    IncomingHeaders { stream_id: u64, headers: Seq<(Seq<u8>, Seq<u8>)>, read_fin: bool },
    ResetStream { stream_id: u64 },
    BodyBytesReceived,
    StreamClosed,
}

impl<E, F> View for ClientH3Event<E, F> {
    type V = ClientH3EventView<E, F>;

    open spec fn view(&self) -> ClientH3EventView<E, F> {
        match *self {
            ClientH3Event::NewOutboundRequest { stream_id, request_id } => {
                ClientH3EventView::NewOutboundRequest { stream_id, request_id }
            },
            ClientH3Event::ConnectionError(error) => ClientH3EventView::ConnectionError(error),
            ClientH3Event::GoAway => ClientH3EventView::GoAway,
            ClientH3Event::ConnectionShutdown => ClientH3EventView::ConnectionShutdown,
            ClientH3Event::NewFlow { flow_id, flow } => {
                ClientH3EventView::NewFlow { flow_id, flow }
            },
            ClientH3Event::IncomingSettings { settings } => {
                ClientH3EventView::IncomingSettings { settings: settings@ }
            },
            ClientH3Event::IncomingHeaders { stream_id, headers, read_fin } => {
                ClientH3EventView::IncomingHeaders {
                    stream_id,
                    headers: header_views(headers@),
                    read_fin,
                }
            },
            ClientH3Event::ResetStream { stream_id } => {
                ClientH3EventView::ResetStream { stream_id }
            },
            ClientH3Event::BodyBytesReceived => ClientH3EventView::BodyBytesReceived,
            ClientH3Event::StreamClosed => ClientH3EventView::StreamClosed,
        }
    }
}

/// Why a connection cannot go on.
#[derive(Debug)]
pub enum EventError<E> {
    Transport(E),
    GoAway,
    Shutdown,
    DuplicateSettings,
    /// Headers came in on a stream that was opened for no request.
    UnknownStream(u64),
    /// The headers are none that a response may hold.
    InvalidResponse(http::Error),
}

/// Why a connection cannot go on, without the details of an invalid response.
pub enum EventErrorView<E> {
    Transport(E),
    GoAway,
    Shutdown,
    DuplicateSettings,
    UnknownStream(u64),
    InvalidResponse,
}

impl<E> View for EventError<E> {
    type V = EventErrorView<E>;

    open spec fn view(&self) -> EventErrorView<E> {
        match *self {
            EventError::Transport(error) => EventErrorView::Transport(error),
            EventError::GoAway => EventErrorView::GoAway,
            EventError::Shutdown => EventErrorView::Shutdown,
            EventError::DuplicateSettings => EventErrorView::DuplicateSettings,
            EventError::UnknownStream(stream_id) => EventErrorView::UnknownStream(stream_id),
            EventError::InvalidResponse(_) => EventErrorView::InvalidResponse,
        }
    }
}

impl<E> EventError<E> {
    /// The error in words, unless it comes from elsewhere and has its own.
    pub open spec fn text(&self) -> Option<Seq<char>> {
        match *self {
            EventError::GoAway => Some("goaway"@),
            EventError::DuplicateSettings => Some(
                "settings already set - received duplicate settings from peer"@,
            ),
            EventError::UnknownStream(stream_id) => Some(
                "got headers for unknown stream_id="@ + decimal(stream_id as nat),
            ),
            _ => None,
        }
    }

    /// The error in words, unless it comes from elsewhere and has its own.
    pub fn message(&self) -> (message: Option<String>)
        ensures
            crate::message::text_view(message) == self.text(),
            self is GoAway ==> message is Some && message->0@ == "goaway"@,
            self is DuplicateSettings ==> message is Some && message->0@
                == "settings already set - received duplicate settings from peer"@,
            *self matches EventError::UnknownStream(stream_id) ==> message is Some && message->0@
                == "got headers for unknown stream_id="@ + decimal(stream_id as nat),
            self is Transport || self is Shutdown || self is InvalidResponse ==> message is None,
    {
        match self {
            EventError::GoAway => Some("goaway".to_owned()),
            EventError::DuplicateSettings => Some(
                "settings already set - received duplicate settings from peer".to_owned(),
            ),
            EventError::UnknownStream(stream_id) => {
                let mut message = "got headers for unknown stream_id=".to_owned();
                let number = number_text(*stream_id);
                message.append(number.as_str());
                Some(message)
            },
            _ => None,
        }
    }
}

/// A response for a request: whom it goes to, its head and its body.
pub struct Answer<R> {
    pub response: R,
    pub head: http::Response<()>,
    pub body: H3Body,
}

/// A response for a request, over plain sequences.
pub struct AnswerView<R> {
    pub response: R,
    pub head: ResponseHead,
    pub body: BodyView,
}

impl<R> View for Answer<R> {
    type V = AnswerView<R>;

    open spec fn view(&self) -> AnswerView<R> {
        AnswerView { response: self.response, head: response_head(self.head), body: self.body@ }
    }
}

/// What an event leads to: an answer, nothing to do, or the end.
pub open spec fn outcome_view<R, E>(outcome: Result<Option<Answer<R>>, EventError<E>>) -> Result<
    Option<AnswerView<R>>,
    EventErrorView<E>,
> {
    match outcome {
        Ok(Some(answer)) => Ok(Some(answer@)),
        Ok(None) => Ok(None),
        Err(error) => Err(error@),
    }
}

impl<R, F> ConnectionView<R, F> {
    /// A connection on which nothing has happened.
    pub open spec fn fresh() -> ConnectionView<R, F> {
        ConnectionView {
            flows: Map::empty(),
            settings: None,
            pending: Map::empty(),
            streams: Map::empty(),
        }
    }

    /// Whether a stream was opened for a request that has no response yet.
    pub open spec fn awaits(self, stream_id: u64) -> bool {
        self.streams.contains_key(stream_id) && self.pending.contains_key(self.streams[stream_id])
    }

    /// What headers on a stream lead to. The first headers on a stream are the
    /// response to the request that it was opened for; `head` is the response
    /// that they make, or `None` where they make none. A request that is pending
    /// no more gets none.
    pub open spec fn respond<E>(self, stream_id: u64, read_fin: bool, head: Option<ResponseHead>)
        -> (ConnectionView<R, F>, Result<Option<AnswerView<R>>, EventErrorView<E>>) {
        if !self.streams.contains_key(stream_id) {
            (self, Err(EventErrorView::UnknownStream(stream_id)))
        } else {
            let request_id = self.streams[stream_id];
            let next = ConnectionView {
                streams: self.streams.remove(stream_id),
                pending: self.pending.remove(request_id),
                ..self
            };
            if !self.pending.contains_key(request_id) {
                (next, Ok(None))
            } else {
                match head {
                    None => (next, Err(EventErrorView::InvalidResponse)),
                    Some(head) => (
                        next,
                        Ok(
                            Some(
                                AnswerView {
                                    response: self.pending[request_id],
                                    head,
                                    body: BodyView {
                                        stream_id,
                                        wrote_fin: false,
                                        read_fin,
                                        has_recv: true,
                                        pending: None,
                                    },
                                },
                            ),
                        ),
                    ),
                }
            }
        }
    }

    /// What an event leads to; `head` is the response that its headers make.
    pub open spec fn handle<E>(self, event: ClientH3EventView<E, F>, head: Option<ResponseHead>)
        -> (ConnectionView<R, F>, Result<Option<AnswerView<R>>, EventErrorView<E>>) {
        match event {
            ClientH3EventView::NewOutboundRequest { stream_id, request_id } => (
                ConnectionView { streams: self.streams.insert(stream_id, request_id), ..self },
                Ok(None),
            ),
            ClientH3EventView::ConnectionError(error) => (
                self,
                Err(EventErrorView::Transport(error)),
            ),
            ClientH3EventView::GoAway => (self, Err(EventErrorView::GoAway)),
            ClientH3EventView::ConnectionShutdown => (self, Err(EventErrorView::Shutdown)),
            ClientH3EventView::NewFlow { flow_id, flow } => (
                ConnectionView { flows: self.flows.insert(flow_id, flow), ..self },
                Ok(None),
            ),
            ClientH3EventView::IncomingSettings { settings } => if self.settings is Some {
                (self, Err(EventErrorView::DuplicateSettings))
            } else {
                (ConnectionView { settings: Some(settings), ..self }, Ok(None))
            },
            ClientH3EventView::IncomingHeaders { stream_id, headers, read_fin } => self.respond(
                stream_id,
                read_fin,
                head,
            ),
            ClientH3EventView::ResetStream { stream_id } => (
                ConnectionView {
                    pending: if self.streams.contains_key(stream_id) {
                        self.pending.remove(self.streams[stream_id])
                    } else {
                        self.pending
                    },
                    ..self
                },
                Ok(None),
            ),
            ClientH3EventView::BodyBytesReceived | ClientH3EventView::StreamClosed => (
                self,
                Ok(None),
            ),
        }
    }

    /// The connection with one more request that awaits a response.
    pub open spec fn submitted(self, request_id: u64, response: R) -> ConnectionView<R, F> {
        ConnectionView { pending: self.pending.insert(request_id, response), ..self }
    }
}

/// Whether `head` can be the response that these headers make: it is the one
/// that they give, and there is one where each of them is one that a response
/// may hold, up to `ROOMY` different names at least and `FULL` at most.
pub open spec fn makes_response(
    headers: Seq<(Seq<u8>, Seq<u8>)>,
    head: Option<ResponseHead>,
) -> bool {
    &&& head matches Some(head) ==> are_response_headers(headers) && head == h3_response(headers)
    &&& head is Some ==> names(h3_response(headers).fields).len() <= FULL
    &&& names(h3_response(headers).fields).len() <= ROOMY && are_response_headers(headers)
        ==> head is Some
}

/// The response in an outcome.
pub open spec fn answered_head<R, E>(
    outcome: Result<Option<AnswerView<R>>, EventErrorView<E>>,
) -> Option<ResponseHead> {
    match outcome {
        Ok(Some(answer)) => Some(answer.head),
        _ => None,
    }
}

impl<R, F> Connection<R, F> {
    /// A connection on which nothing has happened.
    pub fn new_with_connection() -> (connection: Connection<R, F>)
        ensures
            connection@ == ConnectionView::<R, F>::fresh(),
    {
        Connection {
            flow_map: HashMap::new(),
            peer_settings: None,
            pending_requests: HashMap::new(),
            stream_id_to_request_id: HashMap::new(),
        }
    }

    /// Takes in headers that came in on a stream.
    fn handle_headers<E>(&mut self, stream_id: u64, headers: Vec<Header>, read_fin: bool)
        -> (outcome: Result<Option<Answer<R>>, EventError<E>>)
        ensures
            (final(self)@, outcome_view(outcome)) == old(self)@.respond::<E>(
                stream_id,
                read_fin,
                answered_head(outcome_view(outcome)),
            ),
            old(self)@.awaits(stream_id) ==> makes_response(
                header_views(headers@),
                answered_head(outcome_view(outcome)),
            ),
            outcome matches Ok(Some(answer)) ==> {
                &&& old(self)@.awaits(stream_id)
                &&& answer.response
                    == old(self).pending_requests@[old(self).stream_id_to_request_id@[stream_id]]
                &&& answer.body.stream_id == stream_id
                &&& answer.body.read_fin == read_fin
                &&& answer.body.has_recv
                &&& !answer.body.wrote_fin
                &&& answer.body.pending_recv is None
            },
    {
        let request_id = match self.stream_id_to_request_id.remove(&stream_id) {
            Some(request_id) => request_id,
            None => {
                assert(self@.streams =~= old(self)@.streams);
                return Err(EventError::UnknownStream(stream_id));
            },
        };
        let response = match self.pending_requests.remove(&request_id) {
            Some(response) => response,
            None => {
                return Ok(None);
            },
        };
        match h3_response_to_hyper_response(headers) {
            Ok(head) => {
                let body = H3Body::new(stream_id, true, read_fin);
                Ok(Some(Answer { response, head, body }))
            },
            Err(error) => Err(EventError::InvalidResponse(error)),
        }
    }

    /// Takes in what the driver tells.
    pub fn handle_event<E>(&mut self, event: ClientH3Event<E, F>) -> (outcome: Result<
        Option<Answer<R>>,
        EventError<E>,
    >)
        ensures
            (final(self)@, outcome_view(outcome)) == old(self)@.handle(
                event@,
                answered_head(outcome_view(outcome)),
            ),
            event matches ClientH3Event::ConnectionError(error) ==> outcome
                == Err::<Option<Answer<R>>, EventError<E>>(EventError::Transport(error)),
            event is GoAway ==> outcome == Err::<Option<Answer<R>>, EventError<E>>(
                EventError::GoAway,
            ),
            event is ConnectionShutdown ==> outcome == Err::<Option<Answer<R>>, EventError<E>>(
                EventError::Shutdown,
            ),
            outcome matches Ok(Some(answer)) ==> {
                &&& event matches ClientH3Event::IncomingHeaders { stream_id, read_fin, .. }
                &&& old(self)@.awaits(stream_id)
                &&& answer.response
                    == old(self).pending_requests@[old(self).stream_id_to_request_id@[stream_id]]
                &&& answer.body.stream_id == stream_id
                &&& answer.body.read_fin == read_fin
                &&& answer.body.has_recv
                &&& !answer.body.wrote_fin
                &&& answer.body.pending_recv is None
            },
            event@ matches ClientH3EventView::IncomingHeaders { stream_id, headers, .. } ==> (
            old(self)@.awaits(stream_id) ==> makes_response(
                headers,
                answered_head(outcome_view(outcome)),
            )),
    {
        match event {
            ClientH3Event::NewOutboundRequest { stream_id, request_id } => {
                self.stream_id_to_request_id.insert(stream_id, request_id);
                Ok(None)
            },
            ClientH3Event::ConnectionError(error) => Err(EventError::Transport(error)),
            ClientH3Event::GoAway => Err(EventError::GoAway),
            ClientH3Event::ConnectionShutdown => Err(EventError::Shutdown),
            ClientH3Event::NewFlow { flow_id, flow } => {
                self.flow_map.insert(flow_id, flow);
                Ok(None)
            },
            ClientH3Event::IncomingSettings { settings } => {
                if self.peer_settings.is_some() {
                    return Err(EventError::DuplicateSettings);
                }
                self.peer_settings = Some(settings);
                Ok(None)
            },
            ClientH3Event::IncomingHeaders { stream_id, headers, read_fin } => {
                self.handle_headers(stream_id, headers, read_fin)
            },
            ClientH3Event::ResetStream { stream_id } => {
                if let Some(request_id) = self.stream_id_to_request_id.get(&stream_id) {
                    self.pending_requests.remove(request_id);
                }
                Ok(None)
            },
            ClientH3Event::BodyBytesReceived | ClientH3Event::StreamClosed => Ok(None),
        }
    }
}

/// A request as the driver takes it.
#[derive(Debug)]
pub struct NewClientRequest {
    pub request_id: u64,
    pub headers: Vec<Header>,
    /// Whether the driver is to hand out a writer for the request's body.
    pub body_writer: bool,
    /// Whether the request has a body to send.
    pub has_body: bool,
}

/// A request as the driver takes it, over plain sequences.
pub struct NewClientRequestView {
    pub request_id: u64,
    pub headers: Seq<(Seq<u8>, Seq<u8>)>,
    pub body_writer: bool,
    pub has_body: bool,
}

impl View for NewClientRequest {
    type V = NewClientRequestView;

    open spec fn view(&self) -> NewClientRequestView {
        NewClientRequestView {
            request_id: self.request_id,
            headers: header_views(self.headers@),
            body_writer: self.body_writer,
            has_body: self.has_body,
        }
    }
}

/// A request as the driver takes it. Any body but one that is known to be empty
/// is sent, and a writer is needed for that and for a CONNECT request.
pub open spec fn new_client_request(
    request_id: u64,
    head: RequestHead,
    body_size: Option<u64>,
) -> NewClientRequestView {
    NewClientRequestView {
        request_id,
        headers: h3_headers(head.method, head.protocol, head.uri, head.fields),
        body_writer: head.method == "CONNECT"@ || body_size != Some(0u64),
        has_body: body_size != Some(0u64),
    }
}

/// The source of request ids, from which all connections draw.
#[derive(Debug, Clone, Copy, PartialEq, Eq, Structural)]
pub struct RequestIds {
    /// The id that the next request gets.
    pub next: u64,
}

impl RequestIds {
    /// The source once an id was drawn.
    pub open spec fn drawn(self) -> RequestIds {
        RequestIds { next: (self.next + 1) as u64 }
    }

    /// The source once this many ids were drawn.
    pub open spec fn after(self, draws: nat) -> RequestIds
        decreases draws,
    {
        if draws == 0 {
            self
        } else {
            self.after((draws - 1) as nat).drawn()
        }
    }

    /// A source from which no id was drawn.
    pub fn new() -> (ids: RequestIds)
        ensures
            ids.next == 0,
    {
        RequestIds { next: 0 }
    }

    /// Draws an id.
    pub fn draw(&mut self) -> (id: u64)
        requires
            old(self).next < u64::MAX,
        ensures
            id == old(self).next,
            final(self).next == old(self).next + 1,
            *final(self) == old(self).drawn(),
    {
        let id = self.next;
        self.next = id + 1;
        id
    }
}

/// A source gives out its numbers one by one.
proof fn draws_add_up(ids: RequestIds, draws: nat)
    requires
        ids.next + draws <= u64::MAX,
    ensures
        ids.after(draws).next == ids.next + draws,
    decreases draws,
{
    if draws > 0 {
        draws_add_up(ids, (draws - 1) as nat);
    }
}

/// Ids grow and never repeat: of two draws, by one connection or by two, the
/// later one gives the larger id.
pub proof fn ids_never_repeat(ids: RequestIds, earlier: nat, later: nat)
    requires
        earlier < later,
        ids.next + later <= u64::MAX,
    ensures
        ids.after(earlier).next < ids.after(later).next,
{
    draws_add_up(ids, earlier);
    draws_add_up(ids, later);
}

/// A request that the driver did not take.
#[derive(Debug, Clone, Copy, PartialEq, Eq, Structural)]
pub struct NotSubmitted;

impl NotSubmitted {
    /// The error in words, without its cause.
    pub open spec fn text(self) -> Seq<char> {
        "unable to send new client request to IO worker"@
    }

    /// The error in words, without its cause.
    pub fn message(self) -> (message: String)
        ensures
            message@ == self.text(),
            message@ == "unable to send new client request to IO worker"@,
    {
        "unable to send new client request to IO worker".to_owned()
    }
}

impl<R, F> Connection<R, F> {
    /// Makes a client's request ready for the driver, under an id of its own.
    /// `body_size` is the exact size of its body, where it is known.
    pub fn handle_client_req(
        ids: &mut RequestIds,
        request: &http::Request<()>,
        body_size: Option<u64>,
    ) -> (new: NewClientRequest)
        requires
            old(ids).next < u64::MAX,
        ensures
            new@ == new_client_request(old(ids).next, request_head(*request), body_size),
            new.request_id == old(ids).next,
            new.has_body == (body_size != Some(0u64)),
            new.body_writer == (request_head(*request).method == "CONNECT"@ || body_size != Some(
                0u64,
            )),
            header_views(new.headers@) == h3_headers(
                request_head(*request).method,
                request_head(*request).protocol,
                request_head(*request).uri,
                request_head(*request).fields,
            ),
            final(ids).next == old(ids).next + 1,
    {
        let request_id = ids.draw();
        let parts = request_parts(request);
        let is_connect = bytes_equal(parts.method.as_str().as_bytes(), "CONNECT".as_bytes());
        proof {
            encode_utf8_decode_utf8(parts.method@);
            encode_utf8_decode_utf8("CONNECT"@);
        }
        let has_body = match body_size {
            Some(size) => size != 0,
            None => true,
        };
        let headers = hyper_request_parts_to_h3_headers(parts);
        NewClientRequest { request_id, headers, body_writer: is_connect || has_body, has_body }
    }

    /// Goes on with a request once the driver took it or did not. One that it
    /// took awaits its response.
    pub fn client_req_submitted(&mut self, request_id: u64, response: R, taken: bool) -> (submitted:
        Result<(), NotSubmitted>)
        ensures
            submitted == if taken {
                Ok::<(), NotSubmitted>(())
            } else {
                Err(NotSubmitted)
            },
            final(self)@ == if taken {
                old(self)@.submitted(request_id, response)
            } else {
                old(self)@
            },
    {
        if !taken {
            return Err(NotSubmitted);
        }
        self.pending_requests.insert(request_id, response);
        Ok(())
    }
}

/// The view of a connection says what the connection holds.
pub proof fn connection_views_are_faithful<R, F>(connection: Connection<R, F>)
    ensures
        connection@.flows == connection.flow_map@,
        connection@.pending == connection.pending_requests@,
        connection@.streams == connection.stream_id_to_request_id@,
        connection.peer_settings matches Some(settings) ==> connection@.settings == Some(settings@),
        connection.peer_settings is None ==> connection@.settings is None,
{
}

/// The view of an event says what the event holds.
pub proof fn event_views_are_faithful<E, F>(event: ClientH3Event<E, F>)
    ensures
        event matches ClientH3Event::NewOutboundRequest { stream_id, request_id } ==> event@
            == (ClientH3EventView::<E, F>::NewOutboundRequest { stream_id, request_id }),
        event matches ClientH3Event::ConnectionError(error) ==> event@ == ClientH3EventView::<
            E,
            F,
        >::ConnectionError(error),
        event matches ClientH3Event::NewFlow { flow_id, flow } ==> event@ == (ClientH3EventView::<
            E,
            F,
        >::NewFlow { flow_id, flow }),
        event matches ClientH3Event::IncomingSettings { settings } ==> event@
            == (ClientH3EventView::<E, F>::IncomingSettings { settings: settings@ }),
        event matches ClientH3Event::IncomingHeaders { stream_id, headers, read_fin } ==> event@
            == (ClientH3EventView::<E, F>::IncomingHeaders {
            stream_id,
            headers: header_views(headers@),
            read_fin,
        }),
        event matches ClientH3Event::ResetStream { stream_id } ==> event@ == (ClientH3EventView::<
            E,
            F,
        >::ResetStream { stream_id }),
        event is GoAway <==> event@ is GoAway,
        event is ConnectionShutdown <==> event@ is ConnectionShutdown,
        event is BodyBytesReceived <==> event@ is BodyBytesReceived,
        event is StreamClosed <==> event@ is StreamClosed,
{
}

/// The views of an outcome say what it holds.
pub proof fn outcome_views_are_faithful<R, E>(
    outcome: Result<Option<Answer<R>>, EventError<E>>,
    new: NewClientRequest,
)
    ensures
        outcome matches Ok(Some(answer)) ==> {
            &&& outcome_view(outcome) matches Ok(Some(view))
            &&& view.response == answer.response
            &&& view.head == response_head(answer.head)
            &&& view.body == answer.body@
        },
        outcome matches Ok(None) ==> outcome_view(outcome) == Ok::<
            Option<AnswerView<R>>,
            EventErrorView<E>,
        >(None),
        outcome matches Err(error) ==> {
            &&& outcome_view(outcome) matches Err(view)
            &&& error matches EventError::Transport(cause) ==> view == EventErrorView::<
                E,
            >::Transport(cause)
            &&& error is GoAway <==> view is GoAway
            &&& error is Shutdown <==> view is Shutdown
            &&& error is DuplicateSettings <==> view is DuplicateSettings
            &&& error matches EventError::UnknownStream(stream_id) ==> view == EventErrorView::<
                E,
            >::UnknownStream(stream_id)
            &&& error is InvalidResponse <==> view is InvalidResponse
        },
        new@.request_id == new.request_id,
        new@.headers == header_views(new.headers@),
        new@.body_writer == new.body_writer,
        new@.has_body == new.has_body,
{
}

} // verus!
