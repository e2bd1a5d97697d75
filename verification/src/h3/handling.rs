//! What each event does to an HTTP/3 connection and its loop.

use vstd::prelude::*;

use super::connection::{
    AnswerView, ClientH3EventView, ConnectionView, EventErrorView, RequestIds,
};
use super::headers::h3_headers;
use super::run::{RunActionView, RunErrorView, RunEventView, RunStage, RunView};
use crate::message::{RequestHead, ResponseHead};

verus! {

/// A stream that was opened for a request is known as that request's, and
/// nothing else changes.
pub proof fn opened_streams_are_known<R, E, F>(
    connection: ConnectionView<R, F>,
    stream_id: u64,
    request_id: u64,
    head: Option<ResponseHead>,
)
    ensures
        ({
            let (next, outcome) = connection.handle(
                ClientH3EventView::<E, F>::NewOutboundRequest { stream_id, request_id },
                head,
            );
            &&& outcome == Ok::<Option<AnswerView<R>>, EventErrorView<E>>(None)
            &&& next.streams.contains_key(stream_id) && next.streams[stream_id] == request_id
            &&& forall|other: u64|
                other != stream_id ==> (#[trigger] next.streams.contains_key(other)
                    <==> connection.streams.contains_key(other)) && next.streams[other]
                    == connection.streams[other]
            &&& next.pending == connection.pending
            &&& next.flows == connection.flows
            &&& next.settings == connection.settings
        }),
{
}

/// A flow is kept under its id, and nothing else changes.
pub proof fn new_flows_are_kept<R, E, F>(
    connection: ConnectionView<R, F>,
    flow_id: u64,
    flow: F,
    head: Option<ResponseHead>,
)
    ensures
        ({
            let (next, outcome) = connection.handle(
                ClientH3EventView::<E, F>::NewFlow { flow_id, flow },
                head,
            );
            &&& outcome == Ok::<Option<AnswerView<R>>, EventErrorView<E>>(None)
            &&& next.flows.contains_key(flow_id) && next.flows[flow_id] == flow
            &&& forall|other: u64|
                other != flow_id ==> (#[trigger] next.flows.contains_key(other)
                    <==> connection.flows.contains_key(other)) && next.flows[other]
                    == connection.flows[other]
            &&& next.streams == connection.streams
            &&& next.pending == connection.pending
            &&& next.settings == connection.settings
        }),
{
}

/// The first settings are kept as they came, and nothing else changes; later
/// ones are refused and change nothing.
pub proof fn first_settings_are_kept<R, E, F>(
    connection: ConnectionView<R, F>,
    settings: Seq<(u64, u64)>,
    head: Option<ResponseHead>,
)
    ensures
        ({
            let (next, outcome) = connection.handle(
                ClientH3EventView::<E, F>::IncomingSettings { settings },
                head,
            );
            &&& next.flows == connection.flows
            &&& next.streams == connection.streams
            &&& next.pending == connection.pending
            &&& connection.settings is None ==> next.settings == Some(settings) && outcome == Ok::<
                Option<AnswerView<R>>,
                EventErrorView<E>,
            >(None)
            &&& connection.settings is Some ==> next.settings == connection.settings && outcome
                == Err::<Option<AnswerView<R>>, EventErrorView<E>>(
                EventErrorView::DuplicateSettings,
            )
        }),
{
}

/// A failure of the transport, a GOAWAY and a shutdown are passed on as they are;
/// body data and closed streams need nothing. None of them changes anything.
pub proof fn other_events_change_nothing<R, E, F>(
    connection: ConnectionView<R, F>,
    error: E,
    head: Option<ResponseHead>,
)
    ensures
        connection.handle(ClientH3EventView::<E, F>::ConnectionError(error), head) == (
            connection,
            Err::<Option<AnswerView<R>>, EventErrorView<E>>(EventErrorView::Transport(error)),
        ),
        connection.handle(ClientH3EventView::<E, F>::GoAway, head) == (
            connection,
            Err::<Option<AnswerView<R>>, EventErrorView<E>>(EventErrorView::GoAway),
        ),
        connection.handle(ClientH3EventView::<E, F>::ConnectionShutdown, head) == (
            connection,
            Err::<Option<AnswerView<R>>, EventErrorView<E>>(EventErrorView::Shutdown),
        ),
        connection.handle(ClientH3EventView::<E, F>::BodyBytesReceived, head) == (
            connection,
            Ok::<Option<AnswerView<R>>, EventErrorView<E>>(None),
        ),
        connection.handle(ClientH3EventView::<E, F>::StreamClosed, head) == (
            connection,
            Ok::<Option<AnswerView<R>>, EventErrorView<E>>(None),
        ),
{
}

/// Headers on a stream that was opened for no request are an error, and change
/// nothing.
pub proof fn unknown_streams_are_errors<R, E, F>(
    connection: ConnectionView<R, F>,
    stream_id: u64,
    headers: Seq<(Seq<u8>, Seq<u8>)>,
    read_fin: bool,
    head: Option<ResponseHead>,
)
    requires
        !connection.streams.contains_key(stream_id),
    ensures
        connection.handle(
            ClientH3EventView::<E, F>::IncomingHeaders { stream_id, headers, read_fin },
            head,
        ) == (
            connection,
            Err::<Option<AnswerView<R>>, EventErrorView<E>>(
                EventErrorView::UnknownStream(stream_id),
            ),
        ),
{
}

/// Headers on a known stream use up the stream and its request, and nothing else.
/// A request that is pending no more gets no response and is no error; one that
/// is pending gets the response that the headers make, with the stream's body, or
/// the headers are an error where they make none.
pub proof fn headers_answer_their_request<R, E, F>(
    connection: ConnectionView<R, F>,
    stream_id: u64,
    headers: Seq<(Seq<u8>, Seq<u8>)>,
    read_fin: bool,
    head: Option<ResponseHead>,
)
    requires
        connection.streams.contains_key(stream_id),
    ensures
        ({
            let request_id = connection.streams[stream_id];
            let (next, outcome) = connection.handle(
                ClientH3EventView::<E, F>::IncomingHeaders { stream_id, headers, read_fin },
                head,
            );
            &&& !next.streams.contains_key(stream_id)
            &&& forall|other: u64|
                other != stream_id ==> (#[trigger] next.streams.contains_key(other)
                    <==> connection.streams.contains_key(other)) && next.streams[other]
                    == connection.streams[other]
            &&& !next.pending.contains_key(request_id)
            &&& forall|other: u64|
                other != request_id ==> (#[trigger] next.pending.contains_key(other)
                    <==> connection.pending.contains_key(other)) && next.pending[other]
                    == connection.pending[other]
            &&& next.flows == connection.flows
            &&& next.settings == connection.settings
            &&& !connection.pending.contains_key(request_id) ==> outcome == Ok::<
                Option<AnswerView<R>>,
                EventErrorView<E>,
            >(None)
            &&& connection.pending.contains_key(request_id) && head is None ==> outcome == Err::<
                Option<AnswerView<R>>,
                EventErrorView<E>,
            >(EventErrorView::InvalidResponse)
            &&& connection.pending.contains_key(request_id) && head is Some ==> {
                &&& outcome matches Ok(Some(answer))
                &&& answer.response == connection.pending[request_id]
                &&& Some(answer.head) == head
                &&& answer.body.stream_id == stream_id
                &&& answer.body.read_fin == read_fin
                &&& answer.body.has_recv
                &&& !answer.body.wrote_fin
                &&& answer.body.pending is None
            }
        }),
{
}

/// A reset takes the stream's request off those that await a response, and
/// changes nothing else; a stream that was opened for none changes nothing.
pub proof fn resets_drop_their_request<R, E, F>(
    connection: ConnectionView<R, F>,
    stream_id: u64,
    head: Option<ResponseHead>,
)
    ensures
        ({
            let (next, outcome) = connection.handle(
                ClientH3EventView::<E, F>::ResetStream { stream_id },
                head,
            );
            let known = connection.streams.contains_key(stream_id);
            let request_id = connection.streams[stream_id];
            &&& outcome == Ok::<Option<AnswerView<R>>, EventErrorView<E>>(None)
            &&& known ==> !next.pending.contains_key(request_id)
            &&& forall|other: u64|
                !(known && other == request_id) ==> (#[trigger] next.pending.contains_key(other)
                    <==> connection.pending.contains_key(other)) && next.pending[other]
                    == connection.pending[other]
            &&& next.streams == connection.streams
            &&& next.flows == connection.flows
            &&& next.settings == connection.settings
        }),
{
}

/// A request goes to the driver under an id of its own, as the header list that
/// says what it holds. A writer is asked for where a body is to be sent, which is
/// any but one that is known to be empty, and for every CONNECT.
pub proof fn requests_are_handed_over<R, E, F, B>(
    run: RunView<R, F>,
    ids: RequestIds,
    head: RequestHead,
    body_size: Option<u64>,
    response: R,
)
    ensures
        ({
            let event = RunEventView::<R, E, F, B>::Request { head, body_size, response };
            let (next, action) = run.next(ids, event, None);
            &&& action matches RunActionView::Submit(new)
            &&& new.request_id == ids.next
            &&& new.headers == h3_headers(head.method, head.protocol, head.uri, head.fields)
            &&& new.has_body <==> body_size != Some(0u64)
            &&& new.body_writer <==> head.method == "CONNECT"@ || body_size != Some(0u64)
            &&& next.connection == run.connection
        }),
{
}

/// A request that the driver took awaits its response, beside all others, and its
/// body is sent exactly where it has one. One that the driver did not take ends
/// the loop, and awaits nothing.
pub proof fn taken_requests_await_a_response<R, E, F, B>(
    run: RunView<R, F>,
    ids: RequestIds,
    later: RequestIds,
    head: RequestHead,
    body_size: Option<u64>,
    response: R,
)
    ensures
        ({
            let event = RunEventView::<R, E, F, B>::Request { head, body_size, response };
            let (submitting, _) = run.next(ids, event, None);
            let (taken, action) = submitting.next(
                later,
                RunEventView::<R, E, F, B>::Submitted,
                None,
            );
            let (refused, failure) = submitting.next(
                later,
                RunEventView::<R, E, F, B>::SubmitFailed,
                None,
            );
            &&& submitting.stage.can_meet(RunEventView::<R, E, F, B>::Submitted)
            &&& submitting.stage.can_meet(RunEventView::<R, E, F, B>::SubmitFailed)
            &&& taken.stage is Awaiting
            &&& taken.connection.pending.contains_key(ids.next)
            &&& taken.connection.pending[ids.next] == response
            &&& forall|other: u64|
                other != ids.next ==> (#[trigger] taken.connection.pending.contains_key(other)
                    <==> run.connection.pending.contains_key(other))
                    && taken.connection.pending[other] == run.connection.pending[other]
            &&& taken.connection.streams == run.connection.streams
            &&& taken.connection.flows == run.connection.flows
            &&& taken.connection.settings == run.connection.settings
            &&& body_size != Some(0u64) ==> action is SendBody
            &&& body_size == Some(0u64) ==> action is Await
            &&& refused.connection == run.connection
            &&& refused.stage is Over
            &&& failure == RunActionView::<R, E, B>::Finish(Err(RunErrorView::NotSubmitted))
        }),
{
}

/// A request for a shutdown is passed on, and the loop goes on until it is
/// cancelled; then the transport is shut down, and the loop ends well.
pub proof fn shutdowns_are_carried_out<R, E, F, B>(
    run: RunView<R, F>,
    ids: RequestIds,
    behaviour: B,
)
    requires
        run.stage is Awaiting,
    ensures
        ({
            let asked = run.next(
                ids,
                RunEventView::<R, E, F, B>::ShutdownRequested(behaviour),
                None,
            );
            let cancelled = run.next(ids, RunEventView::<R, E, F, B>::Cancelled, None);
            let closed = cancelled.0.next(ids, RunEventView::<R, E, F, B>::Closed, None);
            let gone = run.next(ids, RunEventView::<R, E, F, B>::DriverClosed, None);
            &&& asked == (run, RunActionView::<R, E, B>::Close(behaviour))
            &&& cancelled.1 is CloseTransport
            &&& cancelled.0.connection == run.connection
            &&& cancelled.0.stage.can_meet(RunEventView::<R, E, F, B>::Closed)
            &&& closed.1 == RunActionView::<R, E, B>::Finish(Ok(()))
            &&& gone.1 == RunActionView::<R, E, B>::Finish(Ok(()))
        }),
{
}

/// What the driver tells is handled, and the loop goes on with what that leads
/// to: a response is given, nothing is to be done, or the loop ends with the
/// error.
pub proof fn driver_events_are_handled<R, E, F, B>(
    run: RunView<R, F>,
    ids: RequestIds,
    event: ClientH3EventView<E, F>,
    head: Option<ResponseHead>,
)
    ensures
        ({
            let (connection, outcome) = run.connection.handle(event, head);
            let (next, action) = run.next(ids, RunEventView::<R, E, F, B>::Driver(event), head);
            &&& next.connection == connection
            &&& outcome matches Ok(Some(answer)) ==> next.stage is Awaiting && action
                == RunActionView::<R, E, B>::Answer(answer)
            &&& outcome matches Ok(None) ==> next.stage is Awaiting && action is Await
            &&& outcome matches Err(error) ==> next.stage is Over && action == RunActionView::<
                R,
                E,
                B,
            >::Finish(Err(RunErrorView::Event(error)))
        }),
{
}

/// While the loop awaits it takes what the driver tells, that it is gone, a
/// request, a shutdown and a cancellation; while it hands a request over or shuts
/// down it takes what came of that; and once it is over it takes nothing.
pub proof fn loops_await_their_outcome<R, E, F, B>(
    stage: RunStage<R>,
    event: RunEventView<R, E, F, B>,
)
    ensures
        stage.can_meet(event) <==> {
            ||| stage is Awaiting && (event is Driver || event is DriverClosed || event is Request
                || event is ShutdownRequested || event is Cancelled)
            ||| stage is Submitting && (event is Submitted || event is SubmitFailed)
            ||| stage is Closing && event is Closed
        },
{
}

} // verus!
