//! The loop that drives an HTTP/3 connection.
//!
//! The loop is a state machine: each step takes what happened and gives back
//! what to do next.

use vstd::prelude::*;

use super::connection::{
    makes_response, new_client_request, Answer, AnswerView, ClientH3Event,
    ClientH3EventView, Connection, ConnectionView, EventError, EventErrorView, NewClientRequest,
    NewClientRequestView, NotSubmitted, RequestIds,
};
use crate::message::{request_head, RequestHead, ResponseHead};

verus! {

/// Where the loop's events come from while it awaits.
#[derive(Debug, Clone, Copy, PartialEq, Eq, Structural)]
pub enum Source {
    /// The driver tells something, or is gone.
    Driver,
    /// A client sends a request.
    Request,
    /// The client asks for a shutdown.
    Shutdown,
    /// The connection was cancelled.
    Cancellation,
}

/// Which sources have an event ready.
#[derive(Debug, Clone, Copy, PartialEq, Eq, Structural)]
pub struct ReadySources {
    pub driver: bool,
    pub request: bool,
    pub shutdown: bool,
    pub cancellation: bool,
}

impl ReadySources {
    /// Whether a source has an event ready.
    pub open spec fn has(self, source: Source) -> bool {
        match source {
            Source::Driver => self.driver,
            Source::Request => self.request,
            Source::Shutdown => self.shutdown,
            Source::Cancellation => self.cancellation,
        }
    }

    /// The source that goes first.
    pub open spec fn first_source(self) -> Option<Source> {
        if self.driver {
            Some(Source::Driver)
        } else if self.request {
            Some(Source::Request)
        } else if self.shutdown {
            Some(Source::Shutdown)
        } else if self.cancellation {
            Some(Source::Cancellation)
        } else {
            None
        }
    }

    /// The source that goes first: what the driver tells comes before a request,
    /// that before a shutdown, and that before a cancellation.
    pub fn first(&self) -> (source: Option<Source>)
        ensures
            source == self.first_source(),
    {
        if self.driver {
            Some(Source::Driver)
        } else if self.request {
            Some(Source::Request)
        } else if self.shutdown {
            Some(Source::Shutdown)
        } else if self.cancellation {
            Some(Source::Cancellation)
        } else {
            None
        }
    }
}

/// What the loop is at.
pub enum RunStage<R> {
    /// Whatever comes next is awaited.
    Awaiting,
    /// A request is being handed to the driver.
    Submitting { request_id: u64, response: R, has_body: bool },
    /// The transport is being shut down.
    Closing,
    Over,
}

/// A connection and what its loop is at, over plain maps.
pub struct RunView<R, F> {
    pub connection: ConnectionView<R, F>,
    pub stage: RunStage<R>,
}

/// What can happen to the loop. `E` is an error of the transport, `B` a way to
/// shut it down.
pub enum RunEvent<R, E, F, B> {
    /// The driver tells something.
    Driver(ClientH3Event<E, F>),
    /// The driver is gone, and the connection with it.
    DriverClosed,
    /// A client's request came in.
    Request { request: http::Request<()>, body_size: Option<u64>, response: R },
    Submitted,
    SubmitFailed,
    /// The client asks for a shutdown.
    ShutdownRequested(B),
    /// The connection was cancelled.
    Cancelled,
    /// The transport is shut down.
    Closed,
}

/// What can happen to the loop, over plain sequences.
pub enum RunEventView<R, E, F, B> {
    Driver(ClientH3EventView<E, F>),
    DriverClosed,
    Request { head: RequestHead, body_size: Option<u64>, response: R },
    Submitted,
    SubmitFailed,
    ShutdownRequested(B),
    Cancelled,
    Closed,
}

impl<R, E, F, B> View for RunEvent<R, E, F, B> {
    type V = RunEventView<R, E, F, B>;

    open spec fn view(&self) -> RunEventView<R, E, F, B> {
        match *self {
            RunEvent::Driver(event) => RunEventView::Driver(event@),
            RunEvent::DriverClosed => RunEventView::DriverClosed,
            RunEvent::Request { request, body_size, response } => {
                RunEventView::Request { head: request_head(request), body_size, response }
            },
            RunEvent::Submitted => RunEventView::Submitted,
            RunEvent::SubmitFailed => RunEventView::SubmitFailed,
            RunEvent::ShutdownRequested(behaviour) => RunEventView::ShutdownRequested(behaviour),
            RunEvent::Cancelled => RunEventView::Cancelled,
            RunEvent::Closed => RunEventView::Closed,
        }
    }
}

/// Why the loop ended.
pub enum RunError<E> {
    Event(EventError<E>),
    NotSubmitted(NotSubmitted),
}

/// Why the loop ended, without the details of an invalid response.
pub enum RunErrorView<E> {
    Event(EventErrorView<E>),
    NotSubmitted,
}

/// What to do next for the loop. Unless it says otherwise, that is followed by
/// waiting for whatever comes next.
pub enum RunAction<R, E, B> {
    Await,
    /// Give a client its response.
    Answer(Answer<R>),
    /// Hand a request to the driver, and tell whether it took it.
    Submit(NewClientRequest),
    /// Send the body of the request that was just handed over.
    SendBody,
    /// Tell the driver to close the connection, and cancel it.
    Close(B),
    /// Shut the transport down, and tell when it is done.
    CloseTransport,
    /// The loop is over.
    Finish(Result<(), RunError<E>>),
}

/// What to do next for the loop, over plain sequences.
pub enum RunActionView<R, E, B> {
    Await,
    Answer(AnswerView<R>),
    Submit(NewClientRequestView),
    SendBody,
    Close(B),
    CloseTransport,
    Finish(Result<(), RunErrorView<E>>),
}

impl<R, E, B> View for RunAction<R, E, B> {
    type V = RunActionView<R, E, B>;

    open spec fn view(&self) -> RunActionView<R, E, B> {
        match *self {
            RunAction::Await => RunActionView::Await,
            RunAction::Answer(answer) => RunActionView::Answer(answer@),
            RunAction::Submit(new) => RunActionView::Submit(new@),
            RunAction::SendBody => RunActionView::SendBody,
            RunAction::Close(behaviour) => RunActionView::Close(behaviour),
            RunAction::CloseTransport => RunActionView::CloseTransport,
            RunAction::Finish(Ok(())) => RunActionView::Finish(Ok(())),
            RunAction::Finish(Err(RunError::Event(error))) => RunActionView::Finish(
                Err(RunErrorView::Event(error@)),
            ),
            RunAction::Finish(Err(RunError::NotSubmitted(_))) => RunActionView::Finish(
                Err(RunErrorView::NotSubmitted),
            ),
        }
    }
}

/// The response that an action gives a client.
pub open spec fn action_head<R, E, B>(action: RunActionView<R, E, B>) -> Option<ResponseHead> {
    match action {
        RunActionView::Answer(answer) => Some(answer.head),
        _ => None,
    }
}

impl<R, E, F, B> RunEventView<R, E, F, B> {
    /// Where an event comes from that the loop awaits; the others answer its own
    /// actions.
    pub open spec fn source(self) -> Option<Source> {
        match self {
            RunEventView::Driver(_) | RunEventView::DriverClosed => Some(Source::Driver),
            RunEventView::Request { .. } => Some(Source::Request),
            RunEventView::ShutdownRequested(_) => Some(Source::Shutdown),
            RunEventView::Cancelled => Some(Source::Cancellation),
            _ => None,
        }
    }
}

impl<R> RunStage<R> {
    /// Whether `event` can happen to the loop.
    pub open spec fn can_meet<E, F, B>(self, event: RunEventView<R, E, F, B>) -> bool {
        match self {
            RunStage::Awaiting => {
                ||| event is Driver
                ||| event is DriverClosed
                ||| event is Request
                ||| event is ShutdownRequested
                ||| event is Cancelled
            },
            RunStage::Submitting { .. } => event is Submitted || event is SubmitFailed,
            RunStage::Closing => event is Closed,
            RunStage::Over => false,
        }
    }
}

impl<R, F> RunView<R, F> {
    /// The loop, over with this result.
    pub open spec fn over<E, B>(
        connection: ConnectionView<R, F>,
        result: Result<(), RunErrorView<E>>,
    ) -> (RunView<R, F>, RunActionView<R, E, B>) {
        (RunView { connection, stage: RunStage::Over }, RunActionView::Finish(result))
    }

    /// How the loop goes on from an event; `ids` is what a new request draws its
    /// id from, `head` the response that the event's headers make.
    pub open spec fn next<E, B>(
        self,
        ids: RequestIds,
        event: RunEventView<R, E, F, B>,
        head: Option<ResponseHead>,
    ) -> (RunView<R, F>, RunActionView<R, E, B>) {
        match event {
            RunEventView::Driver(event) => {
                let (connection, outcome) = self.connection.handle(event, head);
                match outcome {
                    Ok(Some(answer)) => (
                        RunView { connection, stage: RunStage::Awaiting },
                        RunActionView::Answer(answer),
                    ),
                    Ok(None) => (
                        RunView { connection, stage: RunStage::Awaiting },
                        RunActionView::Await,
                    ),
                    Err(error) => Self::over(connection, Err(RunErrorView::Event(error))),
                }
            },
            RunEventView::DriverClosed => Self::over(self.connection, Ok(())),
            RunEventView::Request { head, body_size, response } => {
                let new = new_client_request(ids.next, head, body_size);
                (
                    RunView {
                        connection: self.connection,
                        stage: RunStage::Submitting {
                            request_id: new.request_id,
                            response,
                            has_body: new.has_body,
                        },
                    },
                    RunActionView::Submit(new),
                )
            },
            RunEventView::Submitted => match self.stage {
                RunStage::Submitting { request_id, response, has_body } => (
                    RunView {
                        connection: self.connection.submitted(request_id, response),
                        stage: RunStage::Awaiting,
                    },
                    if has_body {
                        RunActionView::SendBody
                    } else {
                        RunActionView::Await
                    },
                ),
                _ => (self, RunActionView::Await),
            },
            RunEventView::SubmitFailed => Self::over(
                self.connection,
                Err(RunErrorView::NotSubmitted),
            ),
            RunEventView::ShutdownRequested(behaviour) => (self, RunActionView::Close(behaviour)),
            RunEventView::Cancelled => (
                RunView { connection: self.connection, stage: RunStage::Closing },
                RunActionView::CloseTransport,
            ),
            RunEventView::Closed => Self::over(self.connection, Ok(())),
        }
    }
}

impl<R> RunStage<R> {
    /// Whether `event` can happen to the loop.
    pub fn accepts<E, F, B>(&self, event: &RunEvent<R, E, F, B>) -> (accepted: bool)
        ensures
            accepted == self.can_meet(event@),
    {
        match self {
            RunStage::Awaiting => match event {
                RunEvent::Driver(_)
                | RunEvent::DriverClosed
                | RunEvent::Request { .. }
                | RunEvent::ShutdownRequested(_)
                | RunEvent::Cancelled => true,
                _ => false,
            },
            RunStage::Submitting { .. } => match event {
                RunEvent::Submitted | RunEvent::SubmitFailed => true,
                _ => false,
            },
            RunStage::Closing => match event {
                RunEvent::Closed => true,
                _ => false,
            },
            RunStage::Over => false,
        }
    }
}

impl<R, F> Connection<R, F> {
    /// Goes on with the connection's loop from an event. A new request draws its
    /// id from `ids`, whatever becomes of it then.
    pub fn run<E, B>(
        &mut self,
        ids: &mut RequestIds,
        stage: RunStage<R>,
        event: RunEvent<R, E, F, B>,
    ) -> (next: (RunStage<R>, RunAction<R, E, B>))
        requires
            stage.can_meet(event@),
            event@ is Request ==> old(ids).next < u64::MAX,
        ensures
            final(ids).next == if event@ is Request {
                old(ids).next + 1
            } else {
                old(ids).next as int
            },
            event is DriverClosed || event is Closed ==> next.0 is Over && next.1
                == RunAction::<R, E, B>::Finish(Ok(())),
            event is Cancelled ==> next.0 is Closing && next.1 is CloseTransport,
            event matches RunEvent::ShutdownRequested(behaviour) ==> next.0 == stage && next.1
                == RunAction::<R, E, B>::Close(behaviour),
            event is SubmitFailed ==> next.0 is Over && next.1 is Finish && next.1->Finish_0 is Err,
            event is Request ==> next.0 is Submitting && next.1 is Submit,
            event is Submitted ==> next.0 is Awaiting,
            next.0 is Over <==> next.1 is Finish,
            (RunView { connection: final(self)@, stage: next.0 }, next.1@) == (RunView {
                connection: old(self)@,
                stage,
            }).next(*old(ids), event@, action_head(next.1@)),
            event@ matches RunEventView::Driver(
                ClientH3EventView::IncomingHeaders { stream_id, headers, .. },
            ) ==> (old(self)@.awaits(stream_id) ==> makes_response(
                headers,
                action_head(next.1@),
            )),
    {
        match event {
            RunEvent::Driver(event) => match self.handle_event(event) {
                Ok(Some(answer)) => (RunStage::Awaiting, RunAction::Answer(answer)),
                Ok(None) => (RunStage::Awaiting, RunAction::Await),
                Err(error) => (RunStage::Over, RunAction::Finish(Err(RunError::Event(error)))),
            },
            RunEvent::DriverClosed | RunEvent::Closed => (
                RunStage::Over,
                RunAction::Finish(Ok(())),
            ),
            RunEvent::Request { request, body_size, response } => {
                let new = Self::handle_client_req(ids, &request, body_size);
                (
                    RunStage::Submitting {
                        request_id: new.request_id,
                        response,
                        has_body: new.has_body,
                    },
                    RunAction::Submit(new),
                )
            },
            RunEvent::Submitted | RunEvent::SubmitFailed => {
                let taken = matches!(event, RunEvent::Submitted);
                match stage {
                    RunStage::Submitting { request_id, response, has_body } => {
                        match self.client_req_submitted(request_id, response, taken) {
                            Ok(()) => (
                                RunStage::Awaiting,
                                if has_body {
                                    RunAction::SendBody
                                } else {
                                    RunAction::Await
                                },
                            ),
                            Err(error) => (
                                RunStage::Over,
                                RunAction::Finish(Err(RunError::NotSubmitted(error))),
                            ),
                        }
                    },
                    stage => (stage, RunAction::Await),
                }
            },
            RunEvent::ShutdownRequested(behaviour) => (stage, RunAction::Close(behaviour)),
            RunEvent::Cancelled => (RunStage::Closing, RunAction::CloseTransport),
        }
    }
}

/// Why a request got no response.
#[derive(Debug, Clone, Copy, PartialEq, Eq, Structural)]
pub enum SendError {
    /// The connection no longer takes requests.
    ConnectionClosed,
    /// The connection dropped the request.
    ResponseDropped,
}

impl SendError {
    /// The error in words.
    pub open spec fn text(self) -> Seq<char> {
        match self {
            SendError::ConnectionClosed => "connection to h3 client driver closed"@,
            SendError::ResponseDropped => "channel closed"@,
        }
    }

    /// The error in words.
    pub fn message(self) -> (message: String)
        ensures
            message@ == self.text(),
            self is ConnectionClosed ==> message@ == "connection to h3 client driver closed"@,
            self is ResponseDropped ==> message@ == "channel closed"@,
    {
        match self {
            SendError::ConnectionClosed => "connection to h3 client driver closed".to_owned(),
            SendError::ResponseDropped => "channel closed".to_owned(),
        }
    }
}

/// What comes of a request: whether the connection took it, and what it
/// answered, if it did.
pub fn send_request<T>(taken: bool, answer: Option<T>) -> (response: Result<T, SendError>)
    ensures
        response == match answer {
            _ if !taken => Err(SendError::ConnectionClosed),
            None => Err(SendError::ResponseDropped),
            Some(response) => Ok(response),
        },
{
    if !taken {
        return Err(SendError::ConnectionClosed);
    }
    match answer {
        None => Err(SendError::ResponseDropped),
        Some(response) => Ok(response),
    }
}

/// The views of the loop's events and actions say what they hold.
pub proof fn run_views_are_faithful<R, E, F, B>(
    event: RunEvent<R, E, F, B>,
    action: RunAction<R, E, B>,
)
    ensures
        event matches RunEvent::Driver(told) ==> event@ == RunEventView::<R, E, F, B>::Driver(
            told@,
        ),
        event matches RunEvent::Request { request, body_size, response } ==> event@
            == (RunEventView::<R, E, F, B>::Request {
            head: request_head(request),
            body_size,
            response,
        }),
        event matches RunEvent::ShutdownRequested(behaviour) ==> event@ == RunEventView::<
            R,
            E,
            F,
            B,
        >::ShutdownRequested(behaviour),
        event is DriverClosed <==> event@ is DriverClosed,
        event is Submitted <==> event@ is Submitted,
        event is SubmitFailed <==> event@ is SubmitFailed,
        event is Cancelled <==> event@ is Cancelled,
        event is Closed <==> event@ is Closed,
        action matches RunAction::Answer(answer) ==> action@ == RunActionView::<R, E, B>::Answer(
            answer@,
        ),
        action matches RunAction::Submit(new) ==> action@ == RunActionView::<R, E, B>::Submit(new@),
        action matches RunAction::Close(behaviour) ==> action@ == RunActionView::<R, E, B>::Close(
            behaviour,
        ),
        action is Await <==> action@ is Await,
        action is SendBody <==> action@ is SendBody,
        action is CloseTransport <==> action@ is CloseTransport,
        action matches RunAction::Finish(Ok(())) ==> action@ == RunActionView::<R, E, B>::Finish(
            Ok(()),
        ),
        action matches RunAction::Finish(Err(RunError::Event(error))) ==> action@
            == RunActionView::<R, E, B>::Finish(Err(RunErrorView::Event(error@))),
        action matches RunAction::Finish(Err(RunError::NotSubmitted(_))) ==> action@
            == RunActionView::<R, E, B>::Finish(Err(RunErrorView::NotSubmitted)),
{
}

} // verus!
