//! One SOCKS5 session, from authentication to the end of its tunnel.
//!
//! A session is a state machine: each step takes what happened and gives back
//! what to do next.

use vstd::prelude::*;
use vstd::utf8::encode_utf8;

use crate::config::Config;
use crate::h3::headers::values_named;
use crate::message::{authority_form, is_field_value, parsed_uri, request_head, RequestHead};
use crate::request::{
    authorization_name, authorization_value, config_values_ok, connect_fields, connect_head, connect_request,
    connect_values_ok, geohash_name, host_name, names_are_fields, requests_say_what_is_configured,
};
use crate::socks::{is_plain, target, target_text, Address, AddressView, Command, Reply};

verus! {

/// Where a session stands.
#[derive(Debug)]
pub enum Session {
    /// The client is being authenticated.
    Authenticating,
    /// The client's command is awaited.
    AwaitingCommand,
    /// A command that is not supported is being refused.
    Refusing,
    /// The tunnel to this address is being opened.
    Connecting(Address),
    /// The client is being told that there is no tunnel.
    ReportingFailure,
    /// The client is being told that the tunnel is open.
    ReportingSuccess,
    /// Bytes are being copied both ways.
    Relaying,
    /// The tunnel is being shut down.
    ShuttingDown,
    /// The session is over.
    Finished,
}

/// What can happen to a session.
#[derive(Debug)]
pub enum SessionEvent {
    Authenticated,
    AuthenticationFailed,
    Command(Command, Address),
    CommandFailed,
    /// The proxy accepted the CONNECT request.
    UpstreamConnected,
    /// The CONNECT request failed or took too long.
    UpstreamFailed,
    Replied,
    ReplyFailed,
    Relayed,
    RelayFailed,
    ShutDown,
    ShutdownFailed,
}

/// What to do next for a session.
pub enum SessionAction {
    Authenticate,
    AwaitCommand,
    /// Send this request to the proxy, and give up after the timeout, in
    /// seconds; without one, wait for as long as it takes.
    Connect { request: http::Request<()>, timeout: Option<u64> },
    /// Answer the client, with this address.
    Reply(Reply, Address),
    Relay,
    ShutDown,
    Finish(Result<(), SessionError>),
}

/// Why a session ended early.
#[derive(Debug, Clone, Copy, PartialEq, Eq, Structural)]
pub enum SessionError {
    Authentication,
    Command,
    /// The address is a domain that is not UTF-8. The client gets no reply.
    InvalidDomain,
    /// The reply to a refused or failed command could not be sent.
    FailedToReply,
    /// The reply that reports the open tunnel could not be sent.
    SuccessReply,
    Relay,
    Shutdown,
}

/// Where a session stands, over plain sequences.
pub enum SessionView {
    Authenticating,
    AwaitingCommand,
    Refusing,
    Connecting(AddressView),
    ReportingFailure,
    ReportingSuccess,
    Relaying,
    ShuttingDown,
    Finished,
}

/// What can happen to a session, over plain sequences.
pub enum SessionEventView {
    Authenticated,
    AuthenticationFailed,
    Command(Command, AddressView),
    CommandFailed,
    UpstreamConnected,
    UpstreamFailed,
    Replied,
    ReplyFailed,
    Relayed,
    RelayFailed,
    ShutDown,
    ShutdownFailed,
}

/// What to do next for a session, over plain sequences.
pub enum SessionActionView {
    Authenticate,
    AwaitCommand,
    Connect { head: RequestHead, timeout: Option<u64> },
    Reply(Reply, AddressView),
    Relay,
    ShutDown,
    Finish(Result<(), SessionError>),
}

impl View for Session {
    type V = SessionView;

    open spec fn view(&self) -> SessionView {
        match self {
            Session::Authenticating => SessionView::Authenticating,
            Session::AwaitingCommand => SessionView::AwaitingCommand,
            Session::Refusing => SessionView::Refusing,
            Session::Connecting(address) => SessionView::Connecting(address@),
            Session::ReportingFailure => SessionView::ReportingFailure,
            Session::ReportingSuccess => SessionView::ReportingSuccess,
            Session::Relaying => SessionView::Relaying,
            Session::ShuttingDown => SessionView::ShuttingDown,
            Session::Finished => SessionView::Finished,
        }
    }
}

impl View for SessionEvent {
    type V = SessionEventView;

    open spec fn view(&self) -> SessionEventView {
        match self {
            SessionEvent::Authenticated => SessionEventView::Authenticated,
            SessionEvent::AuthenticationFailed => SessionEventView::AuthenticationFailed,
            SessionEvent::Command(command, address) => SessionEventView::Command(
                *command,
                address@,
            ),
            SessionEvent::CommandFailed => SessionEventView::CommandFailed,
            SessionEvent::UpstreamConnected => SessionEventView::UpstreamConnected,
            SessionEvent::UpstreamFailed => SessionEventView::UpstreamFailed,
            SessionEvent::Replied => SessionEventView::Replied,
            SessionEvent::ReplyFailed => SessionEventView::ReplyFailed,
            SessionEvent::Relayed => SessionEventView::Relayed,
            SessionEvent::RelayFailed => SessionEventView::RelayFailed,
            SessionEvent::ShutDown => SessionEventView::ShutDown,
            SessionEvent::ShutdownFailed => SessionEventView::ShutdownFailed,
        }
    }
}

impl View for SessionAction {
    type V = SessionActionView;

    open spec fn view(&self) -> SessionActionView {
        match self {
            SessionAction::Authenticate => SessionActionView::Authenticate,
            SessionAction::AwaitCommand => SessionActionView::AwaitCommand,
            SessionAction::Connect { request, timeout } => SessionActionView::Connect {
                head: request_head(*request),
                timeout: *timeout,
            },
            SessionAction::Reply(reply, address) => SessionActionView::Reply(*reply, address@),
            SessionAction::Relay => SessionActionView::Relay,
            SessionAction::ShutDown => SessionActionView::ShutDown,
            SessionAction::Finish(result) => SessionActionView::Finish(*result),
        }
    }
}

/// Whether `event` can happen where the session stands.
pub open spec fn session_accepts(session: SessionView, event: SessionEventView) -> bool {
    match session {
        SessionView::Authenticating => event is Authenticated || event is AuthenticationFailed,
        SessionView::AwaitingCommand => event is Command || event is CommandFailed,
        SessionView::Connecting(_) => event is UpstreamConnected || event is UpstreamFailed,
        SessionView::Refusing | SessionView::ReportingFailure | SessionView::ReportingSuccess =>
            event is Replied || event is ReplyFailed,
        SessionView::Relaying => event is Relayed || event is RelayFailed,
        SessionView::ShuttingDown => event is ShutDown || event is ShutdownFailed,
        SessionView::Finished => false,
    }
}

/// The end of a session, and what it ended with.
pub open spec fn finish(result: Result<(), SessionError>) -> (SessionView, SessionActionView) {
    (SessionView::Finished, SessionActionView::Finish(result))
}

/// Sending the CONNECT request for a target in authority form.
pub open spec fn connect_action(config: Config, target: Seq<char>) -> SessionActionView {
    SessionActionView::Connect {
        head: connect_head(config, target, authority_form(target)),
        timeout: config.request_timeout,
    }
}

/// How a session goes on from a command.
pub open spec fn after_command(
    config: Config,
    command: Command,
    address: AddressView,
) -> (SessionView, SessionActionView) {
    if command != Command::Connect {
        (SessionView::Refusing, SessionActionView::Reply(Reply::CommandNotSupported, address))
    } else {
        match target_text(address) {
            None => finish(Err(SessionError::InvalidDomain)),
            Some(target) => match parsed_uri(target) {
                Some(uri) if connect_values_ok(config, target) => (
                    SessionView::Connecting(address),
                    SessionActionView::Connect {
                        head: connect_head(config, target, uri),
                        timeout: config.request_timeout,
                    },
                ),
                _ => (
                    SessionView::ReportingFailure,
                    SessionActionView::Reply(Reply::GeneralFailure, address),
                ),
            },
        }
    }
}

/// How a session goes on from an event that can happen.
pub open spec fn session_next(
    config: Config,
    session: SessionView,
    event: SessionEventView,
) -> (SessionView, SessionActionView) {
    match (session, event) {
        (_, SessionEventView::Authenticated) => (
            SessionView::AwaitingCommand,
            SessionActionView::AwaitCommand,
        ),
        (_, SessionEventView::AuthenticationFailed) => finish(Err(SessionError::Authentication)),
        (_, SessionEventView::Command(command, address)) => after_command(
            config,
            command,
            address,
        ),
        (_, SessionEventView::CommandFailed) => finish(Err(SessionError::Command)),
        (SessionView::Connecting(address), SessionEventView::UpstreamConnected) => (
            SessionView::ReportingSuccess,
            SessionActionView::Reply(Reply::Succeeded, address),
        ),
        (SessionView::Connecting(address), _) => (
            SessionView::ReportingFailure,
            SessionActionView::Reply(Reply::GeneralFailure, address),
        ),
        (SessionView::ReportingSuccess, SessionEventView::Replied) => (
            SessionView::Relaying,
            SessionActionView::Relay,
        ),
        (SessionView::ReportingSuccess, _) => finish(Err(SessionError::SuccessReply)),
        (_, SessionEventView::Replied) => finish(Ok(())),
        (_, SessionEventView::ReplyFailed) => finish(Err(SessionError::FailedToReply)),
        (_, SessionEventView::Relayed) => (SessionView::ShuttingDown, SessionActionView::ShutDown),
        (_, SessionEventView::RelayFailed) => finish(Err(SessionError::Relay)),
        (_, SessionEventView::ShutDown) => finish(Ok(())),
        _ => finish(Err(SessionError::Shutdown)),
    }
}

impl Session {
    /// A new session, and the first thing to do for it.
    pub fn start() -> (started: (Session, SessionAction))
        ensures
            started.0@ == SessionView::Authenticating,
            started.1@ == SessionActionView::Authenticate,
    {
        (Session::Authenticating, SessionAction::Authenticate)
    }

    /// Whether `event` can happen where the session stands.
    pub fn accepts(&self, event: &SessionEvent) -> (accepted: bool)
        ensures
            accepted == session_accepts(self@, event@),
    {
        match self {
            Session::Authenticating => matches!(
                event,
                SessionEvent::Authenticated | SessionEvent::AuthenticationFailed
            ),
            Session::AwaitingCommand => matches!(
                event,
                SessionEvent::Command(_, _) | SessionEvent::CommandFailed
            ),
            Session::Connecting(_) => matches!(
                event,
                SessionEvent::UpstreamConnected | SessionEvent::UpstreamFailed
            ),
            Session::Refusing | Session::ReportingFailure | Session::ReportingSuccess => matches!(
                event,
                SessionEvent::Replied | SessionEvent::ReplyFailed
            ),
            Session::Relaying => matches!(event, SessionEvent::Relayed | SessionEvent::RelayFailed),
            Session::ShuttingDown => matches!(
                event,
                SessionEvent::ShutDown | SessionEvent::ShutdownFailed
            ),
            Session::Finished => false,
        }
    }

    /// What to do once the client has sent its command.
    fn command(config: &Config, command: Command, address: Address) -> (next: (
        Session,
        SessionAction,
    ))
        ensures
            (next.0@, next.1@) == after_command(*config, command, address@),
            command != Command::Connect ==> next.1 == SessionAction::Reply(
                Reply::CommandNotSupported,
                address,
            ),
            next.1 is Connect ==> next.0 == Session::Connecting(address) && next.1->timeout
                == config.request_timeout,
            next.0 is Finished <==> next.1 is Finish,
            command == Command::Connect && is_plain(address@) && config_values_ok(*config)
                ==> target_text(address@) is Some && next.1@ == connect_action(
                *config,
                target_text(address@)->0,
            ),
    {
        if !matches!(command, Command::Connect) {
            return (Session::Refusing, SessionAction::Reply(Reply::CommandNotSupported, address));
        }
        match target(&address) {
            Err(_) => (
                Session::Finished,
                SessionAction::Finish(Err(SessionError::InvalidDomain)),
            ),
            Ok(text) => match connect_request(config, text.as_str()) {
                Ok(request) => (
                    Session::Connecting(address),
                    SessionAction::Connect { request, timeout: config.request_timeout },
                ),
                Err(_) => (
                    Session::ReportingFailure,
                    SessionAction::Reply(Reply::GeneralFailure, address),
                ),
            },
        }
    }

    /// Goes on from an event. A CONNECT to an IP address, or to a domain of host
    /// characters, always becomes a request in authority form, where the
    /// configured values can stand in one.
    pub fn step(self, config: &Config, event: SessionEvent) -> (next: (Session, SessionAction))
        requires
            session_accepts(self@, event@),
        ensures
            (next.0@, next.1@) == session_next(*config, self@, event@),
            event is Authenticated ==> next.0 is AwaitingCommand && next.1 is AwaitCommand,
            self is ReportingSuccess && event is Replied ==> next.0 is Relaying && next.1 is Relay,
            event is Relayed ==> next.0 is ShuttingDown && next.1 is ShutDown,
            event is ShutDown ==> next.0 is Finished && next.1 == SessionAction::Finish(Ok(())),
            next.0 is Finished <==> next.1 is Finish,
            self matches Session::Connecting(address) ==> next.1 == SessionAction::Reply(
                if event is UpstreamConnected {
                    Reply::Succeeded
                } else {
                    Reply::GeneralFailure
                },
                address,
            ),
            event matches SessionEvent::Command(command, address) ==> {
                &&& command != Command::Connect ==> next.1 == SessionAction::Reply(
                    Reply::CommandNotSupported,
                    address,
                )
                &&& next.1 is Connect ==> next.0 == Session::Connecting(address)
                    && next.1->timeout == config.request_timeout
            },
            event@ matches SessionEventView::Command(command, address) ==> (command
                == Command::Connect && is_plain(address) && config_values_ok(*config)
                ==> target_text(address) is Some && next.1@ == connect_action(
                *config,
                target_text(address)->0,
            )),
    {
        match (self, event) {
            (_, SessionEvent::Authenticated) => (
                Session::AwaitingCommand,
                SessionAction::AwaitCommand,
            ),
            (_, SessionEvent::AuthenticationFailed) => (
                Session::Finished,
                SessionAction::Finish(Err(SessionError::Authentication)),
            ),
            (_, SessionEvent::Command(command, address)) => Self::command(
                config,
                command,
                address,
            ),
            (_, SessionEvent::CommandFailed) => (
                Session::Finished,
                SessionAction::Finish(Err(SessionError::Command)),
            ),
            (Session::Connecting(address), SessionEvent::UpstreamConnected) => (
                Session::ReportingSuccess,
                SessionAction::Reply(Reply::Succeeded, address),
            ),
            (Session::Connecting(address), _) => (
                Session::ReportingFailure,
                SessionAction::Reply(Reply::GeneralFailure, address),
            ),
            (Session::ReportingSuccess, SessionEvent::Replied) => (
                Session::Relaying,
                SessionAction::Relay,
            ),
            (Session::ReportingSuccess, _) => (
                Session::Finished,
                SessionAction::Finish(Err(SessionError::SuccessReply)),
            ),
            (_, SessionEvent::Replied) => (Session::Finished, SessionAction::Finish(Ok(()))),
            (_, SessionEvent::ReplyFailed) => (
                Session::Finished,
                SessionAction::Finish(Err(SessionError::FailedToReply)),
            ),
            (_, SessionEvent::Relayed) => (Session::ShuttingDown, SessionAction::ShutDown),
            (_, SessionEvent::RelayFailed) => (
                Session::Finished,
                SessionAction::Finish(Err(SessionError::Relay)),
            ),
            (_, SessionEvent::ShutDown) => (Session::Finished, SessionAction::Finish(Ok(()))),
            _ => (Session::Finished, SessionAction::Finish(Err(SessionError::Shutdown))),
        }
    }
}

/// A whole session: where it stands after these events, and all that was done,
/// the first action before any event; `None` where an event cannot happen.
pub open spec fn session_run(config: Config, events: Seq<SessionEventView>) -> Option<
    (SessionView, Seq<SessionActionView>),
>
    decreases events.len(),
{
    if events.len() == 0 {
        Some((SessionView::Authenticating, seq![SessionActionView::Authenticate]))
    } else {
        match session_run(config, events.drop_last()) {
            Some((session, actions)) if session_accepts(session, events.last()) => {
                let next = session_next(config, session, events.last());
                Some((next.0, actions.push(next.1)))
            },
            _ => None,
        }
    }
}

/// All that was done in a whole session.
pub open spec fn session_actions(config: Config, events: Seq<SessionEventView>) -> Seq<
    SessionActionView,
> {
    match session_run(config, events) {
        Some((_, actions)) => actions,
        None => Seq::empty(),
    }
}

/// Where the steps of a run stand: the command is the second event, a CONNECT
/// request the third action, the reply the third or, behind a CONNECT request,
/// the fourth action.
spec fn run_shape(
    config: Config,
    events: Seq<SessionEventView>,
    session: SessionView,
    actions: Seq<SessionActionView>,
) -> bool {
    &&& actions.len() == events.len() + 1
    &&& actions[0] == SessionActionView::Authenticate
    &&& forall|k: int| 0 <= k < events.len() && #[trigger] events[k] is Command ==> k == 1
    &&& events.len() >= 2 && events[1] is Command ==> actions[2] == after_command(
        config,
        events[1]->Command_0,
        events[1]->Command_1,
    ).1
    &&& forall|k: int|
        0 <= k < actions.len() && #[trigger] actions[k] is Connect ==> k == 2
            && events[1] is Command
    &&& forall|k: int|
        0 <= k < actions.len() && #[trigger] actions[k] is Reply ==> {
            &&& events.len() >= 2 && events[1] is Command
            &&& actions[k]->Reply_1 == events[1]->Command_1
            &&& k == 2 || (k == 3 && actions[2] is Connect && actions[k]->Reply_0 == (
            if events[2] is UpstreamConnected {
                Reply::Succeeded
            } else {
                Reply::GeneralFailure
            }))
        }
    &&& forall|k: int|
        0 <= k < actions.len() && #[trigger] actions[k] is Relay ==> k == 4 && actions[3] is Reply
            && actions[3]->Reply_0 == Reply::Succeeded && events[3] is Replied
    &&& match session {
        SessionView::Authenticating => events.len() == 0,
        SessionView::AwaitingCommand => events.len() == 1,
        SessionView::Connecting(address) => events.len() == 2 && events[1] is Command && address
            == events[1]->Command_1 && actions[2] is Connect,
        SessionView::Refusing => events.len() == 2 && actions[2] is Reply,
        SessionView::ReportingFailure => (events.len() == 2 && actions[2] is Reply) || (
        events.len() == 3 && actions[3] is Reply),
        SessionView::ReportingSuccess => events.len() == 3 && actions[3] is Reply
            && actions[3]->Reply_0 == Reply::Succeeded,
        SessionView::Relaying => events.len() == 4 && actions[3] is Reply,
        SessionView::ShuttingDown => events.len() == 5 && actions[3] is Reply,
        SessionView::Finished => {
            ||| events.len() >= 1 && !(events.last() is Command) && events.len() <= 2
            ||| events.len() == 2 && events[1] is Command && actions[2]
                == SessionActionView::Finish(Err(SessionError::InvalidDomain))
            ||| events.len() >= 2 && actions[2] is Reply
            ||| events.len() >= 3 && actions[3] is Reply
        },
    }
}

proof fn run_has_shape(config: Config, events: Seq<SessionEventView>)
    requires
        session_run(config, events) is Some,
    ensures
        ({
            let (session, actions) = session_run(config, events)->0;
            run_shape(config, events, session, actions)
        }),
    decreases events.len(),
{
    if events.len() > 0 {
        let before = events.drop_last();
        run_has_shape(config, before);
        let (session, actions) = session_run(config, before)->0;
        let (next, done) = session_run(config, events)->0;
        assert(forall|k: int| 0 <= k < before.len() ==> before[k] == events[k]);
        assert(forall|k: int| 0 <= k < actions.len() ==> actions[k] == done[k]);
    }
}

/// A client is answered at most once.
pub proof fn at_most_one_reply(config: Config, events: Seq<SessionEventView>, i: int, j: int)
    requires
        session_run(config, events) matches Some((_, actions)) && 0 <= i < actions.len() && 0 <= j
            < actions.len() && actions[i] is Reply && actions[j] is Reply,
    ensures
        i == j,
{
    run_has_shape(config, events);
}

/// A session sends at most one CONNECT request.
pub proof fn at_most_one_request(config: Config, events: Seq<SessionEventView>, i: int, j: int)
    requires
        session_run(config, events) matches Some((_, actions)) && 0 <= i < actions.len() && 0 <= j
            < actions.len() && actions[i] is Connect && actions[j] is Connect,
    ensures
        i == j,
{
    run_has_shape(config, events);
}

/// The reply tells what became of the client's command: `CommandNotSupported`
/// goes to what is no CONNECT, `Succeeded` follows on the proxy's acceptance and
/// on nothing else, and all else is a `GeneralFailure`. It carries the command's
/// own address.
pub proof fn reply_tells_the_outcome(config: Config, events: Seq<SessionEventView>, k: int)
    requires
        session_run(config, events) matches Some((_, actions)) && 0 <= k < actions.len()
            && actions[k] is Reply,
    ensures
        ({
            let actions = session_actions(config, events);
            &&& k >= 1 && events.len() >= 2
            &&& events[1] matches SessionEventView::Command(command, address)
            &&& actions[k] == SessionActionView::Reply(
                if command != Command::Connect {
                    Reply::CommandNotSupported
                } else if events[k - 1] is UpstreamConnected {
                    Reply::Succeeded
                } else {
                    Reply::GeneralFailure
                },
                address,
            )
        }),
{
    run_has_shape(config, events);
}

/// A command other than CONNECT is answered `CommandNotSupported`, with its own
/// address, and the session neither sends a request nor relays a byte.
pub proof fn other_commands_are_refused(config: Config, events: Seq<SessionEventView>, k: int)
    requires
        session_run(config, events) is Some,
        0 <= k < events.len(),
        events[k] is Command,
        events[k]->Command_0 != Command::Connect,
    ensures
        ({
            let actions = session_actions(config, events);
            &&& actions[k + 1] == SessionActionView::Reply(
                Reply::CommandNotSupported,
                events[k]->Command_1,
            )
            &&& forall|i: int|
                0 <= i < actions.len() ==> !(#[trigger] actions[i] is Connect)
                    && !(actions[i] is Relay)
        }),
{
    run_has_shape(config, events);
}

/// A session that is over has answered its client's command, but for a CONNECT
/// to a domain that is not UTF-8.
pub proof fn commands_are_answered(config: Config, events: Seq<SessionEventView>)
    requires
        session_run(config, events) matches Some((session, _)) && session is Finished,
        events.len() >= 2,
        events[1] is Command,
        events[1]->Command_0 == Command::Connect ==> target_text(events[1]->Command_1) is Some,
    ensures
        exists|k: int|
            0 <= k < session_actions(config, events).len() && #[trigger] session_actions(
                config,
                events,
            )[k] is Reply,
{
    run_has_shape(config, events);
    let actions = session_actions(config, events);
    assert(actions[2] is Reply || actions[3] is Reply);
}

/// Bytes are relayed only once the client has been told `Succeeded`.
pub proof fn relay_follows_success(config: Config, events: Seq<SessionEventView>, k: int)
    requires
        session_run(config, events) matches Some((_, actions)) && 0 <= k < actions.len()
            && actions[k] is Relay,
    ensures
        ({
            let actions = session_actions(config, events);
            &&& k >= 1
            &&& events[k - 1] is Replied
            &&& actions[k - 1] matches SessionActionView::Reply(reply, _)
            &&& reply == Reply::Succeeded
        }),
{
    run_has_shape(config, events);
}

/// Every request that a session sends is a CONNECT to the target that the
/// client named. It carries the configured Geohash, carries the preshared key
/// exactly where one is configured, and is given the configured time, or no
/// limit.
pub proof fn requests_carry_the_configuration(
    config: Config,
    events: Seq<SessionEventView>,
    k: int,
)
    requires
        session_run(config, events) matches Some((_, actions)) && 0 <= k < actions.len()
            && actions[k] is Connect,
    ensures
        ({
            let actions = session_actions(config, events);
            &&& k >= 1
            &&& events[k - 1] matches SessionEventView::Command(command, address)
            &&& command == Command::Connect
            &&& target_text(address) matches Some(target)
            &&& actions[k] matches SessionActionView::Connect { head, timeout }
            &&& timeout == config.request_timeout
            &&& head.method == "CONNECT"@
            &&& parsed_uri(target) == Some(head.uri)
            &&& head.fields.contains((host_name(), encode_utf8(target)))
            &&& head.fields.contains((geohash_name(), encode_utf8(config.geohash@)))
            &&& forall|value: Seq<u8>| #[trigger]
                head.fields.contains((authorization_name(), value)) <==> (
                config.masque_preshared_key matches Some(key) && value == authorization_value(key@))
        }),
{
    run_has_shape(config, events);
    names_are_fields();
    let address = events[1]->Command_1;
    let target = target_text(address)->0;
    let head = session_actions(config, events)[k]->head;
    assert(head.fields == connect_fields(config, target));
    assert(head.fields[0] == (host_name(), encode_utf8(target)));
    assert(head.fields[1] == (geohash_name(), encode_utf8(config.geohash@)));
    if let Some(key) = config.masque_preshared_key {
        assert(head.fields[2] == (authorization_name(), authorization_value(key@)));
    }
}

/// The front of a session is a session, and the next action is the answer to the
/// next event.
proof fn front_is_a_session(config: Config, events: Seq<SessionEventView>, k: int)
    requires
        session_run(config, events) is Some,
        0 <= k <= events.len(),
    ensures
        session_run(config, events.take(k)) is Some,
        session_actions(config, events.take(k)) == session_actions(config, events).take(k + 1),
        k < events.len() ==> (session_run(config, events.take(k)) matches Some((session, _))
            && session_accepts(session, events[k]) && session_next(config, session, events[k]).1
            == session_actions(config, events)[k + 1]),
    decreases events.len(),
{
    run_has_shape(config, events);
    if k == events.len() {
        assert(events.take(k) =~= events);
        assert(session_actions(config, events).take(k + 1) =~= session_actions(config, events));
    } else {
        let before = events.drop_last();
        run_has_shape(config, before);
        front_is_a_session(config, before, k);
        assert(before.take(k) =~= events.take(k));
        assert(session_actions(config, before).take(k + 1) =~= session_actions(
            config,
            events,
        ).take(k + 1));
        if k == events.len() - 1 {
            assert(events.take(k) =~= before);
        } else {
            assert(before[k] == events[k]);
        }
    }
}

/// Where a session stands is told by the last thing that it did.
proof fn last_action_tells_the_state(config: Config, events: Seq<SessionEventView>)
    requires
        session_run(config, events) is Some,
    ensures
        session_run(config, events) matches Some((session, actions)) && actions.len() > 0
            && match actions.last() {
            SessionActionView::Authenticate => session is Authenticating,
            SessionActionView::AwaitCommand => session is AwaitingCommand,
            SessionActionView::Connect { .. } => session is Connecting,
            SessionActionView::Reply(reply, _) => if reply == Reply::Succeeded {
                session is ReportingSuccess
            } else {
                session is ReportingFailure || session is Refusing
            },
            SessionActionView::Relay => session is Relaying,
            SessionActionView::ShutDown => session is ShuttingDown,
            SessionActionView::Finish(_) => session is Finished,
        },
    decreases events.len(),
{
    if events.len() > 0 {
        last_action_tells_the_state(config, events.drop_last());
        run_has_shape(config, events.drop_last());
    }
}

/// A client that was told `Succeeded` gets its tunnel, whatever the
/// configuration: bytes are relayed as soon as that reply is sent.
pub proof fn success_is_followed_by_the_relay(
    config: Config,
    events: Seq<SessionEventView>,
    k: int,
)
    requires
        session_run(config, events) is Some,
        0 <= k < events.len(),
        events[k] is Replied,
        session_actions(config, events)[k] is Reply,
        session_actions(config, events)[k]->Reply_0 == Reply::Succeeded,
    ensures
        session_actions(config, events)[k + 1] is Relay,
{
    run_has_shape(config, events);
    front_is_a_session(config, events, k);
    last_action_tells_the_state(config, events.take(k));
}

/// A relay that completed is followed by the shutdown of the tunnel, and that by
/// the end of the session, which is a good one where the shutdown succeeded.
pub proof fn relays_are_shut_down(config: Config, events: Seq<SessionEventView>, k: int)
    requires
        session_run(config, events) is Some,
        0 <= k < events.len(),
    ensures
        events[k] is Relayed ==> session_actions(config, events)[k + 1] is ShutDown,
        events[k] is ShutDown ==> session_actions(config, events)[k + 1]
            == SessionActionView::Finish(Ok(())),
{
    run_has_shape(config, events);
    front_is_a_session(config, events, k);
    last_action_tells_the_state(config, events.take(k));
}

/// A tunnel is asked for once the client is authenticated, and the client is
/// told of it once the proxy has answered: a session authenticates first, then
/// takes one command, and an answer of the proxy is passed on at once.
pub proof fn steps_follow_each_other(config: Config, events: Seq<SessionEventView>, k: int)
    requires
        session_run(config, events) is Some,
        0 <= k < events.len(),
    ensures
        session_actions(config, events)[0] is Authenticate,
        events[k] is Authenticated ==> session_actions(config, events)[k + 1] is AwaitCommand,
        events[k] is UpstreamConnected ==> session_actions(config, events)[k + 1]
            == SessionActionView::Reply(Reply::Succeeded, events[1]->Command_1),
        events[k] is UpstreamFailed ==> session_actions(config, events)[k + 1]
            == SessionActionView::Reply(Reply::GeneralFailure, events[1]->Command_1),
{
    run_has_shape(config, events);
    front_is_a_session(config, events, k);
    last_action_tells_the_state(config, events.take(k));
    run_has_shape(config, events.take(k));
}

/// Whatever fails ends the session with an error that tells what it was, but for
/// a tunnel that could not be opened: that is told to the client, and is no error
/// where the client could be told.
pub proof fn failures_end_the_session(config: Config, events: Seq<SessionEventView>, k: int)
    requires
        session_run(config, events) is Some,
        0 <= k < events.len(),
    ensures
        ({
            let before = session_actions(config, events)[k];
            let after = session_actions(config, events)[k + 1];
            let told_success = before is Reply && before->Reply_0 == Reply::Succeeded;
            &&& events[k] is AuthenticationFailed ==> after == SessionActionView::Finish(
                Err(SessionError::Authentication),
            )
            &&& events[k] is CommandFailed ==> after == SessionActionView::Finish(
                Err(SessionError::Command),
            )
            &&& events[k] is ReplyFailed ==> after == SessionActionView::Finish(
                Err(
                    if told_success {
                        SessionError::SuccessReply
                    } else {
                        SessionError::FailedToReply
                    },
                ),
            )
            &&& events[k] is Replied && !told_success ==> after == SessionActionView::Finish(Ok(()))
            &&& events[k] is RelayFailed ==> after == SessionActionView::Finish(
                Err(SessionError::Relay),
            )
            &&& events[k] is ShutdownFailed ==> after == SessionActionView::Finish(
                Err(SessionError::Shutdown),
            )
        }),
{
    run_has_shape(config, events);
    front_is_a_session(config, events, k);
    last_action_tells_the_state(config, events.take(k));
}

/// A CONNECT command is carried out: an address without a target ends the
/// session, a target that is no URI, or values that no field can hold, are a
/// general failure, and anything else becomes a request to the proxy for that
/// very target, with the configured time limit.
pub proof fn connects_are_carried_out(config: Config, events: Seq<SessionEventView>, k: int)
    requires
        session_run(config, events) is Some,
        0 <= k < events.len(),
        events[k] is Command,
        events[k]->Command_0 == Command::Connect,
    ensures
        ({
            let address = events[k]->Command_1;
            let action = session_actions(config, events)[k + 1];
            match target_text(address) {
                None => action == SessionActionView::Finish(Err(SessionError::InvalidDomain)),
                Some(target) => {
                    let fits = is_field_value(encode_utf8(target)) && is_field_value(
                        encode_utf8(config.geohash@),
                    ) && (config.masque_preshared_key matches Some(key) ==> is_field_value(
                        encode_utf8("Preshared "@ + key@),
                    ));
                    if parsed_uri(target) is Some && fits {
                        &&& action is Connect
                        &&& action->timeout == config.request_timeout
                        &&& action->head.method == "CONNECT"@
                        &&& action->head.protocol is None
                        &&& Some(action->head.uri) == parsed_uri(target)
                        &&& values_named(action->head.fields, encode_utf8("host"@)) == seq![
                            encode_utf8(target),
                        ]
                        &&& values_named(action->head.fields, encode_utf8("sec-ch-geohash"@))
                            == seq![encode_utf8(config.geohash@)]
                        &&& values_named(action->head.fields, encode_utf8("proxy-authorization"@))
                            == (match config.masque_preshared_key {
                            Some(key) => seq![encode_utf8("Preshared "@ + key@)],
                            None => Seq::empty(),
                        })
                        &&& action->head.fields.len() == if config.masque_preshared_key is Some {
                            3nat
                        } else {
                            2nat
                        }
                    } else {
                        action == SessionActionView::Reply(Reply::GeneralFailure, address)
                    }
                },
            }
        }),
{
    run_has_shape(config, events);
    front_is_a_session(config, events, k);
    if let Some(target) = target_text(events[k]->Command_1) {
        if let Some(uri) = parsed_uri(target) {
            requests_say_what_is_configured(config, target, uri);
        }
    }
}

/// A session waits for the outcome of what it did last, and for nothing else:
/// each action can succeed or fail, and a session that is over meets nothing.
pub proof fn sessions_await_their_outcome(
    config: Config,
    events: Seq<SessionEventView>,
    event: SessionEventView,
)
    requires
        session_run(config, events) is Some,
    ensures
        session_run(config, events.push(event)) is Some <==> (match session_actions(
            config,
            events,
        ).last() {
            SessionActionView::Authenticate => event is Authenticated || event
                is AuthenticationFailed,
            SessionActionView::AwaitCommand => event is Command || event is CommandFailed,
            SessionActionView::Connect { .. } => event is UpstreamConnected || event
                is UpstreamFailed,
            SessionActionView::Reply(_, _) => event is Replied || event is ReplyFailed,
            SessionActionView::Relay => event is Relayed || event is RelayFailed,
            SessionActionView::ShutDown => event is ShutDown || event is ShutdownFailed,
            SessionActionView::Finish(_) => false,
        }),
{
    last_action_tells_the_state(config, events);
    assert(events.push(event).drop_last() =~= events);
}

/// The views of a session's events and actions say what they hold.
pub proof fn session_views_are_faithful(event: SessionEvent, action: SessionAction)
    ensures
        event matches SessionEvent::Command(command, address) ==> event@
            == SessionEventView::Command(command, address@),
        event is Authenticated <==> event@ is Authenticated,
        event is AuthenticationFailed <==> event@ is AuthenticationFailed,
        event is CommandFailed <==> event@ is CommandFailed,
        event is UpstreamConnected <==> event@ is UpstreamConnected,
        event is UpstreamFailed <==> event@ is UpstreamFailed,
        event is Replied <==> event@ is Replied,
        event is ReplyFailed <==> event@ is ReplyFailed,
        event is Relayed <==> event@ is Relayed,
        event is RelayFailed <==> event@ is RelayFailed,
        event is ShutDown <==> event@ is ShutDown,
        event is ShutdownFailed <==> event@ is ShutdownFailed,
        action matches SessionAction::Connect { request, timeout } ==> action@
            == (SessionActionView::Connect { head: request_head(request), timeout }),
        action matches SessionAction::Reply(reply, address) ==> action@
            == SessionActionView::Reply(reply, address@),
        action matches SessionAction::Finish(result) ==> action@ == SessionActionView::Finish(
            result,
        ),
        action is Authenticate <==> action@ is Authenticate,
        action is AwaitCommand <==> action@ is AwaitCommand,
        action is Relay <==> action@ is Relay,
        action is ShutDown <==> action@ is ShutDown,
{
}

} // verus!
