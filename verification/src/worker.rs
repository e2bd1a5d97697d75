//! The worker that owns the shared HTTP/2 connection to the proxy and sends the
//! clients' requests over it.
//!
//! The worker is a state machine: each step takes what happened and gives back
//! what to do next.

use vstd::prelude::*;

use crate::config::Http2KeepAliveConfig;
use crate::h2::{handshake_settings, settings_of, HandshakeSettings};

verus! {

/// How many requests wait for the worker at most.
pub const REQUEST_QUEUE: usize = 64;

/// The shortest pause before another attempt to connect, in milliseconds.
pub const MIN_BACKOFF_MILLIS: u64 = 200;

/// The longest pause before another attempt to connect, in milliseconds.
pub const MAX_BACKOFF_MILLIS: u64 = 5000;

/// What a connection is being made for.
#[derive(Debug, Clone, Copy, PartialEq, Eq, Structural)]
pub enum Purpose {
    /// To have one before anyone asks.
    Recovery,
    /// To send the request that the worker holds.
    Request,
}

/// What the worker is at.
#[derive(Debug, Clone, Copy, PartialEq, Eq, Structural)]
pub enum WorkerState {
    Connecting(Purpose),
    /// Waiting before the next attempt to connect.
    BackingOff(Purpose),
    /// Waiting for a request.
    Idle,
    /// Waiting for the connection to take the request.
    CheckingReady,
    /// Handing the request to the connection.
    Sending,
    Stopped,
}

/// The HTTP/2 client of the proxy: what its worker knows, and what it is at.
#[derive(Debug, Clone, Copy, PartialEq, Eq, Structural)]
pub struct ProxyClient {
    /// The keepalive, where one is configured: the connection is then made at
    /// once, and made anew as soon as it is lost.
    pub keepalive: Option<Http2KeepAliveConfig>,
    /// Whether the worker has a connection.
    pub connected: bool,
    pub state: WorkerState,
}

/// What can happen to the worker.
#[derive(Debug, Clone, Copy, PartialEq, Eq, Structural)]
pub enum WorkerEvent {
    Connected,
    ConnectFailed,
    BackoffElapsed,
    /// A client's request came in.
    Request,
    /// No client is left.
    RequestsClosed,
    /// The connection was lost.
    ConnectionClosed,
    Ready,
    NotReady,
    /// The client no longer waits for the request that the worker holds.
    RequestCancelled,
    Sent,
}

/// What the worker is to do next.
#[derive(Debug, Clone, Copy, PartialEq, Eq, Structural)]
pub enum WorkerAction {
    /// Make a connection with these settings.
    Connect(HandshakeSettings),
    BackOff,
    /// Wait for a request and, where `watch` says so, for the loss of the
    /// connection.
    Await { watch: bool },
    CheckReady,
    Send,
    Stop,
}

impl ProxyClient {
    /// Whether the worker holds a request that is not sent yet.
    pub open spec fn holds_request(self) -> bool {
        self.state == WorkerState::Connecting(Purpose::Request) || self.state
            == WorkerState::BackingOff(Purpose::Request) || self.state == WorkerState::CheckingReady
    }

    /// What holds of a worker at all times: where a keepalive is configured it
    /// idles on a connection only, and without one it makes a connection for a
    /// request only.
    pub open spec fn inv(self) -> bool {
        &&& self.keepalive is Some && self.state == WorkerState::Idle ==> self.connected
        &&& self.state == WorkerState::CheckingReady || self.state == WorkerState::Sending
            ==> self.connected
        &&& self.state == WorkerState::Connecting(Purpose::Recovery) || self.state
            == WorkerState::BackingOff(Purpose::Recovery) ==> self.keepalive is Some
    }

    /// Whether `event` can happen to the worker.
    pub open spec fn can_meet(self, event: WorkerEvent) -> bool {
        match self.state {
            WorkerState::Connecting(purpose) => event == WorkerEvent::Connected || event
                == WorkerEvent::ConnectFailed || (purpose == Purpose::Request && event
                == WorkerEvent::RequestCancelled),
            WorkerState::BackingOff(purpose) => event == WorkerEvent::BackoffElapsed || (purpose
                == Purpose::Request && event == WorkerEvent::RequestCancelled),
            WorkerState::Idle => event == WorkerEvent::Request || event
                == WorkerEvent::RequestsClosed || (self.keepalive is Some && event
                == WorkerEvent::ConnectionClosed),
            WorkerState::CheckingReady => event == WorkerEvent::Ready || event
                == WorkerEvent::NotReady || event == WorkerEvent::RequestCancelled,
            WorkerState::Sending => event == WorkerEvent::Sent,
            WorkerState::Stopped => false,
        }
    }

    /// The worker at `state`.
    pub open spec fn at(self, state: WorkerState) -> ProxyClient {
        ProxyClient { state, ..self }
    }

    /// The worker without a connection, making one.
    pub open spec fn reconnecting(self, purpose: Purpose) -> ProxyClient {
        ProxyClient { connected: false, state: WorkerState::Connecting(purpose), ..self }
    }

    /// Making a connection: every one is made with the configured keepalive.
    pub open spec fn connect_action(self) -> WorkerAction {
        WorkerAction::Connect(settings_of(self.keepalive))
    }

    /// How an idle worker waits.
    pub open spec fn idle_action(self) -> WorkerAction {
        WorkerAction::Await { watch: self.keepalive is Some }
    }

    /// How the worker goes on from an event.
    pub open spec fn next(self, event: WorkerEvent) -> (ProxyClient, WorkerAction) {
        match event {
            WorkerEvent::Connected => {
                let connected = ProxyClient { connected: true, ..self };
                if self.holds_request() {
                    (connected.at(WorkerState::Sending), WorkerAction::Send)
                } else {
                    (connected.at(WorkerState::Idle), self.idle_action())
                }
            },
            WorkerEvent::ConnectFailed => (
                self.at(
                    WorkerState::BackingOff(
                        if self.holds_request() {
                            Purpose::Request
                        } else {
                            Purpose::Recovery
                        },
                    ),
                ),
                WorkerAction::BackOff,
            ),
            WorkerEvent::BackoffElapsed => (
                self.at(
                    WorkerState::Connecting(
                        if self.holds_request() {
                            Purpose::Request
                        } else {
                            Purpose::Recovery
                        },
                    ),
                ),
                self.connect_action(),
            ),
            WorkerEvent::Request => if self.connected {
                (self.at(WorkerState::CheckingReady), WorkerAction::CheckReady)
            } else {
                (self.reconnecting(Purpose::Request), self.connect_action())
            },
            WorkerEvent::RequestsClosed => (self.at(WorkerState::Stopped), WorkerAction::Stop),
            WorkerEvent::ConnectionClosed => (
                self.reconnecting(Purpose::Recovery),
                self.connect_action(),
            ),
            WorkerEvent::Ready => (self.at(WorkerState::Sending), WorkerAction::Send),
            WorkerEvent::NotReady => (self.reconnecting(Purpose::Request), self.connect_action()),
            WorkerEvent::RequestCancelled => if self.keepalive is Some && !self.connected {
                (self.reconnecting(Purpose::Recovery), self.connect_action())
            } else {
                (self.at(WorkerState::Idle), self.idle_action())
            },
            WorkerEvent::Sent => (self.at(WorkerState::Idle), self.idle_action()),
        }
    }

    /// A new client, and the first thing that its worker is to do: to connect,
    /// where a keepalive is configured, and else to wait for a request.
    pub open spec fn started(keepalive: Option<Http2KeepAliveConfig>) -> (
        ProxyClient,
        WorkerAction,
    ) {
        if keepalive is Some {
            let client = ProxyClient {
                keepalive,
                connected: false,
                state: WorkerState::Connecting(Purpose::Recovery),
            };
            (client, client.connect_action())
        } else {
            (
                ProxyClient { keepalive, connected: false, state: WorkerState::Idle },
                WorkerAction::Await { watch: false },
            )
        }
    }

    /// A new client, and the first thing that its worker is to do.
    pub fn new(keepalive: Option<Http2KeepAliveConfig>) -> (started: (ProxyClient, WorkerAction))
        ensures
            started == Self::started(keepalive),
            started.0.inv(),
    {
        if keepalive.is_some() {
            (
                ProxyClient {
                    keepalive,
                    connected: false,
                    state: WorkerState::Connecting(Purpose::Recovery),
                },
                WorkerAction::Connect(handshake_settings(keepalive)),
            )
        } else {
            (
                ProxyClient { keepalive, connected: false, state: WorkerState::Idle },
                WorkerAction::Await { watch: false },
            )
        }
    }

    /// Whether the invariant holds and `event` can happen to the worker.
    pub fn accepts(&self, event: WorkerEvent) -> (accepted: bool)
        ensures
            accepted == (self.inv() && self.can_meet(event)),
    {
        let sound = match self.state {
            WorkerState::Connecting(Purpose::Recovery) | WorkerState::BackingOff(
                Purpose::Recovery,
            ) => self.keepalive.is_some(),
            WorkerState::Idle => self.connected || self.keepalive.is_none(),
            WorkerState::CheckingReady | WorkerState::Sending => self.connected,
            _ => true,
        };
        sound && match self.state {
            WorkerState::Connecting(purpose) => {
                event == WorkerEvent::Connected || event == WorkerEvent::ConnectFailed || (purpose
                    == Purpose::Request && event == WorkerEvent::RequestCancelled)
            },
            WorkerState::BackingOff(purpose) => {
                event == WorkerEvent::BackoffElapsed || (purpose == Purpose::Request && event
                    == WorkerEvent::RequestCancelled)
            },
            WorkerState::Idle => {
                event == WorkerEvent::Request || event == WorkerEvent::RequestsClosed || (
                self.keepalive.is_some() && event == WorkerEvent::ConnectionClosed)
            },
            WorkerState::CheckingReady => {
                event == WorkerEvent::Ready || event == WorkerEvent::NotReady || event
                    == WorkerEvent::RequestCancelled
            },
            WorkerState::Sending => event == WorkerEvent::Sent,
            WorkerState::Stopped => false,
        }
    }

    /// Decides, for a request, whether the worker's connection will do: it must
    /// have one.
    fn get_proxy_connection(&mut self) -> (action: WorkerAction)
        requires
            old(self).inv(),
            old(self).state == WorkerState::Idle,
        ensures
            final(self).inv(),
            (*final(self), action) == old(self).next(WorkerEvent::Request),
    {
        if self.connected {
            self.state = WorkerState::CheckingReady;
            WorkerAction::CheckReady
        } else {
            self.state = WorkerState::Connecting(Purpose::Request);
            WorkerAction::Connect(handshake_settings(self.keepalive))
        }
    }

    /// Makes a connection until one comes about: every failed attempt is
    /// followed by a pause and another attempt.
    fn connect_with_retry(&mut self, event: WorkerEvent) -> (action: WorkerAction)
        requires
            old(self).inv(),
            old(self).can_meet(event),
            event == WorkerEvent::Connected || event == WorkerEvent::ConnectFailed || event
                == WorkerEvent::BackoffElapsed,
        ensures
            final(self).inv(),
            (*final(self), action) == old(self).next(event),
    {
        match (self.state, event) {
            (WorkerState::Connecting(purpose), WorkerEvent::ConnectFailed) => {
                self.state = WorkerState::BackingOff(purpose);
                WorkerAction::BackOff
            },
            (WorkerState::Connecting(Purpose::Request), _) => {
                self.connected = true;
                self.state = WorkerState::Sending;
                WorkerAction::Send
            },
            (WorkerState::BackingOff(purpose), _) => {
                self.state = WorkerState::Connecting(purpose);
                WorkerAction::Connect(handshake_settings(self.keepalive))
            },
            _ => {
                self.connected = true;
                self.state = WorkerState::Idle;
                WorkerAction::Await { watch: self.keepalive.is_some() }
            },
        }
    }

    /// Goes on from an event.
    pub fn step(&mut self, event: WorkerEvent) -> (action: WorkerAction)
        requires
            old(self).inv(),
            old(self).can_meet(event),
        ensures
            final(self).inv(),
            (*final(self), action) == old(self).next(event),
    {
        match event {
            WorkerEvent::Connected | WorkerEvent::ConnectFailed | WorkerEvent::BackoffElapsed => {
                self.connect_with_retry(event)
            },
            WorkerEvent::Request => self.get_proxy_connection(),
            WorkerEvent::RequestsClosed => {
                self.state = WorkerState::Stopped;
                WorkerAction::Stop
            },
            WorkerEvent::ConnectionClosed => {
                self.connected = false;
                self.state = WorkerState::Connecting(Purpose::Recovery);
                WorkerAction::Connect(handshake_settings(self.keepalive))
            },
            WorkerEvent::Ready => {
                self.state = WorkerState::Sending;
                WorkerAction::Send
            },
            WorkerEvent::NotReady => {
                self.connected = false;
                self.state = WorkerState::Connecting(Purpose::Request);
                WorkerAction::Connect(handshake_settings(self.keepalive))
            },
            WorkerEvent::RequestCancelled | WorkerEvent::Sent => {
                if self.keepalive.is_some() && !self.connected {
                    self.state = WorkerState::Connecting(Purpose::Recovery);
                    WorkerAction::Connect(handshake_settings(self.keepalive))
                } else {
                    self.state = WorkerState::Idle;
                    WorkerAction::Await { watch: self.keepalive.is_some() }
                }
            },
        }
    }
}

/// A whole run of a client's worker: what it is after these events, and all that
/// it did, the first action before any event; `None` where an event cannot
/// happen.
pub open spec fn worker_run(keepalive: Option<Http2KeepAliveConfig>, events: Seq<WorkerEvent>)
    -> Option<(ProxyClient, Seq<WorkerAction>)>
    decreases events.len(),
{
    if events.len() == 0 {
        let (client, action) = ProxyClient::started(keepalive);
        Some((client, seq![action]))
    } else {
        match worker_run(keepalive, events.drop_last()) {
            Some((client, actions)) if client.can_meet(events.last()) => {
                let (next, action) = client.next(events.last());
                Some((next, actions.push(action)))
            },
            _ => None,
        }
    }
}

/// All that a client's worker did in a whole run.
pub open spec fn worker_actions(keepalive: Option<Http2KeepAliveConfig>, events: Seq<WorkerEvent>)
    -> Seq<WorkerAction> {
    match worker_run(keepalive, events) {
        Some((_, actions)) => actions,
        None => Seq::empty(),
    }
}

/// How often `x` stands in `s`.
pub open spec fn count<T>(s: Seq<T>, x: T) -> nat
    decreases s.len(),
{
    if s.len() == 0 {
        0
    } else {
        count(s.drop_last(), x) + if s.last() == x {
            1nat
        } else {
            0nat
        }
    }
}

/// Whether a connection was made and not lost or found broken since.
pub open spec fn has_connection(events: Seq<WorkerEvent>) -> bool
    decreases events.len(),
{
    if events.len() == 0 {
        false
    } else {
        match events.last() {
            WorkerEvent::Connected => true,
            WorkerEvent::NotReady | WorkerEvent::ConnectionClosed => false,
            _ => has_connection(events.drop_last()),
        }
    }
}

/// Whether a request came in that was neither sent nor cancelled.
pub open spec fn owes_a_request(events: Seq<WorkerEvent>, actions: Seq<WorkerAction>) -> bool {
    count(events, WorkerEvent::Request) > count(actions, WorkerAction::Send) + count(
        events,
        WorkerEvent::RequestCancelled,
    )
}

/// Whether the request that came in with event `i` is still held before event
/// `k`: it was neither sent nor cancelled in between.
pub open spec fn is_held(
    events: Seq<WorkerEvent>,
    actions: Seq<WorkerAction>,
    i: int,
    k: int,
) -> bool {
    &&& 0 <= i < k
    &&& events[i] == WorkerEvent::Request
    &&& forall|m: int| i < m < k ==> #[trigger] events[m] != WorkerEvent::RequestCancelled
    &&& forall|m: int| i < m < k ==> #[trigger] actions[m] != WorkerAction::Send
}

/// What is known of each action of a run: it connects with the configured
/// keepalive, and it sends a held request only.
spec fn is_explained(
    keepalive: Option<Http2KeepAliveConfig>,
    events: Seq<WorkerEvent>,
    actions: Seq<WorkerAction>,
    k: int,
) -> bool {
    &&& actions[k] is Connect ==> {
        &&& actions[k] == WorkerAction::Connect(settings_of(keepalive))
        &&& keepalive is None ==> exists|i: int| is_held(events, actions, i, k)
    }
    &&& actions[k] == WorkerAction::Send ==> exists|i: int| is_held(events, actions, i, k)
    &&& actions[k] == WorkerAction::Stop ==> k >= 1 && events[k - 1] == WorkerEvent::RequestsClosed
    &&& k >= 1 && events[k - 1] == WorkerEvent::ConnectionClosed ==> actions[k] is Connect
}

/// Whether a client is at what its last action asked for.
spec fn is_doing(client: ProxyClient, action: WorkerAction) -> bool {
    match action {
        WorkerAction::Connect(_) => client.state is Connecting && !client.connected,
        WorkerAction::BackOff => client.state is BackingOff && !client.connected,
        WorkerAction::Await { watch } => client.state is Idle && watch == (client.keepalive is Some),
        WorkerAction::CheckReady => client.state is CheckingReady,
        WorkerAction::Send => client.state is Sending,
        WorkerAction::Stop => client.state is Stopped,
    }
}

spec fn run_is_explained(
    keepalive: Option<Http2KeepAliveConfig>,
    events: Seq<WorkerEvent>,
    client: ProxyClient,
    actions: Seq<WorkerAction>,
) -> bool {
    &&& client.inv()
    &&& client.keepalive == keepalive
    &&& actions.len() == events.len() + 1
    &&& is_doing(client, actions.last())
    &&& client.connected == has_connection(events)
    &&& actions[0] == ProxyClient::started(keepalive).1
    &&& forall|k: int|
        0 <= k < actions.len() ==> #[trigger] is_explained(keepalive, events, actions, k)
    &&& client.holds_request() ==> actions.last() != WorkerAction::Send && exists|i: int|
        is_held(events, actions, i, events.len() as int)
}

/// A request that was held before event `k` of a run is held there in any longer
/// one.
proof fn held_stays_held(
    events: Seq<WorkerEvent>,
    actions: Seq<WorkerAction>,
    event: WorkerEvent,
    action: WorkerAction,
    i: int,
    k: int,
)
    requires
        is_held(events, actions, i, k),
        k <= events.len(),
        actions.len() == events.len() + 1,
    ensures
        is_held(events.push(event), actions.push(action), i, k),
{
    assert forall|m: int| i < m < k implies #[trigger] events.push(event)[m]
        != WorkerEvent::RequestCancelled by {
        assert(events.push(event)[m] == events[m]);
    }
    assert forall|m: int| i < m < k implies #[trigger] actions.push(action)[m]
        != WorkerAction::Send by {
        assert(actions.push(action)[m] == actions[m]);
    }
}

proof fn step_is_explained(
    keepalive: Option<Http2KeepAliveConfig>,
    events: Seq<WorkerEvent>,
    client: ProxyClient,
    actions: Seq<WorkerAction>,
    event: WorkerEvent,
)
    requires
        run_is_explained(keepalive, events, client, actions),
        client.can_meet(event),
    ensures
        run_is_explained(
            keepalive,
            events.push(event),
            client.next(event).0,
            actions.push(client.next(event).1),
        ),
{
    let (next, action) = client.next(event);
    let events_after = events.push(event);
    assert(events_after.drop_last() =~= events);
    let actions_after = actions.push(action);
    let len = events.len() as int;
    let end = events_after.len() as int;
    assert forall|k: int| 0 <= k < actions.len() implies #[trigger] is_explained(
        keepalive,
        events_after,
        actions_after,
        k,
    ) by {
        assert(is_explained(keepalive, events, actions, k));
        assert(actions_after[k] == actions[k]);
        if k >= 1 {
            assert(events_after[k - 1] == events[k - 1]);
        }
        if exists|i: int| is_held(events, actions, i, k) {
            let i = choose|i: int| is_held(events, actions, i, k);
            held_stays_held(events, actions, event, action, i, k);
        }
    }
    if client.holds_request() && event != WorkerEvent::RequestCancelled {
        let i = choose|i: int| is_held(events, actions, i, len);
        held_stays_held(events, actions, event, action, i, len);
        assert(actions_after[len] == actions.last());
        assert(events_after[len] == event);
        assert(is_held(events_after, actions_after, i, end));
    }
    if event == WorkerEvent::Request {
        assert(events_after[len] == event);
        assert(is_held(events_after, actions_after, len, end));
    }
    assert(is_explained(keepalive, events_after, actions_after, end));
}

proof fn runs_are_explained(keepalive: Option<Http2KeepAliveConfig>, events: Seq<WorkerEvent>)
    requires
        worker_run(keepalive, events) is Some,
    ensures
        worker_run(keepalive, events) matches Some((client, actions)) && run_is_explained(
            keepalive,
            events,
            client,
            actions,
        ),
    decreases events.len(),
{
    if events.len() == 0 {
        let (client, actions) = worker_run(keepalive, events)->0;
        assert(is_explained(keepalive, events, actions, 0));
    } else {
        runs_are_explained(keepalive, events.drop_last());
        let (client, actions) = worker_run(keepalive, events.drop_last())->0;
        step_is_explained(keepalive, events.drop_last(), client, actions, events.last());
        assert(events.drop_last().push(events.last()) =~= events);
    }
}

/// Every client that a run leads to keeps the invariant: with a keepalive its
/// worker is idle only while it has a connection.
pub proof fn runs_keep_the_invariant(
    keepalive: Option<Http2KeepAliveConfig>,
    events: Seq<WorkerEvent>,
)
    requires
        worker_run(keepalive, events) is Some,
    ensures
        worker_run(keepalive, events) matches Some((client, actions)) && client.inv()
            && client.keepalive == keepalive && actions.len() == events.len() + 1,
{
    runs_are_explained(keepalive, events);
}

/// Every connection, the first and the later ones, is made with the configured
/// keepalive.
pub proof fn connections_share_the_keepalive(
    keepalive: Option<Http2KeepAliveConfig>,
    events: Seq<WorkerEvent>,
    k: int,
)
    requires
        worker_run(keepalive, events) is Some,
        0 <= k < worker_actions(keepalive, events).len(),
        worker_actions(keepalive, events)[k] is Connect,
    ensures
        worker_actions(keepalive, events)[k] == WorkerAction::Connect(settings_of(keepalive)),
{
    runs_are_explained(keepalive, events);
    assert(is_explained(keepalive, events, worker_actions(keepalive, events), k));
}

/// With a keepalive, the connection is made before anything else.
pub proof fn keepalive_connects_first(
    keepalive: Option<Http2KeepAliveConfig>,
    events: Seq<WorkerEvent>,
)
    requires
        keepalive is Some,
        worker_run(keepalive, events) is Some,
    ensures
        worker_actions(keepalive, events)[0] == WorkerAction::Connect(settings_of(keepalive)),
{
    runs_are_explained(keepalive, events);
}

/// With a keepalive, the connection is made anew at once each time that it is
/// lost: no request is waited for in between.
pub proof fn lost_connections_are_recovered(
    keepalive: Option<Http2KeepAliveConfig>,
    events: Seq<WorkerEvent>,
    k: int,
)
    requires
        keepalive is Some,
        worker_run(keepalive, events) is Some,
        0 <= k < events.len(),
        events[k] == WorkerEvent::ConnectionClosed,
    ensures
        worker_actions(keepalive, events)[k + 1] == WorkerAction::Connect(settings_of(keepalive)),
{
    runs_are_explained(keepalive, events);
    assert(is_explained(keepalive, events, worker_actions(keepalive, events), k + 1));
}

/// A worker never gives up on a connection: a failed attempt is followed by a
/// pause, and the pause by another attempt for the same purpose.
pub proof fn failed_attempts_are_repeated(client: ProxyClient)
    requires
        client.inv(),
        client.can_meet(WorkerEvent::ConnectFailed),
    ensures
        ({
            let (paused, pause) = client.next(WorkerEvent::ConnectFailed);
            let (again, retry) = paused.next(WorkerEvent::BackoffElapsed);
            &&& pause == WorkerAction::BackOff
            &&& paused.can_meet(WorkerEvent::BackoffElapsed)
            &&& retry == client.connect_action()
            &&& again == client
        }),
{
}

/// A worker stops only once no client is left.
pub proof fn stops_without_clients_only(
    keepalive: Option<Http2KeepAliveConfig>,
    events: Seq<WorkerEvent>,
    k: int,
)
    requires
        worker_run(keepalive, events) is Some,
        0 <= k < worker_actions(keepalive, events).len(),
        worker_actions(keepalive, events)[k] == WorkerAction::Stop,
    ensures
        k >= 1 && events[k - 1] == WorkerEvent::RequestsClosed,
{
    runs_are_explained(keepalive, events);
    assert(is_explained(keepalive, events, worker_actions(keepalive, events), k));
}

/// A request is sent over a connection that was just made or has just said that
/// it is ready.
pub proof fn sends_over_a_live_connection(client: ProxyClient, event: WorkerEvent)
    requires
        client.inv(),
        client.can_meet(event),
        client.next(event).1 == WorkerAction::Send,
    ensures
        client.holds_request(),
        client.next(event).0.connected,
        event == WorkerEvent::Connected || event == WorkerEvent::Ready,
{
}

/// What is sent is a request that came in and was neither sent nor cancelled
/// before: no request is sent twice, and a cancelled one never.
pub proof fn only_held_requests_are_sent(
    keepalive: Option<Http2KeepAliveConfig>,
    events: Seq<WorkerEvent>,
    k: int,
)
    requires
        worker_run(keepalive, events) is Some,
        0 <= k < worker_actions(keepalive, events).len(),
        worker_actions(keepalive, events)[k] == WorkerAction::Send,
    ensures
        exists|i: int| is_held(events, worker_actions(keepalive, events), i, k),
{
    runs_are_explained(keepalive, events);
    assert(is_explained(keepalive, events, worker_actions(keepalive, events), k));
}

/// Without a keepalive, a connection is made only for a request that came in and
/// was neither sent nor cancelled before: none is made before the first request,
/// and a lost one is not made anew until the next.
pub proof fn connects_lazily_without_keepalive(events: Seq<WorkerEvent>, k: int)
    requires
        worker_run(None, events) is Some,
        0 <= k < worker_actions(None, events).len(),
        worker_actions(None, events)[k] is Connect,
    ensures
        exists|i: int| is_held(events, worker_actions(None, events), i, k),
{
    runs_are_explained(None, events);
    assert(is_explained(None, events, worker_actions(None, events), k));
}

/// A request that is cancelled while a connection is made anew leaves the client
/// usable: with a keepalive the recovery goes on, until a connection is made and
/// the worker takes requests again.
pub proof fn recovery_outlives_cancelled_requests(client: ProxyClient)
    requires
        client.inv(),
        client.keepalive is Some,
        client.state == WorkerState::Connecting(Purpose::Request) || client.state
            == WorkerState::BackingOff(Purpose::Request),
        !client.connected,
    ensures
        client.can_meet(WorkerEvent::RequestCancelled),
        ({
            let (recovering, action) = client.next(WorkerEvent::RequestCancelled);
            let (recovered, waiting) = recovering.next(WorkerEvent::Connected);
            &&& action == client.connect_action()
            &&& !recovering.holds_request()
            &&& recovering.can_meet(WorkerEvent::Connected)
            &&& recovered.connected
            &&& waiting == WorkerAction::Await { watch: true }
            &&& recovered.can_meet(WorkerEvent::Request)
        }),
{
}

/// No request is lost and none is sent twice: each one that came in was sent,
/// was cancelled, or is the one that the worker holds.
pub proof fn every_request_is_accounted_for(
    keepalive: Option<Http2KeepAliveConfig>,
    events: Seq<WorkerEvent>,
)
    requires
        worker_run(keepalive, events) is Some,
    ensures
        worker_run(keepalive, events) matches Some((client, actions)) && count(
            events,
            WorkerEvent::Request,
        ) == count(actions, WorkerAction::Send) + count(events, WorkerEvent::RequestCancelled) + (
        if client.holds_request() {
            1nat
        } else {
            0nat
        }),
    decreases events.len(),
{
    runs_keep_the_invariant(keepalive, events);
    if events.len() == 0 {
        let (client, actions) = worker_run(keepalive, events)->0;
        assert(actions.drop_last() =~= Seq::empty());
        reveal_with_fuel(count, 2);
    } else {
        let before = events.drop_last();
        every_request_is_accounted_for(keepalive, before);
        runs_keep_the_invariant(keepalive, before);
        let (client, actions) = worker_run(keepalive, before)->0;
        let (next, done) = worker_run(keepalive, events)->0;
        assert(done.drop_last() =~= actions);
    }
}

/// The front of a run is a run, and the next action is the answer to the next
/// event.
proof fn front_is_a_run(
    keepalive: Option<Http2KeepAliveConfig>,
    events: Seq<WorkerEvent>,
    k: int,
)
    requires
        worker_run(keepalive, events) is Some,
        0 <= k <= events.len(),
    ensures
        worker_run(keepalive, events.take(k)) is Some,
        worker_actions(keepalive, events.take(k)) == worker_actions(keepalive, events).take(k + 1),
        k < events.len() ==> (worker_run(keepalive, events.take(k)) matches Some((client, _))
            && client.can_meet(events[k]) && client.next(events[k]).1 == worker_actions(
            keepalive,
            events,
        )[k + 1]),
    decreases events.len(),
{
    runs_are_explained(keepalive, events);
    if k == events.len() {
        assert(events.take(k) =~= events);
        assert(worker_actions(keepalive, events).take(k + 1) =~= worker_actions(keepalive, events));
    } else {
        let before = events.drop_last();
        runs_are_explained(keepalive, before);
        front_is_a_run(keepalive, before, k);
        assert(before.take(k) =~= events.take(k));
        assert(worker_actions(keepalive, before).take(k + 1) =~= worker_actions(
            keepalive,
            events,
        ).take(k + 1));
        if k == events.len() - 1 {
            assert(events.take(k) =~= before);
        } else {
            assert(before[k] == events[k]);
        }
    }
}

/// A worker that waits for a request watches its connection exactly where a
/// keepalive is configured, however it came to wait: only so can the loss of an
/// idle connection be noticed.
pub proof fn idle_connections_are_watched(
    keepalive: Option<Http2KeepAliveConfig>,
    events: Seq<WorkerEvent>,
    k: int,
)
    requires
        worker_run(keepalive, events) is Some,
        0 <= k < worker_actions(keepalive, events).len(),
        worker_actions(keepalive, events)[k] is Await,
    ensures
        worker_actions(keepalive, events)[k] == (WorkerAction::Await {
            watch: keepalive is Some,
        }),
{
    runs_are_explained(keepalive, events);
    front_is_a_run(keepalive, events, k);
    runs_are_explained(keepalive, events.take(k));
}

/// A worker that waits takes a request, the end of all requests and, where it
/// watches its connection, the loss of that; while it connects or pauses, what
/// came of that, and while it readies a connection, what that said. A request
/// that it owes can be cancelled until it is sent. Nothing else can happen, and
/// none of this is ever refused.
pub proof fn actions_await_their_outcome(
    keepalive: Option<Http2KeepAliveConfig>,
    events: Seq<WorkerEvent>,
    event: WorkerEvent,
)
    requires
        worker_run(keepalive, events) is Some,
    ensures
        worker_run(keepalive, events.push(event)) is Some <==> ({
            let actions = worker_actions(keepalive, events);
            let owes = owes_a_request(events, actions);
            match actions.last() {
                WorkerAction::Connect(_) => {
                    ||| event is Connected
                    ||| event is ConnectFailed
                    ||| event is RequestCancelled && owes
                },
                WorkerAction::BackOff => event is BackoffElapsed || (event is RequestCancelled
                    && owes),
                WorkerAction::Await { watch } => {
                    ||| event is Request
                    ||| event is RequestsClosed
                    ||| event is ConnectionClosed && watch
                },
                WorkerAction::CheckReady => {
                    ||| event is Ready
                    ||| event is NotReady
                    ||| event is RequestCancelled
                },
                WorkerAction::Send => event is Sent,
                WorkerAction::Stop => false,
            }
        }),
{
    runs_are_explained(keepalive, events);
    every_request_is_accounted_for(keepalive, events);
    assert(events.push(event).drop_last() =~= events);
}

/// What a worker does next is settled by what happened: a connection that came
/// about serves the request that is owed, or is kept for the next one; a failed
/// attempt is followed by a pause, and that by another attempt; a request goes to
/// the connection if there is one, and else asks for one; a ready connection gets
/// the request, and a broken one is replaced; and behind a request that was sent
/// the next one is waited for.
pub proof fn events_settle_what_is_done(
    keepalive: Option<Http2KeepAliveConfig>,
    events: Seq<WorkerEvent>,
    k: int,
)
    requires
        worker_run(keepalive, events) is Some,
        0 <= k < events.len(),
    ensures
        ({
            let actions = worker_actions(keepalive, events);
            let connected = has_connection(events.take(k));
            let owes = owes_a_request(events.take(k), actions.take(k + 1));
            let action = actions[k + 1];
            match events[k] {
                WorkerEvent::Connected => if owes {
                    action is Send
                } else {
                    action is Await
                },
                WorkerEvent::ConnectFailed => action is BackOff,
                WorkerEvent::BackoffElapsed => action is Connect,
                WorkerEvent::Request => if connected {
                    action is CheckReady
                } else {
                    action is Connect
                },
                WorkerEvent::RequestsClosed => action is Stop,
                WorkerEvent::ConnectionClosed => action is Connect,
                WorkerEvent::Ready => action is Send,
                WorkerEvent::NotReady => action is Connect,
                WorkerEvent::RequestCancelled => if keepalive is Some && !connected {
                    action is Connect
                } else {
                    action is Await
                },
                WorkerEvent::Sent => action is Await,
            }
        }),
{
    front_is_a_run(keepalive, events, k);
    runs_are_explained(keepalive, events.take(k));
    every_request_is_accounted_for(keepalive, events.take(k));
}

/// A worker knows whether it has a connection: one that was made is used until
/// it is lost or found broken, and no longer.
pub proof fn connections_are_kept_until_lost(
    keepalive: Option<Http2KeepAliveConfig>,
    events: Seq<WorkerEvent>,
)
    requires
        worker_run(keepalive, events) is Some,
    ensures
        worker_run(keepalive, events) matches Some((client, _)) && client.connected
            == has_connection(events),
{
    runs_are_explained(keepalive, events);
}

/// A new client without a keepalive waits for a request.
pub proof fn clients_without_keepalive_wait_first(events: Seq<WorkerEvent>)
    requires
        worker_run(None, events) is Some,
    ensures
        worker_actions(None, events)[0] == (WorkerAction::Await { watch: false }),
{
    runs_are_explained(None, events);
}

/// The pause between two attempts to connect grows from a fifth of a second to
/// five seconds, and 64 requests can wait for the worker.
pub proof fn pauses_are_bounded()
    ensures
        MIN_BACKOFF_MILLIS * 5 == 1000,
        MAX_BACKOFF_MILLIS == 5 * 1000,
        REQUEST_QUEUE == 64,
{
}

} // verus!
