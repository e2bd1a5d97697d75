//! What holds of all runs of an HTTP/3 connection.

use vstd::prelude::*;

use super::connection::{
    ids_never_repeat, makes_response, AnswerView, ClientH3EventView, ConnectionView, EventErrorView, RequestIds,
};
use super::headers::{are_response_headers, h3_response};
use super::run::{
    ReadySources, RunActionView, RunErrorView, RunEventView, RunStage, RunView, Source,
};
use crate::message::{names, ResponseHead, ROOMY};

verus! {

/// A connection's loop, and what it has seen and done.
pub struct History<R, F> {
    pub run: RunView<R, F>,
    /// The requests that the driver took, each with whom its response goes to.
    pub submitted: Seq<(u64, R)>,
    /// The streams that were opened, each with the request that it is for.
    pub opened: Seq<(u64, u64)>,
    /// The responses that clients were given, each with its request.
    pub answers: Seq<(u64, AnswerView<R>)>,
}

/// One event of a run, with the source of ids as it is then and the response that
/// the event's headers make.
pub struct Happening<R, E, F, B> {
    pub ids: RequestIds,
    pub event: RunEventView<R, E, F, B>,
    pub head: Option<ResponseHead>,
}

impl<R, F> History<R, F> {
    /// A new connection's history.
    pub open spec fn start() -> History<R, F> {
        History {
            run: RunView {
                connection: ConnectionView::<R, F>::fresh(),
                stage: RunStage::Awaiting,
            },
            submitted: Seq::empty(),
            opened: Seq::empty(),
            answers: Seq::empty(),
        }
    }

    /// The history with one more event.
    pub open spec fn step<E, B>(self, happening: Happening<R, E, F, B>) -> History<R, F> {
        let (run, action) = self.run.next(happening.ids, happening.event, happening.head);
        History {
            run,
            submitted: match (happening.event, self.run.stage) {
                (
                    RunEventView::Submitted,
                    RunStage::Submitting { request_id, response, .. },
                ) => self.submitted.push((request_id, response)),
                _ => self.submitted,
            },
            opened: match happening.event {
                RunEventView::Driver(
                    ClientH3EventView::NewOutboundRequest { stream_id, request_id },
                ) => self.opened.push((stream_id, request_id)),
                _ => self.opened,
            },
            answers: match (action, happening.event) {
                (
                    RunActionView::Answer(answer),
                    RunEventView::Driver(ClientH3EventView::IncomingHeaders { stream_id, .. }),
                ) => self.answers.push((self.run.connection.streams[stream_id], answer)),
                _ => self.answers,
            },
        }
    }

    /// The history after these events; `None` where one cannot happen.
    pub open spec fn after<E, B>(self, happenings: Seq<Happening<R, E, F, B>>) -> Option<
        History<R, F>,
    >
        decreases happenings.len(),
    {
        if happenings.len() == 0 {
            Some(self)
        } else {
            match self.after(happenings.drop_last()) {
                Some(history) if history.run.stage.can_meet(happenings.last().event) => Some(
                    history.step(happenings.last()),
                ),
                _ => None,
            }
        }
    }

    /// Whether all that the connection knows was told to it, and all answers are
    /// those of requests on their own streams.
    spec fn is_grounded(self) -> bool {
        &&& forall|stream_id: u64| #[trigger]
            self.run.connection.streams.contains_key(stream_id) ==> self.opened.contains(
                (stream_id, self.run.connection.streams[stream_id]),
            )
        &&& forall|request_id: u64| #[trigger]
            self.run.connection.pending.contains_key(request_id) ==> self.submitted.contains(
                (request_id, self.run.connection.pending[request_id]),
            )
        &&& forall|k: int| 0 <= k < self.answers.len() ==> self.is_routed(#[trigger] self.answers[k])
    }

    /// Whether a response went to whoever submitted its request, and came in on
    /// a stream that was opened for it.
    pub open spec fn is_routed(self, answer: (u64, AnswerView<R>)) -> bool {
        &&& self.submitted.contains((answer.0, answer.1.response))
        &&& self.opened.contains((answer.1.body.stream_id, answer.0))
    }
}

/// How often a request stands in a list.
pub open spec fn times<T>(list: Seq<(u64, T)>, request_id: u64) -> nat
    decreases list.len(),
{
    if list.len() == 0 {
        0
    } else {
        times(list.drop_last(), request_id) + if list.last().0 == request_id {
            1nat
        } else {
            0nat
        }
    }
}

proof fn step_stays_grounded<R, E, F, B>(
    history: History<R, F>,
    happening: Happening<R, E, F, B>,
)
    requires
        history.is_grounded(),
        history.run.stage.can_meet(happening.event),
    ensures
        history.step(happening).is_grounded(),
{
    broadcast use vstd::seq_lib::group_seq_properties;

    let next = history.step(happening);
    assert forall|pair: (u64, u64)| history.opened.contains(pair) implies next.opened.contains(
        pair,
    ) by {}
    assert forall|pair: (u64, R)| history.submitted.contains(
        pair,
    ) implies next.submitted.contains(pair) by {}
    assert forall|k: int| 0 <= k < next.answers.len() implies next.is_routed(
        #[trigger] next.answers[k],
    ) by {
        if k < history.answers.len() {
            assert(history.is_routed(history.answers[k]));
        }
    }
}

proof fn runs_are_grounded<R, E, F, B>(happenings: Seq<Happening<R, E, F, B>>)
    requires
        History::<R, F>::start().after(happenings) is Some,
    ensures
        History::<R, F>::start().after(happenings)->0.is_grounded(),
    decreases happenings.len(),
{
    if happenings.len() > 0 {
        runs_are_grounded::<R, E, F, B>(happenings.drop_last());
        step_stays_grounded(
            History::<R, F>::start().after(happenings.drop_last())->0,
            happenings.last(),
        );
    }
}

/// Every response goes to the client whose request it answers: the stream that
/// it came in on was opened for that request, and the request was submitted with
/// that client as the one to answer.
pub proof fn responses_reach_their_requests<R, E, F, B>(
    happenings: Seq<Happening<R, E, F, B>>,
    k: int,
)
    requires
        History::<R, F>::start().after(happenings) matches Some(history) && 0 <= k
            < history.answers.len(),
    ensures
        History::<R, F>::start().after(happenings)->0.is_routed(
            History::<R, F>::start().after(happenings)->0.answers[k],
        ),
{
    runs_are_grounded::<R, E, F, B>(happenings);
}

/// A request that awaits its response gets it: the first headers that come in
/// on its stream make the response, where each of them is one that a response
/// may hold.
pub proof fn awaited_responses_are_given<R, E, F, B>(
    run: RunView<R, F>,
    ids: RequestIds,
    stream_id: u64,
    headers: Seq<(Seq<u8>, Seq<u8>)>,
    read_fin: bool,
    head: Option<ResponseHead>,
)
    requires
        run.stage is Awaiting,
        run.connection.awaits(stream_id),
        are_response_headers(headers),
        names(h3_response(headers).fields).len() <= ROOMY,
        makes_response(headers, head),
    ensures
        ({
            let event = RunEventView::<R, E, F, B>::Driver(
                ClientH3EventView::IncomingHeaders { stream_id, headers, read_fin },
            );
            let (next, action) = run.next(ids, event, head);
            &&& action matches RunActionView::Answer(answer)
            &&& answer.response == run.connection.pending[run.connection.streams[stream_id]]
            &&& answer.head == h3_response(headers)
            &&& answer.body.stream_id == stream_id
            &&& !next.connection.awaits(stream_id)
        }),
{
}

/// One request's balance of responses, pending or given, and submissions.
spec fn balance<R, F>(history: History<R, F>, request_id: u64) -> int {
    times(history.answers, request_id) - times(history.submitted, request_id) + if
        history.run.connection.pending.contains_key(request_id) {
        1int
    } else {
        0int
    }
}

proof fn balance_does_not_grow<R, E, F, B>(
    history: History<R, F>,
    happenings: Seq<Happening<R, E, F, B>>,
    request_id: u64,
)
    requires
        history.after(happenings) is Some,
    ensures
        balance(history.after(happenings)->0, request_id) <= balance(history, request_id),
        times(history.after(happenings)->0.answers, request_id) >= times(
            history.answers,
            request_id,
        ),
    decreases happenings.len(),
{
    if happenings.len() > 0 {
        balance_does_not_grow(history, happenings.drop_last(), request_id);
        let before = history.after(happenings.drop_last())->0;
        let after = before.step(happenings.last());
        assert(after.answers == before.answers || after.answers.drop_last() =~= before.answers);
        assert(after.submitted == before.submitted || after.submitted.drop_last()
            =~= before.submitted);
    }
}

/// A request is answered at most once: there are never more responses to it
/// than times that it was submitted.
pub proof fn requests_are_answered_once<R, E, F, B>(
    happenings: Seq<Happening<R, E, F, B>>,
    request_id: u64,
)
    requires
        History::<R, F>::start().after(happenings) is Some,
    ensures
        times(History::<R, F>::start().after(happenings)->0.answers, request_id) <= times(
            History::<R, F>::start().after(happenings)->0.submitted,
            request_id,
        ),
{
    balance_does_not_grow::<R, E, F, B>(History::start(), happenings, request_id);
}

/// The id that the last request of a run drew, or -1.
pub open spec fn last_drawn<R, E, F, B>(happenings: Seq<Happening<R, E, F, B>>) -> int
    decreases happenings.len(),
{
    if happenings.len() == 0 {
        -1
    } else if happenings.last().event is Request {
        happenings.last().ids.next as int
    } else {
        last_drawn(happenings.drop_last())
    }
}

/// Whether the requests of a run drew from a source that gives out each id once:
/// every request finds it behind the ids of the requests before.
pub open spec fn draws_grow<R, E, F, B>(happenings: Seq<Happening<R, E, F, B>>) -> bool
    decreases happenings.len(),
{
    happenings.len() > 0 ==> {
        &&& draws_grow(happenings.drop_last())
        &&& happenings.last().event is Request ==> last_drawn(happenings.drop_last())
            < happenings.last().ids.next
    }
}

/// The last id of a run was drawn by one of its requests.
proof fn last_drawn_was_drawn<R, E, F, B>(happenings: Seq<Happening<R, E, F, B>>)
    ensures
        last_drawn(happenings) == -1 || exists|i: int|
            0 <= i < happenings.len() && (#[trigger] happenings[i]).event is Request
                && happenings[i].ids.next == last_drawn(happenings),
    decreases happenings.len(),
{
    if happenings.len() > 0 {
        let before = happenings.drop_last();
        last_drawn_was_drawn(before);
        if happenings.last().event is Request {
            assert(happenings[happenings.len() - 1].event is Request);
        } else if last_drawn(before) != -1 {
            let i = choose|i: int|
                0 <= i < before.len() && (#[trigger] before[i]).event is Request
                    && before[i].ids.next == last_drawn(before);
            assert(happenings[i] == before[i]);
        }
    }
}

/// The requests of a run that draw from one source never draw the same id,
/// however many ids other connections draw in between: `draws` tells for each
/// event how many were drawn before it.
pub proof fn one_source_serves_all<R, E, F, B>(
    source: RequestIds,
    happenings: Seq<Happening<R, E, F, B>>,
    draws: Seq<nat>,
)
    requires
        draws.len() == happenings.len(),
        forall|i: int|
            0 <= i < happenings.len() ==> (#[trigger] happenings[i]).ids == source.after(draws[i])
                && source.next + draws[i] <= u64::MAX,
        forall|i: int, j: int|
            0 <= i < j < happenings.len() && (#[trigger] happenings[i]).event is Request
                ==> draws[i] < #[trigger] draws[j],
    ensures
        draws_grow(happenings),
    decreases happenings.len(),
{
    if happenings.len() > 0 {
        let before = happenings.drop_last();
        let last = happenings.len() - 1;
        assert(forall|i: int| 0 <= i < before.len() ==> before[i] == happenings[i]);
        one_source_serves_all(source, before, draws.drop_last());
        last_drawn_was_drawn(before);
        if happenings.last().event is Request && last_drawn(before) != -1 {
            let i = choose|i: int|
                0 <= i < before.len() && (#[trigger] before[i]).event is Request
                    && before[i].ids.next == last_drawn(before);
            assert(happenings[i].event is Request);
            assert(happenings[last].ids == source.after(draws[last]));
            ids_never_repeat(source, draws[i], draws[last]);
        }
    }
}

/// Whether no two entries of a list are for the same request.
pub open spec fn are_distinct<T>(list: Seq<(u64, T)>) -> bool {
    forall|i: int, j: int|
        0 <= i < j < list.len() ==> (#[trigger] list[i]).0 != (#[trigger] list[j]).0
}

/// Whether the submitted ids grow, up to `bound`.
spec fn are_growing<T>(list: Seq<(u64, T)>, bound: int) -> bool {
    &&& forall|i: int, j: int|
        0 <= i < j < list.len() ==> (#[trigger] list[i]).0 < (#[trigger] list[j]).0
    &&& forall|i: int| 0 <= i < list.len() ==> (#[trigger] list[i]).0 <= bound
}

proof fn submissions_grow<R, E, F, B>(happenings: Seq<Happening<R, E, F, B>>)
    requires
        History::<R, F>::start().after(happenings) is Some,
        draws_grow(happenings),
    ensures
        ({
            let history = History::<R, F>::start().after(happenings)->0;
            match history.run.stage {
                RunStage::Submitting { request_id, .. } => request_id == last_drawn(happenings)
                    && are_growing(history.submitted, request_id - 1),
                _ => are_growing(history.submitted, last_drawn(happenings)),
            }
        }),
    decreases happenings.len(),
{
    if happenings.len() > 0 {
        submissions_grow(happenings.drop_last());
    }
}

/// Where requests draw their ids from a source that gives out each once, no two
/// submissions have the same id.
pub proof fn submissions_are_distinct<R, E, F, B>(happenings: Seq<Happening<R, E, F, B>>)
    requires
        History::<R, F>::start().after(happenings) is Some,
        draws_grow(happenings),
    ensures
        are_distinct(History::<R, F>::start().after(happenings)->0.submitted),
{
    submissions_grow(happenings);
}

/// Where no two submissions have the same id, none replaces a request that
/// awaits its response: the one that is submitted was not pending.
pub proof fn submissions_replace_nothing<R, E, F, B>(
    happenings: Seq<Happening<R, E, F, B>>,
    submission: Happening<R, E, F, B>,
)
    requires
        submission.event is Submitted,
        History::<R, F>::start().after(happenings) matches Some(history)
            && history.run.stage is Submitting && are_distinct(history.step(submission).submitted),
    ensures
        ({
            let history = History::<R, F>::start().after(happenings)->0;
            let request_id = history.run.stage->request_id;
            &&& !history.run.connection.pending.contains_key(request_id)
            &&& forall|other: u64| #[trigger]
                history.run.connection.pending.contains_key(other) ==> {
                    &&& history.step(submission).run.connection.pending.contains_key(other)
                    &&& history.step(submission).run.connection.pending[other]
                        == history.run.connection.pending[other]
                }
        }),
{
    runs_are_grounded::<R, E, F, B>(happenings);
    let history = History::<R, F>::start().after(happenings)->0;
    let request_id = history.run.stage->request_id;
    let after = history.step(submission).submitted;
    if history.run.connection.pending.contains_key(request_id) {
        let entry = (request_id, history.run.connection.pending[request_id]);
        assert(history.submitted.contains(entry));
        let i = choose|i: int| 0 <= i < history.submitted.len() && history.submitted[i] == entry;
        assert(after[i].0 == request_id);
        assert(after[after.len() - 1].0 == request_id);
    }
}

/// Where no two submissions have the same id, a response goes to the one client
/// that submitted its request, and no other response does.
pub proof fn responses_reach_one_client<R, E, F, B>(
    happenings: Seq<Happening<R, E, F, B>>,
    k: int,
)
    requires
        History::<R, F>::start().after(happenings) matches Some(history) && 0 <= k
            < history.answers.len() && are_distinct(history.submitted),
    ensures
        ({
            let history = History::<R, F>::start().after(happenings)->0;
            let answer = history.answers[k];
            &&& history.submitted.contains((answer.0, answer.1.response))
            &&& forall|client: R| #[trigger]
                history.submitted.contains((answer.0, client)) ==> client == answer.1.response
            &&& times(history.answers, answer.0) == 1
        }),
{
    responses_reach_their_requests::<R, E, F, B>(happenings, k);
    let history = History::<R, F>::start().after(happenings)->0;
    let answer = history.answers[k];
    requests_are_answered_once::<R, E, F, B>(happenings, answer.0);
    distinct_stand_once(history.submitted, answer.0);
    listed_stand(history.answers, k);
    let i = choose|i: int|
        0 <= i < history.submitted.len() && history.submitted[i] == (answer.0, answer.1.response);
    assert forall|client: R| #[trigger] history.submitted.contains((answer.0, client)) implies client
        == answer.1.response by {
        let j = choose|j: int|
            0 <= j < history.submitted.len() && history.submitted[j] == (answer.0, client);
        if i < j {
            assert(history.submitted[i].0 != history.submitted[j].0);
        } else if j < i {
            assert(history.submitted[j].0 != history.submitted[i].0);
        }
    }
}

/// In a list of different requests each stands at most once.
proof fn distinct_stand_once<T>(list: Seq<(u64, T)>, request_id: u64)
    requires
        are_distinct(list),
    ensures
        times(list, request_id) <= 1,
        times(list, request_id) == 1 ==> exists|i: int|
            0 <= i < list.len() && (#[trigger] list[i]).0 == request_id,
    decreases list.len(),
{
    if list.len() > 0 {
        let before = list.drop_last();
        assert(forall|i: int| 0 <= i < before.len() ==> before[i] == list[i]);
        distinct_stand_once(before, request_id);
        if times(before, request_id) == 1 {
            let i = choose|i: int| 0 <= i < before.len() && (#[trigger] before[i]).0 == request_id;
            assert(list[i].0 == request_id);
            assert(list[i].0 != list[list.len() - 1].0);
        } else if list.last().0 == request_id {
            assert(list[list.len() - 1].0 == request_id);
        }
    }
}

/// What stands in a list stands there at least once.
proof fn listed_stand<T>(list: Seq<(u64, T)>, k: int)
    requires
        0 <= k < list.len(),
    ensures
        times(list, list[k].0) >= 1,
    decreases list.len(),
{
    if k < list.len() - 1 {
        listed_stand(list.drop_last(), k);
    }
}

/// A request whose stream was reset is not answered any more, unless it is
/// submitted anew.
pub proof fn reset_requests_get_no_response<R, E, F, B>(
    history: History<R, F>,
    reset: Happening<R, E, F, B>,
    happenings: Seq<Happening<R, E, F, B>>,
    stream_id: u64,
)
    requires
        reset.event == RunEventView::<R, E, F, B>::Driver(
            ClientH3EventView::ResetStream { stream_id },
        ),
        history.run.connection.streams.contains_key(stream_id),
        history.step(reset).after(happenings) matches Some(after) && times(
            after.submitted,
            history.run.connection.streams[stream_id],
        ) == times(history.submitted, history.run.connection.streams[stream_id]),
    ensures
        times(
            history.step(reset).after(happenings)->0.answers,
            history.run.connection.streams[stream_id],
        ) == times(history.answers, history.run.connection.streams[stream_id]),
{
    balance_does_not_grow(
        history.step(reset),
        happenings,
        history.run.connection.streams[stream_id],
    );
}

/// Whether settings come in with an event.
pub open spec fn brings_settings<R, E, F, B>(event: RunEventView<R, E, F, B>) -> bool {
    event matches RunEventView::Driver(driver) && driver is IncomingSettings
}

/// The peer's settings are set once: they never change again, and other ones
/// that come in end the connection.
pub proof fn settings_are_set_once<R, E, F, B>(
    history: History<R, F>,
    happenings: Seq<Happening<R, E, F, B>>,
)
    requires
        history.run.connection.settings is Some,
        history.after(happenings) is Some,
    ensures
        history.after(happenings)->0.run.connection.settings == history.run.connection.settings,
        forall|k: int|
            0 <= k < happenings.len() && brings_settings(#[trigger] happenings[k].event) ==> k == happenings.len() - 1 && history.after(happenings)->0.run.stage is Over,
    decreases happenings.len(),
{
    if happenings.len() > 0 {
        let before = happenings.drop_last();
        settings_are_set_once(history, before);
        assert(forall|k: int| 0 <= k < before.len() ==> before[k] == happenings[k]);
    }
}

/// The loop ends well only when the driver is gone or the connection was
/// cancelled; each error ends it, and it reports that error.
pub proof fn errors_end_the_run<R, E, F, B>(
    run: RunView<R, F>,
    happening: Happening<R, E, F, B>,
)
    requires
        run.stage.can_meet(happening.event),
    ensures
        ({
            let (next, action) = run.next(happening.ids, happening.event, happening.head);
            &&& next.stage is Over <==> action is Finish
            &&& action == RunActionView::<R, E, B>::Finish(Ok(())) <==> happening.event
                is DriverClosed || happening.event is Closed
            &&& happening.event is SubmitFailed ==> action == RunActionView::<R, E, B>::Finish(
                Err(RunErrorView::NotSubmitted),
            )
            &&& happening.event matches RunEventView::Driver(event) ==> (run.connection.handle(
                event,
                happening.head,
            ).1 matches Err(error) ==> action == RunActionView::<R, E, B>::Finish(
                Err(RunErrorView::Event(error)),
            ))
        }),
{
}

/// The loop takes an event from the source that goes first, and from no other: a
/// request waits while the driver has something to tell, a shutdown while either
/// has, and a cancellation while any of them has. With nothing ready it waits.
pub proof fn the_driver_goes_first(ready: ReadySources, source: Source)
    ensures
        ready.first_source() == Some(source) <==> {
            &&& match source {
                Source::Driver => ready.driver,
                Source::Request => ready.request,
                Source::Shutdown => ready.shutdown,
                Source::Cancellation => ready.cancellation,
            }
            &&& source != Source::Driver ==> !ready.driver
            &&& source == Source::Shutdown || source == Source::Cancellation ==> !ready.request
            &&& source == Source::Cancellation ==> !ready.shutdown
        },
        ready.first_source() == Some(source) ==> ready.has(source),
        ready.first_source() is None <==> !ready.driver && !ready.request && !ready.shutdown
            && !ready.cancellation,
{
}

/// While the loop awaits, whatever source goes first has an event that it takes;
/// at any other time it takes none from there.
pub proof fn awaited_events_have_a_source<R, E, F, B>(
    stage: RunStage<R>,
    event: RunEventView<R, E, F, B>,
)
    ensures
        stage is Awaiting ==> (stage.can_meet(event) <==> event.source() is Some),
        !(stage is Awaiting) && stage.can_meet(event) ==> event.source() is None,
{
}

/// A GOAWAY ends the loop, so that no new request is sent, and leaves the
/// connection as it is.
pub proof fn goaway_ends_the_run<R, E, F, B>(
    run: RunView<R, F>,
    ids: RequestIds,
    head: Option<ResponseHead>,
)
    ensures
        run.next(ids, RunEventView::<R, E, F, B>::Driver(ClientH3EventView::GoAway), head) == (
            RunView { stage: RunStage::Over, ..run },
            RunActionView::<R, E, B>::Finish(Err(RunErrorView::Event(EventErrorView::GoAway))),
        ),
{
}

} // verus!
