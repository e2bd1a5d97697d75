//! Sending the body of a request: the chunks that it comes in become frames.

use vstd::prelude::*;

use super::frame::{bytes_view, joined, FrameView, OutboundFrame, MAX_BUF_SIZE};

verus! {

/// What a transfer is at.
#[derive(Debug, Clone, Copy, PartialEq, Eq, Structural)]
pub enum TransferStage {
    /// The body's next chunk is awaited.
    AwaitingChunk,
    /// A part of a chunk is being sent.
    SendingChunk,
    /// The end of the body is being sent.
    SendingEnd,
    /// The failure of the body is being sent.
    SendingFailure,
    Over,
}

/// The transfer of a body.
#[derive(Debug)]
pub struct Transfer {
    /// What is left of the chunk that is being sent.
    pub rest: bytes::Bytes,
    pub stage: TransferStage,
}

/// What can happen to a transfer.
#[derive(Debug)]
pub enum TransferEvent {
    /// The body has more data.
    Chunk(bytes::Bytes),
    /// The body failed.
    Failed,
    /// The body is complete.
    End,
    Sent,
    SendFailed,
}

/// What to do next for a transfer.
#[derive(Debug)]
pub enum TransferAction {
    NextChunk,
    Send(OutboundFrame),
    /// The transfer is over; the body was sent whole or was not.
    Finish(bool),
}

/// A transfer over plain sequences.
pub struct TransferView {
    pub rest: Seq<u8>,
    pub stage: TransferStage,
}

/// What can happen to a transfer, over plain sequences.
pub enum TransferEventView {
    Chunk(Seq<u8>),
    Failed,
    End,
    Sent,
    SendFailed,
}

/// What to do next for a transfer, over plain sequences.
pub enum TransferActionView {
    NextChunk,
    Send(FrameView),
    Finish(bool),
}

impl View for Transfer {
    type V = TransferView;

    open spec fn view(&self) -> TransferView {
        TransferView { rest: bytes_view(self.rest), stage: self.stage }
    }
}

impl View for TransferEvent {
    type V = TransferEventView;

    open spec fn view(&self) -> TransferEventView {
        match self {
            TransferEvent::Chunk(data) => TransferEventView::Chunk(bytes_view(*data)),
            TransferEvent::Failed => TransferEventView::Failed,
            TransferEvent::End => TransferEventView::End,
            TransferEvent::Sent => TransferEventView::Sent,
            TransferEvent::SendFailed => TransferEventView::SendFailed,
        }
    }
}

impl View for TransferAction {
    type V = TransferActionView;

    open spec fn view(&self) -> TransferActionView {
        match self {
            TransferAction::NextChunk => TransferActionView::NextChunk,
            TransferAction::Send(frame) => TransferActionView::Send(frame@),
            TransferAction::Finish(whole) => TransferActionView::Finish(*whole),
        }
    }
}

impl TransferView {
    /// Whether `event` can happen to the transfer.
    pub open spec fn can_meet(self, event: TransferEventView) -> bool {
        match self.stage {
            TransferStage::AwaitingChunk => event is Chunk || event is Failed || event is End,
            TransferStage::Over => false,
            _ => event is Sent || event is SendFailed,
        }
    }

    /// The transfer at `stage`, with `rest` left of the chunk.
    pub open spec fn at(rest: Seq<u8>, stage: TransferStage) -> TransferView {
        TransferView { rest, stage }
    }

    /// How a transfer goes on with `rest` left of a chunk: it sends the front of
    /// it, at most `MAX_BUF_SIZE` bytes, or asks for the next chunk where nothing
    /// is left.
    pub open spec fn send_rest(rest: Seq<u8>) -> (TransferView, TransferActionView) {
        let len = if rest.len() <= MAX_BUF_SIZE {
            rest.len() as int
        } else {
            MAX_BUF_SIZE as int
        };
        if rest.len() == 0 {
            (Self::at(rest, TransferStage::AwaitingChunk), TransferActionView::NextChunk)
        } else {
            (
                Self::at(rest.skip(len), TransferStage::SendingChunk),
                TransferActionView::Send(FrameView::Body(rest.take(len), false)),
            )
        }
    }

    /// How a transfer goes on from an event.
    pub open spec fn next(self, event: TransferEventView) -> (TransferView, TransferActionView) {
        match event {
            TransferEventView::Chunk(data) => Self::send_rest(data),
            TransferEventView::Failed => (
                Self::at(self.rest, TransferStage::SendingFailure),
                TransferActionView::Send(FrameView::PeerStreamError),
            ),
            TransferEventView::End => (
                Self::at(self.rest, TransferStage::SendingEnd),
                TransferActionView::Send(FrameView::Body(Seq::empty(), true)),
            ),
            TransferEventView::Sent if self.stage == TransferStage::SendingChunk => {
                Self::send_rest(self.rest)
            },
            TransferEventView::Sent => (
                Self::at(self.rest, TransferStage::Over),
                TransferActionView::Finish(self.stage == TransferStage::SendingEnd),
            ),
            TransferEventView::SendFailed => (
                Self::at(self.rest, TransferStage::Over),
                TransferActionView::Finish(false),
            ),
        }
    }
}

impl Transfer {
    /// A new transfer, and the first thing to do for it.
    pub fn start() -> (started: (Transfer, TransferAction))
        ensures
            started.0@ == TransferView::at(Seq::empty(), TransferStage::AwaitingChunk),
            started.1@ == TransferActionView::NextChunk,
    {
        (
            Transfer { rest: bytes::Bytes::new(), stage: TransferStage::AwaitingChunk },
            TransferAction::NextChunk,
        )
    }

    /// Whether `event` can happen to the transfer.
    pub fn accepts(&self, event: &TransferEvent) -> (accepted: bool)
        ensures
            accepted == self@.can_meet(event@),
    {
        match self.stage {
            TransferStage::AwaitingChunk => matches!(
                event,
                TransferEvent::Chunk(_) | TransferEvent::Failed | TransferEvent::End
            ),
            TransferStage::Over => false,
            _ => matches!(event, TransferEvent::Sent | TransferEvent::SendFailed),
        }
    }

    /// Sends the front of what is left of the chunk, or asks for the next one.
    fn send_rest(&mut self) -> (action: TransferAction)
        ensures
            (final(self)@, action@) == TransferView::send_rest(old(self)@.rest),
    {
        let left = self.rest.len();
        if left == 0 {
            self.stage = TransferStage::AwaitingChunk;
            return TransferAction::NextChunk;
        }
        let len = if left <= MAX_BUF_SIZE {
            left
        } else {
            MAX_BUF_SIZE
        };
        let front = self.rest.split_to(len);
        self.stage = TransferStage::SendingChunk;
        TransferAction::Send(OutboundFrame::Body(front, false))
    }

    /// Goes on from an event.
    pub fn send_hyper_body(&mut self, event: TransferEvent) -> (action: TransferAction)
        requires
            old(self)@.can_meet(event@),
        ensures
            (final(self)@, action@) == old(self)@.next(event@),
    {
        match event {
            TransferEvent::Chunk(data) => {
                self.rest = data;
                self.send_rest()
            },
            TransferEvent::Failed => {
                self.stage = TransferStage::SendingFailure;
                TransferAction::Send(OutboundFrame::PeerStreamError)
            },
            TransferEvent::End => {
                self.stage = TransferStage::SendingEnd;
                TransferAction::Send(OutboundFrame::Body(bytes::Bytes::new(), true))
            },
            TransferEvent::Sent => {
                match self.stage {
                    TransferStage::SendingChunk => self.send_rest(),
                    TransferStage::SendingEnd => {
                        self.stage = TransferStage::Over;
                        TransferAction::Finish(true)
                    },
                    _ => {
                        self.stage = TransferStage::Over;
                        TransferAction::Finish(false)
                    },
                }
            },
            TransferEvent::SendFailed => {
                self.stage = TransferStage::Over;
                TransferAction::Finish(false)
            },
        }
    }
}

/// How far a transfer has come.
pub struct TransferRun {
    pub transfer: TransferView,
    pub action: TransferActionView,
    /// The data of all chunks that the body came in.
    pub given: Seq<u8>,
    /// Whether the body failed.
    pub failed: bool,
    /// The frames that were sent.
    pub frames: Seq<FrameView>,
}

impl TransferRun {
    /// The transfer after one more event.
    pub open spec fn step(self, event: TransferEventView) -> TransferRun {
        let (transfer, action) = self.transfer.next(event);
        TransferRun {
            transfer,
            action,
            given: match event {
                TransferEventView::Chunk(data) => self.given + data,
                _ => self.given,
            },
            failed: self.failed || event is Failed,
            frames: match self.action {
                TransferActionView::Send(frame) if event is Sent => self.frames.push(frame),
                _ => self.frames,
            },
        }
    }
}

/// A whole transfer; `None` where an event cannot happen.
pub open spec fn transfer_run(events: Seq<TransferEventView>) -> Option<TransferRun>
    decreases events.len(),
{
    if events.len() == 0 {
        Some(
            TransferRun {
                transfer: TransferView::at(Seq::empty(), TransferStage::AwaitingChunk),
                action: TransferActionView::NextChunk,
                given: Seq::empty(),
                failed: false,
                frames: Seq::empty(),
            },
        )
    } else {
        match transfer_run(events.drop_last()) {
            Some(run) if run.transfer.can_meet(events.last()) => Some(run.step(events.last())),
            _ => None,
        }
    }
}

/// Whether a frame carries data and does not end the body.
pub open spec fn is_part(frame: FrameView) -> bool {
    frame matches FrameView::Body(data, fin) && 0 < data.len() <= MAX_BUF_SIZE && !fin
}

/// The data of the frame that is being sent.
spec fn under_way(run: TransferRun) -> Seq<u8> {
    if run.transfer.stage == TransferStage::SendingChunk {
        run.action->Send_0->Body_0
    } else {
        Seq::empty()
    }
}

/// Whether all frames carry data and none of them ends the body.
pub open spec fn are_parts(frames: Seq<FrameView>) -> bool {
    forall|i: int| 0 <= i < frames.len() ==> is_part(#[trigger] frames[i])
}

/// The frame that ends a transfer.
pub open spec fn last_frame(failed: bool) -> FrameView {
    if failed {
        FrameView::PeerStreamError
    } else {
        FrameView::Body(Seq::empty(), true)
    }
}

spec fn transfer_shape(run: TransferRun) -> bool {
    if run.transfer.stage == TransferStage::Over {
        ||| {
            &&& run.action == TransferActionView::Finish(false)
            &&& are_parts(run.frames)
            &&& joined(run.frames).is_prefix_of(run.given)
        }
        ||| {
            &&& run.action == TransferActionView::Finish(!run.failed)
            &&& run.frames.len() > 0
            &&& are_parts(run.frames.drop_last())
            &&& run.frames.last() == last_frame(run.failed)
            &&& joined(run.frames) == run.given
        }
    } else {
        &&& are_parts(run.frames)
        &&& joined(run.frames) + under_way(run) + run.transfer.rest == run.given
        &&& run.failed <==> run.transfer.stage == TransferStage::SendingFailure
        &&& match run.transfer.stage {
            TransferStage::AwaitingChunk => run.action is NextChunk && run.transfer.rest.len() == 0,
            TransferStage::SendingChunk => run.action is Send && is_part(run.action->Send_0),
            _ => run.action == TransferActionView::Send(last_frame(run.failed))
                && run.transfer.rest.len() == 0,
        }
    }
}

proof fn transfer_step_keeps_shape(run: TransferRun, event: TransferEventView)
    requires
        transfer_shape(run),
        run.transfer.can_meet(event),
    ensures
        transfer_shape(run.step(event)),
{
    let next = run.step(event);
    let rest = run.transfer.rest;
    match event {
        TransferEventView::Chunk(data) => {
            assert(joined(run.frames) + under_way(run) + rest =~= joined(run.frames));
            assert(next.frames =~= run.frames);
            assert(under_way(next) + next.transfer.rest =~= data);
            assert(joined(next.frames) + under_way(next) + next.transfer.rest =~= joined(run.frames)
                + (under_way(next) + next.transfer.rest));
        },
        TransferEventView::Sent => {
            assert(next.frames.drop_last() =~= run.frames);
            assert(next.frames.last() == run.action->Send_0);
            if run.transfer.stage == TransferStage::SendingChunk {
                assert(joined(next.frames) == joined(run.frames) + under_way(run));
                assert(under_way(next) + next.transfer.rest =~= rest);
                assert(joined(next.frames) + under_way(next) + next.transfer.rest =~= joined(
                    next.frames,
                ) + (under_way(next) + next.transfer.rest));
            } else {
                assert(joined(run.frames) + under_way(run) + rest =~= joined(run.frames));
                assert(joined(next.frames) =~= joined(run.frames));
            }
        },
        TransferEventView::SendFailed => {
            assert(joined(run.frames) + under_way(run) + rest =~= joined(run.frames) + (under_way(
                run,
            ) + rest));
        },
        _ => {
            assert(joined(next.frames) + under_way(next) + next.transfer.rest =~= joined(run.frames)
                + under_way(run) + rest);
        },
    }
}

proof fn transfer_run_has_shape(events: Seq<TransferEventView>)
    requires
        transfer_run(events) is Some,
    ensures
        transfer_shape(transfer_run(events)->0),
    decreases events.len(),
{
    if events.len() == 0 {
        let run = transfer_run(events)->0;
        assert(joined(run.frames) + under_way(run) + run.transfer.rest =~= run.given);
    } else {
        transfer_run_has_shape(events.drop_last());
        transfer_step_keeps_shape(transfer_run(events.drop_last())->0, events.last());
    }
}

/// A body that was sent whole went out complete and in order: the frames' data,
/// one behind the other, is that of the chunks, every frame but the last one
/// carries data, and the last one carries none and ends the body.
pub proof fn whole_bodies_are_sent(events: Seq<TransferEventView>)
    requires
        transfer_run(events) matches Some(run) && run.action == TransferActionView::Finish(true),
    ensures
        ({
            let run = transfer_run(events)->0;
            &&& joined(run.frames) == run.given
            &&& run.frames.len() > 0
            &&& are_parts(run.frames.drop_last())
            &&& run.frames.last() == FrameView::Body(Seq::empty(), true)
        }),
{
    transfer_run_has_shape(events);
}

/// Whatever happens, what was sent is a prefix of what the body came in, and
/// only the last frame can be one that ends the body.
pub proof fn transfers_keep_order(events: Seq<TransferEventView>)
    requires
        transfer_run(events) is Some,
    ensures
        joined(transfer_run(events)->0.frames).is_prefix_of(transfer_run(events)->0.given),
        transfer_run(events)->0.frames.len() > 0 ==> are_parts(
            transfer_run(events)->0.frames.drop_last(),
        ),
{
    transfer_run_has_shape(events);
    let run = transfer_run(events)->0;
    if run.transfer.stage != TransferStage::Over {
        assert(joined(run.frames) + under_way(run) + run.transfer.rest =~= joined(run.frames) + (
        under_way(run) + run.transfer.rest));
    }
    if run.frames.len() > 0 && are_parts(run.frames) {
        assert forall|i: int| 0 <= i < run.frames.drop_last().len() implies is_part(
            #[trigger] run.frames.drop_last()[i],
        ) by {
            assert(run.frames.drop_last()[i] == run.frames[i]);
        }
    }
}

/// The peer learns of a body that failed, unless nothing can be sent any more:
/// the last frame tells it, and never that the body is complete.
pub proof fn failed_bodies_are_not_ended(events: Seq<TransferEventView>)
    requires
        transfer_run(events) matches Some(run) && run.failed,
    ensures
        ({
            let run = transfer_run(events)->0;
            &&& run.action != TransferActionView::Finish(true)
            &&& run.action is Finish ==> are_parts(run.frames) || run.frames.last()
                == FrameView::PeerStreamError
            &&& forall|i: int|
                0 <= i < run.frames.len() ==> !((#[trigger] run.frames[i]) matches FrameView::Body(
                    _,
                    fin,
                ) && fin)
        }),
{
    transfer_run_has_shape(events);
    let run = transfer_run(events)->0;
    assert forall|i: int| 0 <= i < run.frames.len() implies !((
    #[trigger] run.frames[i]) matches FrameView::Body(_, fin) && fin) by {
        if i < run.frames.len() - 1 && !are_parts(run.frames) {
            assert(is_part(run.frames.drop_last()[i]));
        }
    }
}

/// A transfer waits for the outcome of what it did last, and for nothing else:
/// asked for the next chunk, a body has one, has ended or has failed, and a frame
/// is sent or is not. A transfer that is over meets nothing.
pub proof fn transfers_await_their_outcome(
    events: Seq<TransferEventView>,
    event: TransferEventView,
)
    requires
        transfer_run(events) is Some,
    ensures
        transfer_run(events.push(event)) is Some <==> (match transfer_run(events)->0.action {
            TransferActionView::NextChunk => event is Chunk || event is Failed || event is End,
            TransferActionView::Send(_) => event is Sent || event is SendFailed,
            TransferActionView::Finish(_) => false,
        }),
{
    transfer_run_has_shape(events);
    assert(events.push(event).drop_last() =~= events);
}

/// What a transfer does next is settled by what happened. What of the chunks was
/// not sent yet goes out next, as much of it as a frame holds; where nothing is
/// left the next chunk is asked for. The end of the body and its failure are
/// passed on, and end the transfer once they are sent, as does a frame that
/// cannot be.
pub proof fn chunks_are_passed_on(events: Seq<TransferEventView>, event: TransferEventView)
    requires
        transfer_run(events.push(event)) is Some,
    ensures
        ({
            let before = transfer_run(events)->0;
            let after = transfer_run(events.push(event))->0;
            let left = after.given.skip(joined(after.frames).len() as int);
            let next = if left.len() == 0 {
                TransferActionView::NextChunk
            } else if left.len() <= MAX_BUF_SIZE {
                TransferActionView::Send(FrameView::Body(left, false))
            } else {
                TransferActionView::Send(
                    FrameView::Body(left.take(MAX_BUF_SIZE as int), false),
                )
            };
            match event {
                TransferEventView::Chunk(_) => after.action == next,
                TransferEventView::End => after.action == TransferActionView::Send(
                    FrameView::Body(Seq::empty(), true),
                ),
                TransferEventView::Failed => after.action == TransferActionView::Send(
                    FrameView::PeerStreamError,
                ),
                TransferEventView::SendFailed => after.action == TransferActionView::Finish(false),
                TransferEventView::Sent => match before.action {
                    TransferActionView::Send(FrameView::PeerStreamError) => after.action
                        == TransferActionView::Finish(false),
                    TransferActionView::Send(FrameView::Body(_, true)) => after.action
                        == TransferActionView::Finish(true),
                    _ => after.action == next,
                },
            }
        }),
{
    assert(events.push(event).drop_last() =~= events);
    transfer_run_has_shape(events);
    transfer_run_has_shape(events.push(event));
    let before = transfer_run(events)->0;
    let after = transfer_run(events.push(event))->0;
    let sent = joined(after.frames);
    let left = after.given.skip(sent.len() as int);
    if after.transfer.stage == TransferStage::SendingChunk || after.transfer.stage
        == TransferStage::AwaitingChunk {
        assert(left =~= under_way(after) + after.transfer.rest);
        if after.transfer.stage == TransferStage::SendingChunk {
            match event {
                TransferEventView::Chunk(data) => {
                    assert(under_way(after) + after.transfer.rest =~= data);
                    assert(data.take(data.len() as int) =~= data);
                },
                _ => {
                    let rest = before.transfer.rest;
                    assert(under_way(after) + after.transfer.rest =~= rest);
                    assert(rest.take(rest.len() as int) =~= rest);
                },
            }
        }
    }
}

/// A transfer fails only where the body failed or a frame could not be sent.
pub proof fn transfers_fail_for_a_reason(events: Seq<TransferEventView>)
    requires
        transfer_run(events) is Some,
        transfer_run(events)->0.action is Finish,
    ensures
        transfer_run(events)->0.action == TransferActionView::Finish(
            !transfer_run(events)->0.failed && !(events.last() is SendFailed),
        ),
{
    transfer_run_has_shape(events);
    transfer_run_has_shape(events.drop_last());
}

/// The views of a transfer's events and actions say what they hold.
pub proof fn transfer_views_are_faithful(event: TransferEvent, action: TransferAction)
    ensures
        event matches TransferEvent::Chunk(data) ==> event@ == TransferEventView::Chunk(
            bytes_view(data),
        ),
        event is Failed <==> event@ is Failed,
        event is End <==> event@ is End,
        event is Sent <==> event@ is Sent,
        event is SendFailed <==> event@ is SendFailed,
        action matches TransferAction::Send(frame) ==> action@ == TransferActionView::Send(frame@),
        action matches TransferAction::Finish(whole) ==> action@ == TransferActionView::Finish(
            whole,
        ),
        action is NextChunk <==> action@ is NextChunk,
{
}

} // verus!
