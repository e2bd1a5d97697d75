//! What holds of whole calls that write to a body.

use vstd::prelude::*;

use super::body::{chunk_end, H3WriteError, Write, WriteActionView, WriteEvent, WritePoll, WriteStage};
use super::frame::{joined, FrameView, MAX_BUF_SIZE};

verus! {

/// How far a call that writes has come, and the frames that were sent for it.
pub struct WriteRun {
    pub wrote_fin: bool,
    pub call: Write,
    pub action: Option<WriteActionView>,
    pub frames: Seq<FrameView>,
}

impl WriteRun {
    /// The call after one more event. A frame counts as sent once its sending
    /// has succeeded.
    pub open spec fn step(self, buf: Seq<u8>, event: WriteEvent) -> WriteRun {
        let (wrote_fin, (call, action)) = self.call.next(self.wrote_fin, buf, event);
        WriteRun {
            wrote_fin,
            call,
            action: Some(action),
            frames: match self.action {
                Some(WriteActionView::Send(frame)) if event == WriteEvent::Sent => {
                    self.frames.push(frame)
                },
                _ => self.frames,
            },
        }
    }
}

/// A whole call that writes `buf` to a body; `None` where an event cannot
/// happen.
pub open spec fn write_run(
    wrote_fin: bool,
    fin: bool,
    buf: Seq<u8>,
    events: Seq<WriteEvent>,
) -> Option<WriteRun>
    decreases events.len(),
{
    if events.len() == 0 {
        Some(
            WriteRun {
                wrote_fin,
                call: Write { fin, sent: None, stage: WriteStage::New },
                action: None,
                frames: Seq::empty(),
            },
        )
    } else {
        match write_run(wrote_fin, fin, buf, events.drop_last()) {
            Some(run) if run.call.can_meet(events.last()) => Some(run.step(buf, events.last())),
            _ => None,
        }
    }
}

/// Whether a frame carries data and ends the body just as `fin` says.
pub open spec fn is_data(frame: FrameView, fin: bool) -> bool {
    frame matches FrameView::Body(data, ends) && data.len() <= MAX_BUF_SIZE && ends == fin
}

spec fn write_shape(wrote_fin: bool, fin: bool, buf: Seq<u8>, run: WriteRun) -> bool {
    &&& run.call.fin == fin
    &&& run.call.fits(buf)
    &&& run.call.stage == WriteStage::New <==> run.action is None
    &&& run.call.stage == WriteStage::Reserving ==> run.action == Some(WriteActionView::Reserve)
    &&& run.call.stage == WriteStage::Sending ==> run.action == Some(
        WriteActionView::Send(run.call.frame(buf)),
    )
    &&& run.call.stage == WriteStage::Over <==> (run.action matches Some(
        WriteActionView::Return(_),
    ))
    &&& wrote_fin ==> run.wrote_fin && run.frames.len() == 0 && run.call.sent is None && (
    run.call.stage == WriteStage::New || run.action == Some(
        WriteActionView::Return(WritePoll::Ready(Err(H3WriteError::WroteFin))),
    ))
    &&& !wrote_fin && !run.wrote_fin ==> {
        &&& joined(run.frames) == buf.take(run.call.offset())
        &&& forall|i: int| 0 <= i < run.frames.len() ==> is_data(#[trigger] run.frames[i], false)
        &&& run.call.sent is None <==> run.frames.len() == 0
        &&& run.action matches Some(WriteActionView::Return(WritePoll::Ready(Ok(_))))
            ==> run.call.sent is Some || !run.call.has_chunk(buf)
        &&& run.action matches Some(WriteActionView::Return(WritePoll::Pending))
            ==> run.call.sent is None
    }
    &&& !wrote_fin && run.wrote_fin ==> {
        &&& fin
        &&& run.call.stage == WriteStage::Over
        &&& run.frames.len() > 0
        &&& joined(run.frames) == buf
        &&& joined(run.frames.drop_last()) == buf.take(run.call.offset())
        &&& is_data(run.frames.last(), true)
        &&& forall|i: int|
            0 <= i < run.frames.len() - 1 ==> is_data(#[trigger] run.frames[i], false)
        &&& run.action matches Some(WriteActionView::Return(WritePoll::Ready(Ok(_))))
    }
    &&& !wrote_fin ==> (run.action matches Some(WriteActionView::Return(WritePoll::Ready(Ok(n))))
        ==> n == run.call.offset())
    &&& run.action matches Some(WriteActionView::Return(WritePoll::Ready(Err(error)))) ==> error
        == if wrote_fin {
        H3WriteError::WroteFin
    } else {
        H3WriteError::NoStreamState
    }
}

proof fn sent_keeps_shape(wrote_fin: bool, fin: bool, buf: Seq<u8>, run: WriteRun)
    requires
        write_shape(wrote_fin, fin, buf, run),
        run.call.stage == WriteStage::Sending,
        buf.len() <= usize::MAX,
    ensures
        write_shape(wrote_fin, fin, buf, run.step(buf, WriteEvent::Sent)),
{
    let next = run.step(buf, WriteEvent::Sent);
    let start = run.call.offset();
    let end = chunk_end(buf, start);
    assert(!wrote_fin && !run.wrote_fin);
    assert(next.frames.drop_last() =~= run.frames);
    assert(joined(next.frames) == joined(run.frames) + buf.subrange(start, end));
    assert(buf.take(start) + buf.subrange(start, end) =~= buf.take(end));
    assert(buf.take(buf.len() as int) =~= buf);
    assert(forall|i: int|
        0 <= i < run.frames.len() ==> is_data(#[trigger] next.frames[i], false)) by {
        assert(forall|i: int|
            0 <= i < run.frames.len() ==> #[trigger] next.frames[i] == run.frames[i]);
    }
    assert(is_data(next.frames.last(), run.call.closes(buf)));
}

proof fn other_events_keep_shape(
    wrote_fin: bool,
    fin: bool,
    buf: Seq<u8>,
    run: WriteRun,
    event: WriteEvent,
)
    requires
        write_shape(wrote_fin, fin, buf, run),
        run.call.can_meet(event),
        event != WriteEvent::Sent,
        buf.len() <= usize::MAX,
    ensures
        write_shape(wrote_fin, fin, buf, run.step(buf, event)),
{
}

proof fn write_run_has_shape(wrote_fin: bool, fin: bool, buf: Seq<u8>, events: Seq<WriteEvent>)
    requires
        write_run(wrote_fin, fin, buf, events) is Some,
        buf.len() <= usize::MAX,
    ensures
        write_shape(wrote_fin, fin, buf, write_run(wrote_fin, fin, buf, events)->0),
    decreases events.len(),
{
    if events.len() == 0 {
        let run = write_run(wrote_fin, fin, buf, events)->0;
        assert(joined(run.frames) =~= buf.take(0));
    } else {
        write_run_has_shape(wrote_fin, fin, buf, events.drop_last());
        let before = write_run(wrote_fin, fin, buf, events.drop_last())->0;
        if events.last() == WriteEvent::Sent {
            sent_keeps_shape(wrote_fin, fin, buf, before);
        } else {
            other_events_keep_shape(wrote_fin, fin, buf, before, events.last());
        }
    }
}

/// Every frame but one that ends the body carries data.
proof fn write_run_has_progress(wrote_fin: bool, fin: bool, buf: Seq<u8>, events: Seq<WriteEvent>)
    requires
        write_run(wrote_fin, fin, buf, events) is Some,
        buf.len() <= usize::MAX,
    ensures
        write_run(wrote_fin, fin, buf, events) matches Some(run) && {
            &&& run.call.sent matches Some(sent) ==> sent > 0
            &&& !wrote_fin && run.wrote_fin && run.call.sent is None ==> run.frames.len() == 1
            &&& !wrote_fin && run.call.sent is Some ==> buf.len() > 0
        },
    decreases events.len(),
{
    write_run_has_shape(wrote_fin, fin, buf, events);
    if events.len() > 0 {
        write_run_has_progress(wrote_fin, fin, buf, events.drop_last());
        write_run_has_shape(wrote_fin, fin, buf, events.drop_last());
    }
}

/// Writes keep the data as it is: the frames that a call has sent hold the front
/// of its buffer, in order, at most `MAX_BUF_SIZE` bytes each.
pub proof fn frames_hold_the_front(
    wrote_fin: bool,
    fin: bool,
    buf: Seq<u8>,
    events: Seq<WriteEvent>,
)
    requires
        write_run(wrote_fin, fin, buf, events) is Some,
        buf.len() <= usize::MAX,
    ensures
        write_run(wrote_fin, fin, buf, events) matches Some(run) && {
            &&& joined(run.frames).len() <= buf.len()
            &&& joined(run.frames) == buf.take(joined(run.frames).len() as int)
            &&& forall|i: int|
                0 <= i < run.frames.len() ==> (#[trigger] run.frames[i] matches FrameView::Body(
                    data,
                    _,
                ) && data.len() <= MAX_BUF_SIZE)
        },
{
    write_run_has_shape(wrote_fin, fin, buf, events);
    let run = write_run(wrote_fin, fin, buf, events)->0;
    if wrote_fin {
        assert(joined(run.frames) =~= buf.take(0));
    } else if run.wrote_fin {
        assert(buf =~= buf.take(buf.len() as int));
        assert(is_data(run.frames[run.frames.len() - 1], true));
    }
}

/// A frame ends the body only where the call was to end it, and only behind all
/// of the call's data. The body then knows that its end was written.
pub proof fn only_the_last_frame_ends(
    wrote_fin: bool,
    fin: bool,
    buf: Seq<u8>,
    events: Seq<WriteEvent>,
    i: int,
)
    requires
        write_run(wrote_fin, fin, buf, events) matches Some(run) && 0 <= i < run.frames.len(),
        buf.len() <= usize::MAX,
    ensures
        write_run(wrote_fin, fin, buf, events) matches Some(run) && (
        run.frames[i] matches FrameView::Body(_, true) <==> (run.wrote_fin && i
            == run.frames.len() - 1)) && (run.wrote_fin ==> fin && joined(run.frames) == buf),
{
    write_run_has_shape(wrote_fin, fin, buf, events);
    let run = write_run(wrote_fin, fin, buf, events)->0;
    assert(is_data(run.frames[i], run.wrote_fin && i == run.frames.len() - 1));
}

/// A call reports the number of bytes that it has sent, but for the frame that
/// ends the body. It reports none only where the buffer was empty or its first
/// frame ended the body, and asks to be called again only where it sent nothing.
pub proof fn writes_report_what_was_sent(
    wrote_fin: bool,
    fin: bool,
    buf: Seq<u8>,
    events: Seq<WriteEvent>,
)
    requires
        write_run(wrote_fin, fin, buf, events) is Some,
        buf.len() <= usize::MAX,
    ensures
        write_run(wrote_fin, fin, buf, events) matches Some(run) && {
            &&& run.action matches Some(WriteActionView::Return(WritePoll::Ready(Ok(n)))) ==> {
                &&& n == joined(
                    if run.wrote_fin {
                        run.frames.drop_last()
                    } else {
                        run.frames
                    },
                ).len()
                &&& n == 0 ==> buf.len() == 0 || (run.wrote_fin && run.frames.len() == 1)
            }
            &&& run.action == Some(WriteActionView::Return(WritePoll::Pending)) ==> run.frames.len()
                == 0
        },
{
    write_run_has_shape(wrote_fin, fin, buf, events);
    write_run_has_progress(wrote_fin, fin, buf, events);
}

/// Nothing is sent behind the end of a body: a later call fails.
pub proof fn nothing_follows_the_end(fin: bool, buf: Seq<u8>, events: Seq<WriteEvent>)
    requires
        write_run(true, fin, buf, events) is Some,
        buf.len() <= usize::MAX,
    ensures
        write_run(true, fin, buf, events) matches Some(run) && run.wrote_fin && run.frames.len()
            == 0 && (events.len() > 0 ==> run.action == Some(
            WriteActionView::Return(WritePoll::Ready(Err(H3WriteError::WroteFin))),
        )),
{
    write_run_has_shape(true, fin, buf, events);
}

/// A shutdown sends one empty frame that ends the body, and nothing else. Where
/// its write succeeds the body has ended.
pub proof fn shutdown_ends_the_body(events: Seq<WriteEvent>)
    requires
        write_run(false, true, Seq::empty(), events) is Some,
    ensures
        write_run(false, true, Seq::empty(), events) matches Some(run) && {
            &&& run.frames == if run.wrote_fin {
                seq![FrameView::Body(Seq::empty(), true)]
            } else {
                Seq::empty()
            }
            &&& run.action matches Some(WriteActionView::Return(WritePoll::Ready(Ok(_))))
                ==> run.wrote_fin
        },
{
    write_run_has_shape(false, true, Seq::empty(), events);
    write_run_has_progress(false, true, Seq::empty(), events);
    let run = write_run(false, true, Seq::empty(), events)->0;
    if run.wrote_fin {
        let last = run.frames.last();
        assert(joined(run.frames) == joined(run.frames.drop_last()) + last->Body_0);
        assert(last->Body_0 =~= Seq::empty());
        assert(run.frames =~= seq![FrameView::Body(Seq::empty(), true)]);
    } else {
        assert(run.frames =~= Seq::empty());
    }
}

/// A call waits for the outcome of what it did last, and for nothing else.
pub proof fn writes_await_their_outcome(
    wrote_fin: bool,
    fin: bool,
    buf: Seq<u8>,
    events: Seq<WriteEvent>,
    event: WriteEvent,
)
    requires
        write_run(wrote_fin, fin, buf, events) is Some,
        buf.len() <= usize::MAX,
    ensures
        write_run(wrote_fin, fin, buf, events.push(event)) is Some <==> (match write_run(
            wrote_fin,
            fin,
            buf,
            events,
        )->0.action {
            None => event is Begin,
            Some(WriteActionView::Reserve) => event is Reserved || event is ReserveFailed || event
                is NoRoom,
            Some(WriteActionView::Send(_)) => event is Sent || event is SendFailed,
            Some(WriteActionView::Return(_)) => false,
        }),
        write_run(wrote_fin, fin, buf, events)->0.call.fits(buf),
{
    write_run_has_shape(wrote_fin, fin, buf, events);
    assert(events.push(event).drop_last() =~= events);
}

/// What a call does next is settled by what happened: it reserves room as long as
/// data is left, or a bare end, and sends what is left, as much of it as a frame
/// holds, with the end where the call is to end the body and nothing is left
/// behind. Without room it reports what was sent, or asks to be called again, and
/// a stream that takes nothing fails it.
pub proof fn data_is_passed_on(
    wrote_fin: bool,
    fin: bool,
    buf: Seq<u8>,
    events: Seq<WriteEvent>,
    event: WriteEvent,
)
    requires
        write_run(wrote_fin, fin, buf, events.push(event)) is Some,
        buf.len() <= usize::MAX,
    ensures
        ({
            let before = write_run(wrote_fin, fin, buf, events)->0;
            let after = write_run(wrote_fin, fin, buf, events.push(event))->0;
            let left = buf.skip(joined(before.frames).len() as int);
            &&& !(event is Sent) ==> after.wrote_fin == before.wrote_fin
            &&& match event {
                WriteEvent::Begin => after.action == Some(
                    if wrote_fin {
                        WriteActionView::Return(WritePoll::Ready(Err(H3WriteError::WroteFin)))
                    } else if buf.len() == 0 && !fin {
                        WriteActionView::Return(WritePoll::Ready(Ok(0usize)))
                    } else {
                        WriteActionView::Reserve
                    },
                ),
                WriteEvent::Reserved => after.action == Some(
                    WriteActionView::Send(
                        if left.len() <= MAX_BUF_SIZE {
                            FrameView::Body(left, fin)
                        } else {
                            FrameView::Body(left.take(MAX_BUF_SIZE as int), false)
                        },
                    ),
                ),
                WriteEvent::ReserveFailed | WriteEvent::SendFailed => after.action == Some(
                    WriteActionView::Return(WritePoll::Ready(Err(H3WriteError::NoStreamState))),
                ),
                WriteEvent::NoRoom => after.action == Some(
                    WriteActionView::Return(
                        if before.frames.len() == 0 {
                            WritePoll::Pending
                        } else {
                            WritePoll::Ready(Ok(joined(before.frames).len() as usize))
                        },
                    ),
                ),
                WriteEvent::Sent => if joined(after.frames).len() < buf.len() {
                    after.action == Some(WriteActionView::Reserve)
                } else {
                    &&& after.action matches Some(WriteActionView::Return(WritePoll::Ready(Ok(_))))
                    &&& after.wrote_fin == fin
                },
            }
        }),
{
    assert(events.push(event).drop_last() =~= events);
    write_run_has_shape(wrote_fin, fin, buf, events);
    write_run_has_shape(wrote_fin, fin, buf, events.push(event));
    let before = write_run(wrote_fin, fin, buf, events)->0;
    let after = write_run(wrote_fin, fin, buf, events.push(event))->0;
    let start = before.call.offset();
    let left = buf.skip(start);
    if event is Reserved {
        assert(joined(before.frames).len() == start);
        assert(buf.subrange(start, chunk_end(buf, start)) =~= if left.len() <= MAX_BUF_SIZE {
            left
        } else {
            left.take(MAX_BUF_SIZE as int)
        });
    }
}

/// A call that succeeds while there is room has sent its whole buffer and, where
/// it was to end the body, the end.
pub proof fn writes_are_complete(
    wrote_fin: bool,
    fin: bool,
    buf: Seq<u8>,
    events: Seq<WriteEvent>,
)
    requires
        write_run(wrote_fin, fin, buf, events) is Some,
        buf.len() <= usize::MAX,
        events.len() > 0,
        events.last() != WriteEvent::NoRoom,
        write_run(wrote_fin, fin, buf, events)->0.action matches Some(
            WriteActionView::Return(WritePoll::Ready(Ok(_))),
        ),
    ensures
        joined(write_run(wrote_fin, fin, buf, events)->0.frames) == buf,
        write_run(wrote_fin, fin, buf, events)->0.wrote_fin == fin,
{
    let before = events.drop_last();
    assert(before.push(events.last()) =~= events);
    write_run_has_shape(wrote_fin, fin, buf, before);
    write_run_has_shape(wrote_fin, fin, buf, events);
    data_is_passed_on(wrote_fin, fin, buf, before, events.last());
    let run = write_run(wrote_fin, fin, buf, events)->0;
    assert(buf.take(buf.len() as int) =~= buf);
    if !run.wrote_fin {
        assert(joined(run.frames) == buf.take(run.call.offset()));
    }
}

} // verus!
