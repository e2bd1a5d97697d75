//! The body of an HTTP/3 message as a byte stream: how writes become frames, and
//! how frames become reads.

use vstd::prelude::*;

use super::frame::{bytes_mut_view, FrameView, OutboundFrame, MAX_BUF_SIZE};

verus! {

/// Why a body cannot be written.
#[derive(Debug, Clone, Copy, PartialEq, Eq, Structural)]
pub enum H3WriteError {
    /// The end of the body was written before.
    WroteFin,
    /// The stream is gone.
    NoStreamState,
    /// The connection is gone.
    NoConnectionState,
}

impl H3WriteError {
    /// The error in words.
    pub open spec fn text(self) -> Seq<char> {
        match self {
            H3WriteError::WroteFin => "H3 write: wrote fin"@,
            H3WriteError::NoStreamState => "H3 write: no stream state"@,
            H3WriteError::NoConnectionState => "H3 write: no connection state"@,
        }
    }

    /// The error in words.
    pub fn message(self) -> (message: String)
        ensures
            message@ == self.text(),
            self is WroteFin ==> message@ == "H3 write: wrote fin"@,
            self is NoStreamState ==> message@ == "H3 write: no stream state"@,
            self is NoConnectionState ==> message@ == "H3 write: no connection state"@,
    {
        match self {
            H3WriteError::WroteFin => "H3 write: wrote fin".to_owned(),
            H3WriteError::NoStreamState => "H3 write: no stream state".to_owned(),
            H3WriteError::NoConnectionState => "H3 write: no connection state".to_owned(),
        }
    }
}

/// A message's body, between the connection's worker and whoever reads and
/// writes it.
#[derive(Debug)]
pub struct H3Body {
    pub stream_id: u64,
    /// Whether the end of the outgoing data was sent.
    pub wrote_fin: bool,
    /// Whether the end of the incoming data was read.
    pub read_fin: bool,
    /// Whether the stream has incoming frames.
    pub has_recv: bool,
    /// A frame that was received and not wholly read, and whether it is the
    /// last.
    pub pending_recv: Option<(bytes::BytesMut, bool)>,
}

/// A body over plain sequences.
pub struct BodyView {
    pub stream_id: u64,
    pub wrote_fin: bool,
    pub read_fin: bool,
    pub has_recv: bool,
    pub pending: Option<(Seq<u8>, bool)>,
}

impl View for H3Body {
    type V = BodyView;

    open spec fn view(&self) -> BodyView {
        BodyView {
            stream_id: self.stream_id,
            wrote_fin: self.wrote_fin,
            read_fin: self.read_fin,
            has_recv: self.has_recv,
            pending: match self.pending_recv {
                Some((data, fin)) => Some((bytes_mut_view(data), fin)),
                None => None,
            },
        }
    }
}

/// What a write has come to.
#[derive(Debug, Clone, Copy, PartialEq, Eq)]
pub enum WritePoll {
    Ready(Result<usize, H3WriteError>),
    Pending,
}

/// What a write is at.
#[derive(Debug, Clone, Copy, PartialEq, Eq, Structural)]
pub enum WriteStage {
    New,
    /// Room for a frame is being reserved.
    Reserving,
    /// A frame is being sent.
    Sending,
    Over,
}

/// One call that writes to a body.
#[derive(Debug, Clone, Copy, PartialEq, Eq, Structural)]
pub struct Write {
    /// Whether the data ends the body.
    pub fin: bool,
    /// The bytes sent so far, once any frame was.
    pub sent: Option<usize>,
    pub stage: WriteStage,
}

/// What can happen to a write.
#[derive(Debug, Clone, Copy, PartialEq, Eq, Structural)]
pub enum WriteEvent {
    Begin,
    /// There is room for a frame.
    Reserved,
    /// The stream takes no more frames.
    ReserveFailed,
    /// There is no room for a frame yet.
    NoRoom,
    Sent,
    SendFailed,
}

/// What to do next for a write.
#[derive(Debug)]
pub enum WriteAction {
    Reserve,
    Send(OutboundFrame),
    Return(WritePoll),
}

/// What to do next for a write, over plain sequences.
pub enum WriteActionView {
    Reserve,
    Send(FrameView),
    Return(WritePoll),
}

impl View for WriteAction {
    type V = WriteActionView;

    open spec fn view(&self) -> WriteActionView {
        match self {
            WriteAction::Reserve => WriteActionView::Reserve,
            WriteAction::Send(frame) => WriteActionView::Send(frame@),
            WriteAction::Return(poll) => WriteActionView::Return(*poll),
        }
    }
}

/// Where the chunk that starts at `offset` ends.
pub open spec fn chunk_end(buf: Seq<u8>, offset: int) -> int {
    if buf.len() - offset <= MAX_BUF_SIZE {
        buf.len() as int
    } else {
        offset + MAX_BUF_SIZE
    }
}

impl Write {
    /// The bytes sent so far.
    pub open spec fn offset(self) -> int {
        match self.sent {
            Some(sent) => sent as int,
            None => 0,
        }
    }

    /// Whether a frame is left to send: data, or the bare end of an empty body.
    pub open spec fn has_chunk(self, buf: Seq<u8>) -> bool {
        self.offset() < buf.len() || (buf.len() == 0 && self.fin)
    }

    /// Whether the next frame ends the body.
    pub open spec fn closes(self, buf: Seq<u8>) -> bool {
        self.fin && chunk_end(buf, self.offset()) == buf.len()
    }

    /// The next frame.
    pub open spec fn frame(self, buf: Seq<u8>) -> FrameView {
        FrameView::Body(
            buf.subrange(self.offset(), chunk_end(buf, self.offset())),
            self.closes(buf),
        )
    }

    /// Whether this can be a call that writes `buf`.
    pub open spec fn fits(self, buf: Seq<u8>) -> bool {
        &&& self.offset() <= buf.len()
        &&& self.stage == WriteStage::New ==> self.sent is None
        &&& self.stage == WriteStage::Reserving || self.stage == WriteStage::Sending
            ==> self.has_chunk(buf)
    }

    /// Whether `event` can happen to the call.
    pub open spec fn can_meet(self, event: WriteEvent) -> bool {
        match self.stage {
            WriteStage::New => event == WriteEvent::Begin,
            WriteStage::Reserving => event == WriteEvent::Reserved || event
                == WriteEvent::ReserveFailed || event == WriteEvent::NoRoom,
            WriteStage::Sending => event == WriteEvent::Sent || event == WriteEvent::SendFailed,
            WriteStage::Over => false,
        }
    }

    /// The call, over with this outcome.
    pub open spec fn over(self, poll: WritePoll) -> (Write, WriteActionView) {
        (Write { stage: WriteStage::Over, ..self }, WriteActionView::Return(poll))
    }

    /// The call where no frame is under way: it reserves room for the next, or
    /// tells how much was sent.
    pub open spec fn advance(self, buf: Seq<u8>) -> (Write, WriteActionView) {
        if self.has_chunk(buf) {
            (Write { stage: WriteStage::Reserving, ..self }, WriteActionView::Reserve)
        } else {
            self.over(WritePoll::Ready(Ok(self.offset() as usize)))
        }
    }

    /// How the call goes on from an event, on a body that has or has not seen
    /// its end written.
    pub open spec fn next(self, wrote_fin: bool, buf: Seq<u8>, event: WriteEvent) -> (
        bool,
        (Write, WriteActionView),
    ) {
        match event {
            WriteEvent::Begin => (
                wrote_fin,
                if wrote_fin {
                    self.over(WritePoll::Ready(Err(H3WriteError::WroteFin)))
                } else {
                    self.advance(buf)
                },
            ),
            WriteEvent::Reserved => (
                wrote_fin,
                (
                    Write { stage: WriteStage::Sending, ..self },
                    WriteActionView::Send(self.frame(buf)),
                ),
            ),
            WriteEvent::ReserveFailed | WriteEvent::SendFailed => (
                wrote_fin,
                self.over(WritePoll::Ready(Err(H3WriteError::NoStreamState))),
            ),
            WriteEvent::NoRoom => (
                wrote_fin,
                self.over(
                    match self.sent {
                        Some(sent) => WritePoll::Ready(Ok(sent)),
                        None => WritePoll::Pending,
                    },
                ),
            ),
            WriteEvent::Sent => if self.closes(buf) {
                (true, self.over(WritePoll::Ready(Ok(self.offset() as usize))))
            } else {
                (
                    wrote_fin,
                    Write {
                        sent: Some(chunk_end(buf, self.offset()) as usize),
                        ..self
                    }.advance(buf),
                )
            },
        }
    }

    /// A call that writes data and, where `fin` says so, ends the body with it.
    pub fn new(fin: bool) -> (call: Write)
        ensures
            call == (Write { fin, sent: None, stage: WriteStage::New }),
            forall|buf: Seq<u8>| #[trigger] call.fits(buf),
    {
        Write { fin, sent: None, stage: WriteStage::New }
    }

    /// Whether this can be a call that writes `buf`, and `event` can happen to it.
    pub fn accepts(&self, buf: &[u8], event: WriteEvent) -> (accepted: bool)
        ensures
            accepted == (self.fits(buf@) && self.can_meet(event)),
    {
        if self.sent_bytes() > buf.len() {
            return false;
        }
        let has_chunk = self.sent_bytes() < buf.len() || (buf.len() == 0 && self.fin);
        match self.stage {
            WriteStage::New => self.sent.is_none() && event == WriteEvent::Begin,
            WriteStage::Reserving => {
                has_chunk && (event == WriteEvent::Reserved || event == WriteEvent::ReserveFailed
                    || event == WriteEvent::NoRoom)
            },
            WriteStage::Sending => {
                has_chunk && (event == WriteEvent::Sent || event == WriteEvent::SendFailed)
            },
            WriteStage::Over => false,
        }
    }

    /// The number of bytes sent so far.
    fn sent_bytes(&self) -> (sent: usize)
        ensures
            sent == self.offset(),
    {
        match self.sent {
            Some(sent) => sent,
            None => 0,
        }
    }

    /// Where the next chunk of `buf` ends.
    fn next_end(&self, buf: &[u8]) -> (end: usize)
        requires
            self.offset() <= buf@.len(),
        ensures
            end == chunk_end(buf@, self.offset()),
            self.offset() <= end <= buf@.len(),
    {
        let start = self.sent_bytes();
        if buf.len() - start <= MAX_BUF_SIZE {
            buf.len()
        } else {
            start + MAX_BUF_SIZE
        }
    }

    /// Reserves room for the next frame, or ends the call where none is left.
    fn go_on(&mut self, buf: &[u8]) -> (action: WriteAction)
        requires
            old(self).offset() <= buf@.len(),
        ensures
            (*final(self), action@) == old(self).advance(buf@),
    {
        if self.sent_bytes() < buf.len() || (buf.len() == 0 && self.fin) {
            self.stage = WriteStage::Reserving;
            WriteAction::Reserve
        } else {
            self.stage = WriteStage::Over;
            WriteAction::Return(WritePoll::Ready(Ok(self.sent_bytes())))
        }
    }
}

impl H3Body {
    /// The body of the message on a stream. `has_recv` tells whether the stream
    /// has incoming frames, `read_fin` whether it has ended already.
    pub fn new(stream_id: u64, has_recv: bool, read_fin: bool) -> (body: H3Body)
        ensures
            body@ == (BodyView { stream_id, wrote_fin: false, read_fin, has_recv, pending: None }),
            body.stream_id == stream_id,
            body.read_fin == read_fin,
            body.has_recv == has_recv,
            !body.wrote_fin,
            body.pending_recv is None,
    {
        H3Body { stream_id, wrote_fin: false, read_fin, has_recv, pending_recv: None }
    }

    /// Goes on with a call that writes `buf`. The data goes out in frames of at
    /// most `MAX_BUF_SIZE` bytes, and only the last one ends the body.
    pub fn poll_write(&mut self, call: &mut Write, buf: &[u8], event: WriteEvent) -> (action:
        WriteAction)
        requires
            old(call).fits(buf@),
            old(call).can_meet(event),
        ensures
            final(call).fits(buf@),
            (final(self).wrote_fin, (*final(call), action@)) == old(call).next(
                old(self).wrote_fin,
                buf@,
                event,
            ),
            final(self)@ == (BodyView { wrote_fin: final(self).wrote_fin, ..old(self)@ }),
    {
        match event {
            WriteEvent::Begin => {
                if self.wrote_fin {
                    call.stage = WriteStage::Over;
                    return WriteAction::Return(WritePoll::Ready(Err(H3WriteError::WroteFin)));
                }
                call.go_on(buf)
            },
            WriteEvent::Reserved => {
                let start = call.sent_bytes();
                let end = call.next_end(buf);
                let chunk = vstd::slice::slice_subrange(buf, start, end);
                call.stage = WriteStage::Sending;
                // Only the last chunk ends the body.
                let fin = call.fin && end == buf.len();
                WriteAction::Send(OutboundFrame::Body(bytes::Bytes::copy_from_slice(chunk), fin))
            },
            WriteEvent::ReserveFailed | WriteEvent::SendFailed => {
                call.stage = WriteStage::Over;
                WriteAction::Return(WritePoll::Ready(Err(H3WriteError::NoStreamState)))
            },
            WriteEvent::NoRoom => {
                call.stage = WriteStage::Over;
                match call.sent {
                    Some(sent) => WriteAction::Return(WritePoll::Ready(Ok(sent))),
                    None => WriteAction::Return(WritePoll::Pending),
                }
            },
            WriteEvent::Sent => {
                let end = call.next_end(buf);
                if call.fin && end == buf.len() {
                    self.wrote_fin = true;
                    call.stage = WriteStage::Over;
                    return WriteAction::Return(WritePoll::Ready(Ok(call.sent_bytes())));
                }
                call.sent = Some(end);
                call.go_on(buf)
            },
        }
    }
}

/// What a shutdown has come to.
#[derive(Debug, Clone, Copy, PartialEq, Eq, Structural)]
pub enum ShutdownPoll {
    Ready,
    Pending,
}

impl H3Body {
    /// The write that a shutdown needs: of no data, to end the body. A body whose
    /// end was written needs none, and its shutdown is ready.
    pub fn poll_shutdown(&self) -> (call: Option<Write>)
        ensures
            call == if self.wrote_fin {
                None
            } else {
                Some(Write { fin: true, sent: None, stage: WriteStage::New })
            },
    {
        if self.wrote_fin {
            None
        } else {
            Some(Write::new(true))
        }
    }
}

/// What a shutdown comes to when its write came to `poll`. A failed write means
/// that the stream was shut down before.
pub fn shutdown_outcome(poll: WritePoll) -> (outcome: ShutdownPoll)
    ensures
        outcome == if poll == WritePoll::Pending {
            ShutdownPoll::Pending
        } else {
            ShutdownPoll::Ready
        },
{
    match poll {
        WritePoll::Ready(_) => ShutdownPoll::Ready,
        WritePoll::Pending => ShutdownPoll::Pending,
    }
}

/// What a read is at.
#[derive(Debug, Clone, Copy, PartialEq, Eq, Structural)]
pub enum ReadStage {
    New,
    /// A frame is being received.
    Receiving,
    Over,
}

/// One call that reads from a body.
#[derive(Debug, Clone, Copy, PartialEq, Eq, Structural)]
pub struct Read {
    /// Whether a whole frame was delivered.
    pub did_read: bool,
    pub stage: ReadStage,
}

/// What can happen to a read.
#[derive(Debug)]
pub enum ReadEvent {
    Begin,
    /// A frame came in, the last one or not.
    Received(bytes::BytesMut, bool),
    /// A datagram came in, which is none of the stream's data.
    Datagram,
    /// No frame will come in any more.
    Closed,
    /// No frame has come in yet.
    NoFrame,
}

/// What can happen to a read, over plain sequences.
pub enum ReadEventView {
    Begin,
    Received(Seq<u8>, bool),
    Datagram,
    Closed,
    NoFrame,
}

impl View for ReadEvent {
    type V = ReadEventView;

    open spec fn view(&self) -> ReadEventView {
        match self {
            ReadEvent::Begin => ReadEventView::Begin,
            ReadEvent::Received(data, fin) => ReadEventView::Received(bytes_mut_view(*data), *fin),
            ReadEvent::Datagram => ReadEventView::Datagram,
            ReadEvent::Closed => ReadEventView::Closed,
            ReadEvent::NoFrame => ReadEventView::NoFrame,
        }
    }
}

/// What a read does once its data is delivered.
#[derive(Debug, Clone, Copy, PartialEq, Eq, Structural)]
pub enum ReadNext {
    /// Ask for the next frame.
    Receive,
    /// Refuse further frames, and be ready.
    CloseAndReady,
    Ready,
    Pending,
}

/// What to do next for a read: first deliver the data, if there is any.
#[derive(Debug)]
pub struct ReadAction {
    pub deliver: Option<bytes::BytesMut>,
    pub next: ReadNext,
}

/// What to do next for a read, over plain sequences.
pub struct ReadActionView {
    pub deliver: Option<Seq<u8>>,
    pub next: ReadNext,
}

impl View for ReadAction {
    type V = ReadActionView;

    open spec fn view(&self) -> ReadActionView {
        ReadActionView {
            deliver: match self.deliver {
                Some(data) => Some(bytes_mut_view(data)),
                None => None,
            },
            next: self.next,
        }
    }
}

impl BodyView {
    /// What a read does when no data is pending.
    pub open spec fn without_data(self) -> ReadNext {
        if self.read_fin {
            if self.has_recv {
                ReadNext::CloseAndReady
            } else {
                ReadNext::Ready
            }
        } else if self.has_recv {
            ReadNext::Receive
        } else {
            ReadNext::Ready
        }
    }

    /// The body without its pending data, whose end it has now read if that was
    /// the last.
    pub open spec fn drained(self) -> BodyView {
        BodyView {
            read_fin: self.read_fin || (self.pending matches Some((_, fin)) && fin),
            pending: None,
            ..self
        }
    }

    /// What a read with this much room delivers, and what it does then. Data that
    /// does not fit is delivered in part.
    pub open spec fn fill(self, did_read: bool, room: nat) -> (BodyView, Read, ReadActionView) {
        match self.pending {
            Some((data, fin)) if data.len() > room => (
                BodyView { pending: Some((data.skip(room as int), fin)), ..self },
                Read { did_read, stage: ReadStage::Over },
                ReadActionView { deliver: Some(data.take(room as int)), next: ReadNext::Ready },
            ),
            Some((data, _)) => (
                self.drained(),
                Read { did_read: true, stage: stage_of(self.drained().without_data()) },
                ReadActionView { deliver: Some(data), next: self.drained().without_data() },
            ),
            None => (
                self,
                Read { did_read, stage: stage_of(self.without_data()) },
                ReadActionView { deliver: None, next: self.without_data() },
            ),
        }
    }

    /// How a read goes on from an event, with this much room.
    pub open spec fn read(self, call: Read, room: nat, event: ReadEventView) -> (
        BodyView,
        Read,
        ReadActionView,
    ) {
        match event {
            ReadEventView::Begin => self.fill(call.did_read, room),
            ReadEventView::Received(data, fin) => BodyView {
                pending: Some((data, fin)),
                ..self
            }.fill(call.did_read, room),
            ReadEventView::Datagram => (
                self,
                call,
                ReadActionView { deliver: None, next: ReadNext::Receive },
            ),
            ReadEventView::Closed => (
                self,
                Read { stage: ReadStage::Over, ..call },
                ReadActionView { deliver: None, next: ReadNext::Ready },
            ),
            ReadEventView::NoFrame => (
                self,
                Read { stage: ReadStage::Over, ..call },
                ReadActionView {
                    deliver: None,
                    next: if call.did_read {
                        ReadNext::Ready
                    } else {
                        ReadNext::Pending
                    },
                },
            ),
        }
    }

    /// Whether a read of this body can be at `call`: a frame is asked for only
    /// when no data is pending.
    pub open spec fn allows(self, call: Read) -> bool {
        &&& call.stage == ReadStage::New ==> !call.did_read
        &&& call.stage == ReadStage::Receiving ==> self.pending is None && self.has_recv
            && !self.read_fin
    }
}

/// What a read is at once it does `next`.
pub open spec fn stage_of(next: ReadNext) -> ReadStage {
    if next == ReadNext::Receive {
        ReadStage::Receiving
    } else {
        ReadStage::Over
    }
}

impl Read {
    /// Whether `event` can happen to the call.
    pub open spec fn can_meet(self, event: ReadEventView) -> bool {
        match self.stage {
            ReadStage::New => event is Begin,
            ReadStage::Receiving => !(event is Begin),
            ReadStage::Over => false,
        }
    }

    /// A call that reads.
    pub fn new() -> (call: Read)
        ensures
            call == (Read { did_read: false, stage: ReadStage::New }),
    {
        Read { did_read: false, stage: ReadStage::New }
    }
}

impl H3Body {
    /// Whether a read of this body can be at `call`, and `event` can happen to it.
    pub fn accepts(&self, call: &Read, event: &ReadEvent) -> (accepted: bool)
        ensures
            accepted == (self@.allows(*call) && call.can_meet(event@)),
    {
        match call.stage {
            ReadStage::New => !call.did_read && matches!(event, ReadEvent::Begin),
            ReadStage::Receiving => {
                self.pending_recv.is_none() && self.has_recv && !self.read_fin && !matches!(
                    event,
                    ReadEvent::Begin
                )
            },
            ReadStage::Over => false,
        }
    }

    /// Delivers pending data into `room` bytes, and tells what to do then.
    fn fill(&mut self, call: &mut Read, room: usize) -> (action: ReadAction)
        ensures
            (final(self)@, *final(call), action@) == old(self)@.fill(
                old(call).did_read,
                room as nat,
            ),
    {
        let mut deliver: Option<bytes::BytesMut> = None;
        match self.pending_recv.take() {
            Some((mut data, fin)) => {
                if data.len() > room {
                    let front = data.split_to(room);
                    self.pending_recv = Some((data, fin));
                    call.stage = ReadStage::Over;
                    return ReadAction { deliver: Some(front), next: ReadNext::Ready };
                }
                deliver = Some(data);
                call.did_read = true;
                self.read_fin = self.read_fin || fin;
            },
            None => {},
        }
        let next = if self.read_fin {
            if self.has_recv {
                ReadNext::CloseAndReady
            } else {
                ReadNext::Ready
            }
        } else if self.has_recv {
            ReadNext::Receive
        } else {
            ReadNext::Ready
        };
        call.stage = if matches!(next, ReadNext::Receive) {
            ReadStage::Receiving
        } else {
            ReadStage::Over
        };
        ReadAction { deliver, next }
    }

    /// Goes on with a call that reads into a buffer with `room` bytes left. Frames
    /// of the stream are delivered; a datagram is passed over.
    pub fn poll_read(&mut self, call: &mut Read, room: usize, event: ReadEvent) -> (action:
        ReadAction)
        requires
            old(self)@.allows(*old(call)),
            old(call).can_meet(event@),
        ensures
            final(self)@.allows(*final(call)),
            action.deliver matches Some(data) ==> bytes_mut_view(data).len() <= room,
            event matches ReadEvent::Received(data, fin) ==> {
                &&& action.deliver is Some
                &&& bytes_mut_view(data).len() <= room ==> bytes_mut_view(action.deliver->0)
                    == bytes_mut_view(data) && final(self).pending_recv is None
                    && final(self).read_fin == (old(self).read_fin || fin) && (final(self).read_fin
                    ==> action.next == ReadNext::CloseAndReady)
                &&& bytes_mut_view(data).len() > room ==> bytes_mut_view(action.deliver->0)
                    == bytes_mut_view(data).take(room as int) && action.next == ReadNext::Ready
            },
            !(event is Begin) && !(event is Received) ==> action.deliver is None,
            (final(self)@, *final(call), action@) == old(self)@.read(
                *old(call),
                room as nat,
                event@,
            ),
    {
        match event {
            ReadEvent::Begin => self.fill(call, room),
            ReadEvent::Received(data, fin) => {
                self.pending_recv = Some((data, fin));
                self.fill(call, room)
            },
            ReadEvent::Datagram => ReadAction { deliver: None, next: ReadNext::Receive },
            ReadEvent::Closed => {
                call.stage = ReadStage::Over;
                ReadAction { deliver: None, next: ReadNext::Ready }
            },
            ReadEvent::NoFrame => {
                call.stage = ReadStage::Over;
                let next = if call.did_read {
                    ReadNext::Ready
                } else {
                    ReadNext::Pending
                };
                ReadAction { deliver: None, next }
            },
        }
    }
}

/// The views of bodies, reads and writes say what they hold.
pub proof fn body_views_are_faithful(
    body: H3Body,
    event: ReadEvent,
    read: ReadAction,
    write: WriteAction,
)
    ensures
        body@.stream_id == body.stream_id,
        body@.wrote_fin == body.wrote_fin,
        body@.read_fin == body.read_fin,
        body@.has_recv == body.has_recv,
        body.pending_recv matches Some((data, fin)) ==> body@.pending == Some(
            (bytes_mut_view(data), fin),
        ),
        body.pending_recv is None ==> body@.pending is None,
        event matches ReadEvent::Received(data, fin) ==> event@ == ReadEventView::Received(
            bytes_mut_view(data),
            fin,
        ),
        event is Begin <==> event@ is Begin,
        event is Datagram <==> event@ is Datagram,
        event is Closed <==> event@ is Closed,
        event is NoFrame <==> event@ is NoFrame,
        read@.next == read.next,
        read.deliver matches Some(data) ==> read@.deliver == Some(bytes_mut_view(data)),
        read.deliver is None ==> read@.deliver is None,
        write matches WriteAction::Send(frame) ==> write@ == WriteActionView::Send(frame@),
        write matches WriteAction::Return(poll) ==> write@ == WriteActionView::Return(poll),
        write is Reserve ==> write@ is Reserve,
{
}

} // verus!
