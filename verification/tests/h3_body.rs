use bytes::{Bytes, BytesMut};
use chaussette::h3::body::{
    shutdown_outcome, H3Body, H3WriteError, Read, ReadEvent, ReadNext, ShutdownPoll, Write,
    WriteAction, WriteEvent, WritePoll, WriteStage,
};
use chaussette::h3::frame::{OutboundFrame, MAX_BUF_SIZE};
use chaussette::h3::transfer::{Transfer, TransferAction, TransferEvent, TransferStage};

fn write(body: &mut H3Body, call: &mut Write, buf: &[u8], event: WriteEvent) -> WriteAction {
    assert!(call.accepts(buf, event));
    body.poll_write(call, buf, event)
}

/// Writes until the call returns, with room and success throughout.
fn write_all(body: &mut H3Body, buf: &[u8], fin: bool) -> (Vec<(Vec<u8>, bool)>, WritePoll) {
    let mut call = Write::new(fin);
    let mut frames = Vec::new();
    let mut event = WriteEvent::Begin;
    loop {
        match write(body, &mut call, buf, event) {
            WriteAction::Reserve => event = WriteEvent::Reserved,
            WriteAction::Send(OutboundFrame::Body(data, fin)) => {
                frames.push((data.to_vec(), fin));
                event = WriteEvent::Sent;
            }
            WriteAction::Send(OutboundFrame::PeerStreamError) => panic!("no data"),
            WriteAction::Return(poll) => return (frames, poll),
        }
    }
}

fn bytes_of(text: &[u8]) -> BytesMut {
    BytesMut::from(text)
}

#[test]
fn small_write_is_one_frame() {
    let mut body = H3Body::new(4, true, false);
    let (frames, poll) = write_all(&mut body, b"hello", false);
    assert_eq!(frames, vec![(b"hello".to_vec(), false)]);
    assert_eq!(poll, WritePoll::Ready(Ok(5)));
    assert!(!body.wrote_fin);
}

#[test]
fn empty_write_sends_nothing() {
    let mut body = H3Body::new(4, true, false);
    let (frames, poll) = write_all(&mut body, b"", false);
    assert!(frames.is_empty());
    assert_eq!(poll, WritePoll::Ready(Ok(0)));
}

#[test]
fn large_write_is_cut_into_frames() {
    let mut body = H3Body::new(4, true, false);
    let data: Vec<u8> = (0..2 * MAX_BUF_SIZE + 1).map(|i| (i % 251) as u8).collect();
    let (frames, poll) = write_all(&mut body, &data, false);
    let lengths: Vec<usize> = frames.iter().map(|f| f.0.len()).collect();
    assert_eq!(lengths, vec![65536, 65536, 1]);
    assert!(frames.iter().all(|f| !f.1));
    let joined: Vec<u8> = frames.iter().flat_map(|f| f.0.clone()).collect();
    assert_eq!(joined, data);
    assert_eq!(poll, WritePoll::Ready(Ok(131073)));
}

#[test]
fn only_the_last_frame_ends_the_body() {
    let mut body = H3Body::new(4, true, false);
    let data = vec![7u8; MAX_BUF_SIZE + 3];
    let (frames, poll) = write_all(&mut body, &data, true);
    let ends: Vec<(usize, bool)> = frames.iter().map(|f| (f.0.len(), f.1)).collect();
    assert_eq!(ends, vec![(65536, false), (3, true)]);
    assert_eq!(poll, WritePoll::Ready(Ok(65536)));
    assert!(body.wrote_fin);
}

#[test]
fn nothing_is_written_behind_the_end() {
    let mut body = H3Body::new(4, true, false);
    write_all(&mut body, b"", true);
    assert!(body.wrote_fin);
    let (frames, poll) = write_all(&mut body, b"more", false);
    assert!(frames.is_empty());
    assert_eq!(poll, WritePoll::Ready(Err(H3WriteError::WroteFin)));
}

#[test]
fn write_without_room_is_pending() {
    let mut body = H3Body::new(4, true, false);
    let mut call = Write::new(false);
    assert!(matches!(
        write(&mut body, &mut call, b"abc", WriteEvent::Begin),
        WriteAction::Reserve
    ));
    assert!(matches!(
        write(&mut body, &mut call, b"abc", WriteEvent::NoRoom),
        WriteAction::Return(WritePoll::Pending)
    ));
}

#[test]
fn write_with_room_for_a_part_reports_that_part() {
    let mut body = H3Body::new(4, true, false);
    let mut call = Write::new(false);
    let data = vec![1u8; MAX_BUF_SIZE + 10];
    write(&mut body, &mut call, &data, WriteEvent::Begin);
    write(&mut body, &mut call, &data, WriteEvent::Reserved);
    write(&mut body, &mut call, &data, WriteEvent::Sent);
    assert!(matches!(
        write(&mut body, &mut call, &data, WriteEvent::NoRoom),
        WriteAction::Return(WritePoll::Ready(Ok(65536)))
    ));
}

#[test]
fn write_to_a_lost_stream_fails() {
    for at_reserve in [true, false] {
        let mut body = H3Body::new(4, true, false);
        let mut call = Write::new(false);
        write(&mut body, &mut call, b"abc", WriteEvent::Begin);
        let action = if at_reserve {
            write(&mut body, &mut call, b"abc", WriteEvent::ReserveFailed)
        } else {
            write(&mut body, &mut call, b"abc", WriteEvent::Reserved);
            write(&mut body, &mut call, b"abc", WriteEvent::SendFailed)
        };
        assert!(matches!(
            action,
            WriteAction::Return(WritePoll::Ready(Err(H3WriteError::NoStreamState)))
        ));
    }
}

#[test]
fn write_errors_in_words() {
    assert_eq!(H3WriteError::WroteFin.message(), "H3 write: wrote fin");
    assert_eq!(
        H3WriteError::NoStreamState.message(),
        "H3 write: no stream state"
    );
    assert_eq!(
        H3WriteError::NoConnectionState.message(),
        "H3 write: no connection state"
    );
}

#[test]
fn shutdown_sends_a_bare_end_once() {
    let mut body = H3Body::new(4, true, false);
    let mut call = body.poll_shutdown().unwrap();
    assert!(matches!(
        write(&mut body, &mut call, &[], WriteEvent::Begin),
        WriteAction::Reserve
    ));
    match write(&mut body, &mut call, &[], WriteEvent::Reserved) {
        WriteAction::Send(OutboundFrame::Body(data, fin)) => {
            assert!(data.is_empty());
            assert!(fin);
        }
        _ => panic!("no frame"),
    }
    match write(&mut body, &mut call, &[], WriteEvent::Sent) {
        WriteAction::Return(poll) => assert_eq!(shutdown_outcome(poll), ShutdownPoll::Ready),
        _ => panic!("no end"),
    }
    assert!(body.poll_shutdown().is_none());
}

#[test]
fn shutdown_outcomes() {
    assert_eq!(shutdown_outcome(WritePoll::Ready(Ok(0))), ShutdownPoll::Ready);
    assert_eq!(
        shutdown_outcome(WritePoll::Ready(Err(H3WriteError::NoStreamState))),
        ShutdownPoll::Ready
    );
    assert_eq!(shutdown_outcome(WritePoll::Pending), ShutdownPoll::Pending);
}

fn read(body: &mut H3Body, call: &mut Read, room: usize, event: ReadEvent) -> (Vec<u8>, ReadNext) {
    assert!(body.accepts(call, &event));
    let action = body.poll_read(call, room, event);
    (
        action.deliver.map(|d| d.to_vec()).unwrap_or_default(),
        action.next,
    )
}

#[test]
fn read_delivers_a_frame_and_asks_for_the_next() {
    let mut body = H3Body::new(4, true, false);
    let mut call = Read::new();
    assert_eq!(
        read(&mut body, &mut call, 10, ReadEvent::Begin),
        (Vec::new(), ReadNext::Receive)
    );
    assert_eq!(
        read(&mut body, &mut call, 10, ReadEvent::Received(bytes_of(b"abc"), false)),
        (b"abc".to_vec(), ReadNext::Receive)
    );
    assert_eq!(
        read(&mut body, &mut call, 7, ReadEvent::NoFrame),
        (Vec::new(), ReadNext::Ready)
    );
}

#[test]
fn read_without_a_frame_is_pending() {
    let mut body = H3Body::new(4, true, false);
    let mut call = Read::new();
    read(&mut body, &mut call, 10, ReadEvent::Begin);
    assert_eq!(
        read(&mut body, &mut call, 10, ReadEvent::NoFrame),
        (Vec::new(), ReadNext::Pending)
    );
}

#[test]
fn read_keeps_what_does_not_fit() {
    let mut body = H3Body::new(4, true, false);
    let mut call = Read::new();
    read(&mut body, &mut call, 2, ReadEvent::Begin);
    assert_eq!(
        read(&mut body, &mut call, 2, ReadEvent::Received(bytes_of(b"abcde"), true)),
        (b"ab".to_vec(), ReadNext::Ready)
    );
    assert!(!body.read_fin);
    let mut call = Read::new();
    assert_eq!(
        read(&mut body, &mut call, 10, ReadEvent::Begin),
        (b"cde".to_vec(), ReadNext::CloseAndReady)
    );
    assert!(body.read_fin);
}

#[test]
fn read_of_a_full_frame_fills_the_room() {
    let mut body = H3Body::new(4, true, false);
    let mut call = Read::new();
    read(&mut body, &mut call, 3, ReadEvent::Begin);
    assert_eq!(
        read(&mut body, &mut call, 3, ReadEvent::Received(bytes_of(b"abc"), false)),
        (b"abc".to_vec(), ReadNext::Receive)
    );
}

#[test]
fn nothing_is_read_after_the_end() {
    let mut body = H3Body::new(4, true, true);
    let mut call = Read::new();
    assert_eq!(
        read(&mut body, &mut call, 10, ReadEvent::Begin),
        (Vec::new(), ReadNext::CloseAndReady)
    );
    let mut body = H3Body::new(4, false, true);
    let mut call = Read::new();
    assert_eq!(
        read(&mut body, &mut call, 10, ReadEvent::Begin),
        (Vec::new(), ReadNext::Ready)
    );
}

#[test]
fn read_of_a_closed_stream_is_ready() {
    let mut body = H3Body::new(4, true, false);
    let mut call = Read::new();
    read(&mut body, &mut call, 10, ReadEvent::Begin);
    assert_eq!(
        read(&mut body, &mut call, 10, ReadEvent::Closed),
        (Vec::new(), ReadNext::Ready)
    );
    let mut body = H3Body::new(4, false, false);
    let mut call = Read::new();
    assert_eq!(
        read(&mut body, &mut call, 10, ReadEvent::Begin),
        (Vec::new(), ReadNext::Ready)
    );
}

fn send(transfer: &mut Transfer, event: TransferEvent) -> TransferAction {
    assert!(transfer.accepts(&event));
    transfer.send_hyper_body(event)
}

#[test]
fn body_is_sent_in_frames_and_ended() {
    let (mut transfer, action) = Transfer::start();
    assert!(matches!(action, TransferAction::NextChunk));
    let data: Vec<u8> = (0..MAX_BUF_SIZE + 2).map(|i| (i % 253) as u8).collect();
    match send(&mut transfer, TransferEvent::Chunk(Bytes::from(data.clone()))) {
        TransferAction::Send(OutboundFrame::Body(front, false)) => {
            assert_eq!(&front[..], &data[..MAX_BUF_SIZE]);
        }
        _ => panic!("no frame"),
    }
    match send(&mut transfer, TransferEvent::Sent) {
        TransferAction::Send(OutboundFrame::Body(rest, false)) => {
            assert_eq!(&rest[..], &data[MAX_BUF_SIZE..]);
        }
        _ => panic!("no frame"),
    }
    assert!(matches!(
        send(&mut transfer, TransferEvent::Sent),
        TransferAction::NextChunk
    ));
    assert!(matches!(
        send(&mut transfer, TransferEvent::Chunk(Bytes::new())),
        TransferAction::NextChunk
    ));
    match send(&mut transfer, TransferEvent::End) {
        TransferAction::Send(OutboundFrame::Body(data, fin)) => {
            assert!(data.is_empty());
            assert!(fin);
        }
        _ => panic!("no end"),
    }
    assert!(matches!(
        send(&mut transfer, TransferEvent::Sent),
        TransferAction::Finish(true)
    ));
    assert_eq!(transfer.stage, TransferStage::Over);
}

#[test]
fn failed_body_is_reported_to_the_peer() {
    let (mut transfer, _) = Transfer::start();
    assert!(matches!(
        send(&mut transfer, TransferEvent::Failed),
        TransferAction::Send(OutboundFrame::PeerStreamError)
    ));
    assert!(matches!(
        send(&mut transfer, TransferEvent::Sent),
        TransferAction::Finish(false)
    ));
}

#[test]
fn transfer_stops_when_a_frame_cannot_be_sent() {
    for ends in [true, false] {
        let (mut transfer, _) = Transfer::start();
        if ends {
            send(&mut transfer, TransferEvent::End);
        } else {
            send(&mut transfer, TransferEvent::Chunk(Bytes::from_static(b"abc")));
        }
        assert!(matches!(
            send(&mut transfer, TransferEvent::SendFailed),
            TransferAction::Finish(false)
        ));
        assert!(!transfer.accepts(&TransferEvent::Sent));
    }
}

#[test]
fn datagram_is_no_stream_data() {
    let mut body = H3Body::new(4, true, false);
    let mut call = Read::new();
    read(&mut body, &mut call, 10, ReadEvent::Begin);
    assert_eq!(
        read(&mut body, &mut call, 10, ReadEvent::Datagram),
        (Vec::new(), ReadNext::Receive)
    );
    assert!(body.pending_recv.is_none());
    assert!(!body.read_fin);
    assert_eq!(
        read(&mut body, &mut call, 10, ReadEvent::Received(bytes_of(b"abc"), true)),
        (b"abc".to_vec(), ReadNext::CloseAndReady)
    );
}

#[test]
fn datagram_alone_leaves_a_read_pending() {
    let mut body = H3Body::new(4, true, false);
    let mut call = Read::new();
    assert!(!body.accepts(&call, &ReadEvent::Datagram));
    read(&mut body, &mut call, 10, ReadEvent::Begin);
    read(&mut body, &mut call, 10, ReadEvent::Datagram);
    assert_eq!(
        read(&mut body, &mut call, 10, ReadEvent::NoFrame),
        (Vec::new(), ReadNext::Pending)
    );
}

#[test]
fn calls_that_do_not_fit_are_not_accepted() {
    let sent = Write {
        fin: false,
        sent: Some(4),
        stage: WriteStage::Reserving,
    };
    assert!(sent.accepts(b"hello", WriteEvent::Reserved));
    assert!(!sent.accepts(b"hell", WriteEvent::Reserved));
    assert!(!sent.accepts(b"hel", WriteEvent::Reserved));
    let mut body = H3Body::new(4, true, false);
    let mut call = Read::new();
    read(&mut body, &mut call, 10, ReadEvent::Begin);
    assert!(body.accepts(&call, &ReadEvent::NoFrame));
    body.pending_recv = Some((bytes_of(b"abc"), false));
    assert!(!body.accepts(&call, &ReadEvent::NoFrame));
}
