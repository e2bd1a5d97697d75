//! Frames of body data, and the `bytes` crate's buffers that hold them.

use vstd::prelude::*;

verus! {

#[verifier::external_type_specification]
#[verifier::external_body]
pub struct ExBytes(bytes::Bytes);

#[verifier::external_type_specification]
#[verifier::external_body]
pub struct ExBytesMut(bytes::BytesMut);

/// The bytes that a `bytes::Bytes` holds.
pub uninterp spec fn bytes_view(bytes: bytes::Bytes) -> Seq<u8>;

/// The bytes that a `bytes::BytesMut` holds.
pub uninterp spec fn bytes_mut_view(bytes: bytes::BytesMut) -> Seq<u8>;

/// `bytes::Bytes::new` holds no bytes.
pub assume_specification[ bytes::Bytes::new ]() -> (bytes: bytes::Bytes)
    ensures
        bytes_view(bytes) == Seq::<u8>::empty(),
;

/// `bytes::Bytes::copy_from_slice` holds the bytes of the slice.
pub assume_specification[ bytes::Bytes::copy_from_slice ](data: &[u8]) -> (bytes: bytes::Bytes)
    ensures
        bytes_view(bytes) == data@,
;

/// `bytes::Bytes::len` is the number of bytes held.
pub assume_specification[ bytes::Bytes::len ](bytes: &bytes::Bytes) -> (len: usize)
    ensures
        len == bytes_view(*bytes).len(),
;

/// `bytes::Bytes::split_to` takes the first `at` bytes out and leaves the rest.
/// It panics where there are fewer.
pub assume_specification[ bytes::Bytes::split_to ](
    bytes: &mut bytes::Bytes,
    at: usize,
) -> (front: bytes::Bytes)
    requires
        at <= bytes_view(*old(bytes)).len(),
    ensures
        bytes_view(front) == bytes_view(*old(bytes)).take(at as int),
        bytes_view(*final(bytes)) == bytes_view(*old(bytes)).skip(at as int),
;

/// `bytes::BytesMut::len` is the number of bytes held.
pub assume_specification[ bytes::BytesMut::len ](bytes: &bytes::BytesMut) -> (len: usize)
    ensures
        len == bytes_mut_view(*bytes).len(),
;

/// `bytes::BytesMut::split_to` takes the first `at` bytes out and leaves the
/// rest. It panics where there are fewer.
pub assume_specification[ bytes::BytesMut::split_to ](
    bytes: &mut bytes::BytesMut,
    at: usize,
) -> (front: bytes::BytesMut)
    requires
        at <= bytes_mut_view(*old(bytes)).len(),
    ensures
        bytes_mut_view(front) == bytes_mut_view(*old(bytes)).take(at as int),
        bytes_mut_view(*final(bytes)) == bytes_mut_view(*old(bytes)).skip(at as int),
;

/// The most bytes that one frame carries, so that it stays within the limits of
/// the QUIC stack's buffer pool.
pub const MAX_BUF_SIZE: usize = 65536;

/// A frame that goes out on a stream.
#[derive(Debug)]
pub enum OutboundFrame {
    /// Body data, and whether it is the last.
    Body(bytes::Bytes, bool),
    /// The body broke off.
    PeerStreamError,
}

/// A frame over plain sequences.
pub enum FrameView {
    Body(Seq<u8>, bool),
    PeerStreamError,
}

impl View for OutboundFrame {
    type V = FrameView;

    open spec fn view(&self) -> FrameView {
        match self {
            OutboundFrame::Body(data, fin) => FrameView::Body(bytes_view(*data), *fin),
            OutboundFrame::PeerStreamError => FrameView::PeerStreamError,
        }
    }
}

/// The data of frames, one behind the other.
pub open spec fn joined(frames: Seq<FrameView>) -> Seq<u8>
    decreases frames.len(),
{
    if frames.len() == 0 {
        Seq::empty()
    } else {
        joined(frames.drop_last()) + match frames.last() {
            FrameView::Body(data, _) => data,
            FrameView::PeerStreamError => Seq::empty(),
        }
    }
}

/// A frame's view says what the frame holds.
pub proof fn frame_views_are_faithful(frame: OutboundFrame)
    ensures
        frame matches OutboundFrame::Body(data, fin) ==> frame@ == FrameView::Body(
            bytes_view(data),
            fin,
        ),
        frame is PeerStreamError ==> frame@ is PeerStreamError,
{
}

/// The data of frames is that of each of them, in their order.
pub proof fn joined_frames_keep_their_order(front: Seq<FrameView>, data: Seq<u8>, fin: bool)
    ensures
        joined(Seq::empty()) == Seq::<u8>::empty(),
        joined(front.push(FrameView::Body(data, fin))) == joined(front) + data,
        joined(front.push(FrameView::PeerStreamError)) == joined(front),
{
    assert(front.push(FrameView::Body(data, fin)).drop_last() =~= front);
    assert(front.push(FrameView::PeerStreamError).drop_last() =~= front);
    assert(joined(front) + Seq::<u8>::empty() =~= joined(front));
}

/// A frame carries at most 64 KiB.
pub proof fn frames_are_limited()
    ensures
        MAX_BUF_SIZE == 64 * 1024,
{
}

} // verus!
