//! CAN frames as the daemon reads them from, and writes them to, SocketCAN.
//!
//! A received data frame becomes its raw identifier and an eight-byte
//! payload buffer holding the frame's bytes followed by zeros; the simulated
//! ride's frames are turned into SocketCAN frames for the demo injector.

use socketcan::{CanDataFrame, CanFrame, EmbeddedFrame, Frame};
use vstd::prelude::*;

verus! {

/// Largest raw identifier of a CAN frame (29-bit extended identifier).
pub const CAN_MAX_RAW_ID: u32 = 0x1FFF_FFFF;

/// Payload capacity of a classic CAN frame.
pub const CAN_MAX_DLEN: usize = 8;

#[verifier::external_type_specification]
#[verifier::external_body]
pub struct ExCanDataFrame(CanDataFrame);

#[verifier::external_type_specification]
#[verifier::external_body]
pub struct ExCanFrame(CanFrame);

/// The raw identifier socketcan's `Frame::raw_id` reads from a data frame.
pub uninterp spec fn data_frame_raw_id(frame: CanDataFrame) -> u32;

/// The payload socketcan's `EmbeddedFrame::data` reads from a data frame.
pub uninterp spec fn data_frame_data(frame: CanDataFrame) -> Seq<u8>;

/// The frame socketcan's `Frame::from_raw_id` builds from an identifier and
/// a payload, when it builds one.
pub uninterp spec fn spec_frame_from_raw_id(id: u32, data: Seq<u8>) -> CanFrame;

/// Trusted: `Frame::raw_id` of a data frame is [`data_frame_raw_id`] of that
/// frame; it masks the identifier word with the 29-bit extended or the
/// 11-bit standard mask, so it is at most `0x1FFF_FFFF`.
#[verifier::external_body]
fn data_frame_id(frame: &CanDataFrame) -> (id: u32)
    ensures
        id == data_frame_raw_id(*frame),
        id <= CAN_MAX_RAW_ID,
{
    frame.raw_id()
}

/// Trusted: `EmbeddedFrame::data` of a data frame is [`data_frame_data`] of
/// that frame: the slice of its payload up to its length code, which is
/// never above eight.
#[verifier::external_body]
fn data_frame_bytes(frame: &CanDataFrame) -> (data: &[u8])
    ensures
        data@ == data_frame_data(*frame),
        data@.len() <= CAN_MAX_DLEN,
{
    frame.data()
}

/// Trusted: `Frame::from_raw_id` builds a classic CAN frame exactly when the
/// identifier fits 29 bits and the payload holds at most eight bytes
/// (`embedded_can::ExtendedId::new` / `StandardId::new` and the
/// `CAN_MAX_DLEN` check); the frame it builds is [`spec_frame_from_raw_id`]
/// of the identifier and the payload.
#[verifier::external_body]
fn frame_from_raw_id(id: u32, data: &[u8]) -> (frame: Option<CanFrame>)
    ensures
        frame is Some <==> (id <= CAN_MAX_RAW_ID && data@.len() <= CAN_MAX_DLEN),
        frame matches Some(f) ==> f == spec_frame_from_raw_id(id, data@),
{
    CanFrame::from_raw_id(id, data)
}

/// The number of payload bytes kept from `data`.
pub open spec fn kept_len(data: Seq<u8>) -> int {
    if data.len() < CAN_MAX_DLEN {
        data.len() as int
    } else {
        CAN_MAX_DLEN as int
    }
}

/// The eight-byte payload buffer of `data`: its first bytes (at most eight),
/// then zeros.
pub open spec fn padded(data: Seq<u8>) -> Seq<u8> {
    Seq::new(CAN_MAX_DLEN as nat, |i: int| if i < kept_len(data) { data[i] } else { 0u8 })
}

/// The payload buffer is always eight bytes: the first `min(len, 8)` are the
/// data's, in order, and the rest are zero; the kept length is
/// `min(len, 8)`.
pub proof fn lemma_padding(data: Seq<u8>)
    ensures
        padded(data).len() == 8,
        kept_len(data) == if data.len() < 8 {
            data.len() as int
        } else {
            8
        },
        forall|i: int| 0 <= i < 8 && i < data.len() ==> #[trigger] padded(data)[i] == data[i],
        forall|i: int| 0 <= i < 8 && i >= data.len() ==> #[trigger] padded(data)[i] == 0u8,
{
}

/// Copy the first (at most eight) bytes of `data` into a zeroed eight-byte
/// buffer; returns the buffer and the number of bytes copied.
pub fn pad_payload(data: &[u8]) -> (r: ([u8; 8], usize))
    ensures
        r.1 == kept_len(data@),
        r.0@ == padded(data@),
{
    let len = if data.len() < CAN_MAX_DLEN {
        data.len()
    } else {
        CAN_MAX_DLEN
    };
    let mut payload = [0u8; 8];
    let mut i: usize = 0;
    while i < len
        invariant
            len == kept_len(data@),
            len <= data@.len(),
            len <= 8,
            i <= len,
            forall|j: int| 0 <= j < i ==> payload@[j] == data@[j],
            forall|j: int| i <= j < 8 ==> payload@[j] == 0u8,
        decreases len - i,
    {
        payload[i] = data[i];
        i = i + 1;
    }
    assert(payload@ =~= padded(data@));
    (payload, len)
}

/// A received data frame as the decoder takes it: its raw identifier, its
/// payload padded to eight bytes, and the number of bytes it carried.
pub fn split_data_frame(frame: &CanDataFrame) -> (r: (u32, [u8; 8], usize))
    ensures
        r.0 == data_frame_raw_id(*frame),
        r.0 <= CAN_MAX_RAW_ID,
        r.1@ == padded(data_frame_data(*frame)),
        r.2 == kept_len(data_frame_data(*frame)),
        r.2 == data_frame_data(*frame).len(),
{
    let id = data_frame_id(frame);
    let data = data_frame_bytes(frame);
    let (payload, len) = pad_payload(data);
    (id, payload, len)
}

/// The SocketCAN frames for a batch of encoded `(identifier, payload)`
/// pairs, in order; a pair whose identifier does not fit 29 bits has no
/// frame; every other pair's frame is the one `from_raw_id` builds from its
/// identifier and payload.
pub fn bus_frames(frames: &[(u32, [u8; 8])]) -> (out: Vec<Option<CanFrame>>)
    ensures
        out@.len() == frames@.len(),
        forall|i: int| 0 <= i < frames@.len() ==> (#[trigger] out@[i] is Some <==> frames@[i].0 <= CAN_MAX_RAW_ID),
        forall|i: int| 0 <= i < frames@.len() ==> (#[trigger] out@[i] matches Some(f) ==> f == spec_frame_from_raw_id(frames@[i].0, frames@[i].1@)),
{
    let mut out: Vec<Option<CanFrame>> = Vec::new();
    let mut i: usize = 0;
    while i < frames.len()
        invariant
            i <= frames@.len(),
            out@.len() == i,
            forall|j: int| 0 <= j < i ==> (#[trigger] out@[j] is Some <==> frames@[j].0 <= CAN_MAX_RAW_ID),
            forall|j: int| 0 <= j < i ==> (#[trigger] out@[j] matches Some(f) ==> f == spec_frame_from_raw_id(frames@[j].0, frames@[j].1@)),
        decreases frames@.len() - i,
    {
        let (id, payload) = frames[i];
        let frame = frame_from_raw_id(id, payload.as_slice());
        out.push(frame);
        i = i + 1;
    }
    out
}

} // verus!
