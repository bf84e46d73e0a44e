use sigma_racer_vehicle::can::{bus_frames, pad_payload, split_data_frame, CAN_MAX_RAW_ID};
use socketcan::{CanDataFrame, CanFrame, EmbeddedFrame, ExtendedId, Frame, StandardId};

#[test]
fn pad_short_payload_with_zeros() {
    let (payload, len) = pad_payload(&[0xAA, 0xBB, 0xCC]);
    assert_eq!(len, 3);
    assert_eq!(payload, [0xAA, 0xBB, 0xCC, 0, 0, 0, 0, 0]);
}

#[test]
fn pad_keeps_at_most_eight_bytes() {
    let (payload, len) = pad_payload(&[1, 2, 3, 4, 5, 6, 7, 8, 9, 10]);
    assert_eq!(len, 8);
    assert_eq!(payload, [1, 2, 3, 4, 5, 6, 7, 8]);
    let (payload, len) = pad_payload(&[]);
    assert_eq!(len, 0);
    assert_eq!(payload, [0; 8]);
}

#[test]
fn split_standard_data_frame() {
    let frame = CanDataFrame::new(StandardId::new(0x123).unwrap(), &[9, 8, 7]).unwrap();
    let (id, payload, len) = split_data_frame(&frame);
    assert_eq!(id, 0x123);
    assert_eq!(len, 3);
    assert_eq!(payload, [9, 8, 7, 0, 0, 0, 0, 0]);
}

#[test]
fn split_extended_data_frame() {
    let frame = CanDataFrame::new(ExtendedId::new(0x18FF_50E5).unwrap(), &[1; 8]).unwrap();
    let (id, payload, len) = split_data_frame(&frame);
    assert_eq!(id, 0x18FF_50E5);
    assert_eq!(len, 8);
    assert_eq!(payload, [1; 8]);
}

#[test]
fn bus_frames_rejects_ids_beyond_29_bits() {
    let frames = [(0x100, [1, 2, 3, 4, 5, 6, 7, 8]), (CAN_MAX_RAW_ID + 1, [0; 8]), (CAN_MAX_RAW_ID, [0; 8])];
    let out = bus_frames(&frames);
    assert_eq!(out.len(), 3);
    let first: CanFrame = out[0].expect("valid id");
    assert_eq!(first.raw_id(), 0x100);
    assert_eq!(first.data(), &[1, 2, 3, 4, 5, 6, 7, 8]);
    assert!(out[1].is_none());
    assert_eq!(out[2].expect("largest id").raw_id(), CAN_MAX_RAW_ID);
}

#[test]
fn bus_frames_of_nothing_is_nothing() {
    assert!(bus_frames(&[]).is_empty());
}
