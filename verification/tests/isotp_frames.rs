use uds_isotp::isotp::common::{FlowControlContext, FlowControlState};
use uds_isotp::isotp::error::IsoTpError;
use uds_isotp::isotp::frame::{Frame, FrameProcessor, FrameType};

fn encode_all(frames: Vec<Frame>) -> Vec<Vec<u8>> {
    frames.into_iter().map(|f| f.encode(None)).collect()
}

#[test]
fn decode_single_frame_from_can_data() {
    let frame = Frame::decode(&[0x02, 0x10, 0x01]).unwrap();
    match frame {
        Frame::SingleFrame { data } => assert_eq!(data, vec![0x10, 0x01]),
        other => panic!("unexpected frame: {:?}", other),
    }
}

#[test]
fn encode_single_frame_pads_with_default() {
    let frame = Frame::SingleFrame { data: vec![0x10, 0x01] };
    assert_eq!(frame.encode(None), vec![0x02, 0x10, 0x01, 0xAA, 0xAA, 0xAA, 0xAA, 0xAA]);
    let frame = Frame::SingleFrame { data: vec![0x10, 0x01] };
    assert_eq!(frame.encode(Some(0x55)), vec![0x02, 0x10, 0x01, 0x55, 0x55, 0x55, 0x55, 0x55]);
}

#[test]
fn segmentation_of_twenty_bytes() {
    let data: Vec<u8> = (0u8..20).collect();
    let frames = Frame::from_data(&data).unwrap();
    assert_eq!(frames.len(), 3);
    let encoded = encode_all(frames);
    assert_eq!(encoded[0], vec![0x10, 0x14, 0, 1, 2, 3, 4, 5]);
    assert_eq!(encoded[1], vec![0x21, 6, 7, 8, 9, 10, 11, 12]);
    assert_eq!(encoded[2], vec![0x22, 13, 14, 15, 16, 17, 18, 19]);
    for bytes in encoded.iter() {
        assert_eq!(bytes.len(), 8);
    }
}

#[test]
fn segmentation_of_short_data_is_one_single_frame() {
    let frames = Frame::from_data(&[1, 2, 3]).unwrap();
    assert_eq!(frames.len(), 1);
    match &frames[0] {
        Frame::SingleFrame { data } => assert_eq!(data, &vec![1, 2, 3]),
        other => panic!("unexpected frame: {:?}", other),
    }
}

#[test]
fn segmentation_of_long_data_uses_32_bit_length() {
    let data = vec![0x5Au8; 0x1000];
    let frames = Frame::from_data(&data).unwrap();
    // 2 bytes in the first frame, then 4094 bytes in frames of 7.
    assert_eq!(frames.len(), 1 + (4094 + 6) / 7);
    let encoded = encode_all(frames);
    assert_eq!(encoded[0], vec![0x10, 0x00, 0x00, 0x00, 0x10, 0x00, 0x5A, 0x5A]);
    assert_eq!(encoded[1][0], 0x21);
    assert_eq!(encoded[15][0], 0x2F);
    assert_eq!(encoded[16][0], 0x20);
}

#[test]
fn segmentation_of_empty_data_fails() {
    assert!(matches!(Frame::from_data(&[]), Err(IsoTpError::EmptyPdu)));
}

#[test]
fn first_frame_roundtrip() {
    let frame = Frame::FirstFrame { length: 20, data: vec![0, 1, 2, 3, 4, 5] };
    let bytes = frame.encode(None);
    match Frame::decode(&bytes).unwrap() {
        Frame::FirstFrame { length, data } => {
            assert_eq!(length, 20);
            assert_eq!(data, vec![0, 1, 2, 3, 4, 5]);
        }
        other => panic!("unexpected frame: {:?}", other),
    }
}

#[test]
fn consecutive_frame_roundtrip_keeps_padding() {
    let frame = Frame::ConsecutiveFrame { sequence: 3, data: vec![9, 8, 7] };
    let bytes = frame.encode(Some(0x00));
    assert_eq!(bytes, vec![0x23, 9, 8, 7, 0, 0, 0, 0]);
    match Frame::decode(&bytes).unwrap() {
        Frame::ConsecutiveFrame { sequence, data } => {
            assert_eq!(sequence, 3);
            assert_eq!(data, vec![9, 8, 7, 0, 0, 0, 0]);
        }
        other => panic!("unexpected frame: {:?}", other),
    }
}

#[test]
fn flow_control_frame_roundtrip() {
    let frame = Frame::flow_ctrl_frame(FlowControlState::Wait, 8, 0xF3).unwrap();
    let bytes = frame.encode(None);
    assert_eq!(bytes, vec![0x31, 0x08, 0xF3, 0xAA, 0xAA, 0xAA, 0xAA, 0xAA]);
    match Frame::decode(&bytes).unwrap() {
        Frame::FlowControlFrame(ctx) => {
            assert_eq!(ctx.state(), FlowControlState::Wait);
            assert_eq!(ctx.block_size(), 8);
            assert_eq!(ctx.st_min(), 0xF3);
            assert_eq!(ctx.st_min_us(), 300);
        }
        other => panic!("unexpected frame: {:?}", other),
    }
}

#[test]
fn default_flow_control_frame_bytes() {
    assert_eq!(
        Frame::default_flow_ctrl_frame().encode(None),
        vec![0x30, 0x00, 0x0A, 0xAA, 0xAA, 0xAA, 0xAA, 0xAA]
    );
}

#[test]
fn single_frame_constructor() {
    match Frame::single_frame(&[0x3E, 0x00]).unwrap() {
        Frame::SingleFrame { data } => assert_eq!(data, vec![0x02, 0x3E, 0x00, 0xAA, 0xAA, 0xAA, 0xAA]),
        other => panic!("unexpected frame: {:?}", other),
    }
    assert!(matches!(Frame::single_frame(&[]), Err(IsoTpError::EmptyPdu)));
    assert!(matches!(Frame::single_frame(&[0; 8]), Err(IsoTpError::LengthOutOfRange(8))));
}

#[test]
fn decode_errors() {
    assert!(matches!(Frame::decode(&[]), Err(IsoTpError::EmptyPdu)));
    match Frame::decode(&[0x40, 0x00]) {
        Err(IsoTpError::InvalidParam(msg)) => assert_eq!(msg, "`frame type`(64)"),
        other => panic!("unexpected result: {:?}", other),
    }
    match Frame::decode(&[0x4F, 0x00]) {
        Err(IsoTpError::InvalidParam(msg)) => assert_eq!(msg, "`frame type`(64)"),
        other => panic!("unexpected result: {:?}", other),
    }
    match Frame::decode(&[0x10]) {
        Err(IsoTpError::InvalidPdu(bytes)) => assert_eq!(bytes, vec![0x10]),
        other => panic!("unexpected result: {:?}", other),
    }
    match Frame::decode(&[0x33, 0x00, 0x00]) {
        Err(IsoTpError::InvalidParam(msg)) => assert_eq!(msg, "`state` (3)"),
        other => panic!("unexpected result: {:?}", other),
    }
    assert!(matches!(Frame::decode(&[0x30, 0x00, 0x80]), Err(IsoTpError::InvalidStMin(0x80))));
    assert!(matches!(Frame::decode(&[0x05, 1, 2]), Err(IsoTpError::InvalidPdu(_))));
    assert!(matches!(Frame::decode(&[0x01, 1, 2, 3, 4, 5, 6, 7, 8]), Err(IsoTpError::LengthOutOfRange(9))));
}

#[test]
fn frame_types() {
    assert_eq!(FrameType::try_from_u8(0x2A).unwrap(), FrameType::Consecutive);
    assert_eq!(FrameType::FlowControl.to_u8(), 0x30);
    let frame = Frame::ConsecutiveFrame { sequence: 1, data: vec![] };
    assert_eq!(frame.frame_type(), FrameType::Consecutive);
}

#[test]
fn flow_control_context_rejects_reserved_separation_time() {
    assert!(matches!(
        FlowControlContext::new(FlowControlState::Continues, 0, 0xFA),
        Err(IsoTpError::InvalidStMin(0xFA))
    ));
    let ctx = FlowControlContext::new(FlowControlState::Continues, 0, 0x7F).unwrap();
    assert_eq!(ctx.st_min_us(), 127_000);
    match FlowControlState::try_from_u8(7) {
        Err(IsoTpError::InvalidParam(msg)) => assert_eq!(msg, "`state` (7)"),
        other => panic!("unexpected result: {:?}", other),
    }
}

#[test]
fn error_messages_write_bytes_in_decimal() {
    match FrameType::try_from_u8(0xF3) {
        Err(IsoTpError::InvalidParam(msg)) => assert_eq!(msg, "`frame type`(240)"),
        other => panic!("unexpected result: {:?}", other),
    }
    match FrameType::try_from_u8(0xA0) {
        Err(IsoTpError::InvalidParam(msg)) => assert_eq!(msg, "`frame type`(160)"),
        other => panic!("unexpected result: {:?}", other),
    }
    match FlowControlState::try_from_u8(0xFF) {
        Err(IsoTpError::InvalidParam(msg)) => assert_eq!(msg, "`state` (255)"),
        other => panic!("unexpected result: {:?}", other),
    }
    match FlowControlState::try_from_u8(100) {
        Err(IsoTpError::InvalidParam(msg)) => assert_eq!(msg, "`state` (100)"),
        other => panic!("unexpected result: {:?}", other),
    }
    match FlowControlState::try_from_u8(42) {
        Err(IsoTpError::InvalidParam(msg)) => assert_eq!(msg, "`state` (42)"),
        other => panic!("unexpected result: {:?}", other),
    }
}
