use std::collections::HashMap;
use uds_isotp::isotp::address::Address;
use uds_isotp::isotp::frame::{Frame, FrameProcessor};
use uds_isotp::isotp::reassembly::Event;
use uds_isotp::isotp::state::{State, STATE_ERROR};
use uds_isotp::isotp::transfer::{Reaction, Transfer};
use uds_isotp::uds::params::DataIdentifier;
use uds_isotp::uds::response::dynamically_define_did::DynamicallyDefineDID;
use uds_isotp::uds::response::io_ctrl::IOCtrl;
use uds_isotp::uds::response::message::Response;
use uds_isotp::uds::response::routine_ctrl::RoutineCtrl;
use uds_isotp::uds::response::session_ctrl::SessionTiming;
use uds_isotp::uds::response::write_did::WriteDID;
use uds_isotp::uds::types::IOCtrlParameter;
use uds_isotp::uds::utils::{slice_to_u128, u128_to_vec};

#[test]
fn segmented_message_reassembles_through_a_transfer() {
    let data: Vec<u8> = (0..100u32).map(|v| (v * 7 % 256) as u8).collect();
    let frames: Vec<Vec<u8>> = Frame::from_data(&data).unwrap().into_iter().map(|f| f.encode(None)).collect();
    let mut receiver = Transfer::new(Address::default_address());
    assert!(matches!(receiver.on_frame(&frames[0]), Reaction::Reply(_)));
    assert!(matches!(receiver.on_reply_sent(true), Event::FirstFrameReceived));
    let last = frames.len() - 1;
    for (i, bytes) in frames.iter().enumerate().skip(1) {
        match receiver.on_frame(bytes) {
            Reaction::Report(Event::Wait) => assert!(i < last),
            Reaction::Report(Event::DataReceived(received)) => {
                assert_eq!(i, last);
                assert_eq!(received.to_vec(), data);
            }
            other => panic!("unexpected reaction: {:?}", other),
        }
    }
}

#[test]
fn error_state_survives_received_frames() {
    let mut t = Transfer::new(Address::default_address());
    assert!(matches!(t.on_frame(&[0x21, 0x00]), Reaction::Report(Event::ErrorOccurred(_))));
    assert!(t.state_contains(State::from_bits(STATE_ERROR)));
    assert!(matches!(t.on_frame(&[0x02, 0x50, 0x01]), Reaction::Report(Event::DataReceived(_))));
    assert!(matches!(t.on_frame(&[0x30, 0x00, 0x00]), Reaction::Nothing));
    assert!(t.state_contains(State::from_bits(STATE_ERROR)));
}

#[test]
fn integer_bytes_roundtrip() {
    for v in [0u128, 1, 0xFF, 0x1234, 0xDEAD_BEEF, u128::MAX] {
        assert_eq!(slice_to_u128(&u128_to_vec(v, 16)), v);
    }
    let bytes = [0x00, 0x12, 0x34];
    assert_eq!(u128_to_vec(slice_to_u128(&bytes), 3), bytes.to_vec());
}

#[test]
fn session_timing_bytes_roundtrip_within_maximums() {
    let timing = SessionTiming::new(25, 3000);
    let bytes = timing.to_bytes();
    assert_eq!(bytes, vec![0x00, 0x19, 0x01, 0x2C]);
    let read = SessionTiming::try_from(&bytes).unwrap();
    assert_eq!(read, timing);
    assert_eq!(SessionTiming::new(read.p2_ms() as u16, read.p2_star_ms() as u32), timing);
}

#[test]
fn other_response_data_roundtrips() {
    let mut cfg: HashMap<u16, usize> = HashMap::new();
    cfg.insert(0x0102, 2);

    let bytes = hex::decode("6F010203AABB").unwrap();
    let response = Response::try_from_bytes(&bytes, &cfg).unwrap();
    let io = IOCtrl::try_with_config(&response, &cfg).unwrap();
    assert_eq!(io, IOCtrl::new(DataIdentifier(0x0102), IOCtrlParameter::ShortTermAdjustment, vec![0xAA, 0xBB]));
    assert_eq!(io.to_bytes(), bytes[1..].to_vec());

    let no_dids: HashMap<u16, usize> = HashMap::new();
    let bytes = hex::decode("7101020301AA").unwrap();
    let response = Response::try_from_bytes(&bytes, &no_dids).unwrap();
    let routine = RoutineCtrl::try_from(&response, &no_dids).unwrap();
    assert_eq!(routine.routine_info, Some(0x01));
    assert_eq!(routine.to_bytes(), bytes[2..].to_vec());

    let bytes = hex::decode("6EF190").unwrap();
    let response = Response::try_from_bytes(&bytes, &no_dids).unwrap();
    let written = WriteDID::try_from(&response, &no_dids).unwrap();
    assert_eq!(written.0, DataIdentifier(0xF190));
    assert_eq!(written.to_bytes(), vec![0xF1, 0x90]);

    let bytes = hex::decode("6C01F201").unwrap();
    let response = Response::try_from_bytes(&bytes, &no_dids).unwrap();
    let defined = DynamicallyDefineDID::try_from(&response, &no_dids).unwrap();
    assert_eq!(defined.to_bytes(), vec![0xF2, 0x01]);
}

#[test]
fn segmented_payloads_concatenate_to_the_data() {
    let data: Vec<u8> = (0..40u32).map(|v| (v * 3 + 1) as u8).collect();
    let frames = Frame::from_data(&data).unwrap();
    assert_eq!(frames.len(), 6);
    let mut joined: Vec<u8> = Vec::new();
    for (i, frame) in frames.iter().enumerate() {
        match frame {
            Frame::FirstFrame { length, data: d } => {
                assert_eq!(i, 0);
                assert_eq!(*length, 40);
                joined.extend_from_slice(d);
            }
            Frame::ConsecutiveFrame { sequence, data: d } => {
                assert!(i >= 1);
                assert_eq!(*sequence as usize, i % 16);
                assert!(!d.is_empty() && d.len() <= 7);
                joined.extend_from_slice(d);
            }
            other => panic!("unexpected frame: {:?}", other),
        }
    }
    assert_eq!(joined, data);

    let long: Vec<u8> = (0..200u32).map(|v| v as u8).collect();
    let frames = Frame::from_data(&long).unwrap();
    let mut joined: Vec<u8> = Vec::new();
    for (i, frame) in frames.iter().enumerate() {
        match frame {
            Frame::FirstFrame { data: d, .. } => joined.extend_from_slice(d),
            Frame::ConsecutiveFrame { sequence, data: d } => {
                assert_eq!(*sequence as usize, i % 16);
                joined.extend_from_slice(d);
            }
            other => panic!("unexpected frame: {:?}", other),
        }
    }
    assert_eq!(joined, long);
}
