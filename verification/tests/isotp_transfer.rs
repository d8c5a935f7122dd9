use uds_isotp::isotp::address::{Address, AddressFormat, AddressType};
use uds_isotp::isotp::common::{FlowControlContext, FlowControlState};
use uds_isotp::isotp::error::IsoTpError;
use uds_isotp::isotp::events::EventQueue;
use uds_isotp::isotp::reassembly::{Consecutive, Event};
use uds_isotp::isotp::state::{State, STATE_ERROR, STATE_SENDING, STATE_WAIT_BUSY, STATE_WAIT_FLOW_CTRL};
use uds_isotp::isotp::timing::{FlowCtrl, Timeout, P2};
use uds_isotp::isotp::transfer::{wait_data_step, DataWait, Reaction, Route, Transfer, WaitPoll};

fn data_of(event: Event) -> Vec<u8> {
    match event {
        Event::DataReceived(bytes) => bytes.to_vec(),
        other => panic!("unexpected event: {:?}", other),
    }
}

#[test]
fn reassembly_of_twenty_bytes() {
    let data: Vec<u8> = (0u8..20).collect();
    let mut c = Consecutive::new();
    c.update(20, data[0..6].to_vec());
    assert_eq!(c.buffer_len(), 6);
    assert!(matches!(c.append(1, data[6..13].to_vec()), Ok(Event::Wait)));
    let done = c.append(2, data[13..20].to_vec()).unwrap();
    assert_eq!(data_of(done), data);
}

#[test]
fn reassembly_cuts_padding() {
    let mut c = Consecutive::new();
    c.update(8, vec![1, 2, 3, 4, 5, 6]);
    let done = c.append(1, vec![7, 8, 0xAA, 0xAA, 0xAA, 0xAA, 0xAA]).unwrap();
    assert_eq!(data_of(done), vec![1, 2, 3, 4, 5, 6, 7, 8]);
}

#[test]
fn reassembly_errors() {
    let mut c = Consecutive::new();
    assert!(matches!(c.append(1, vec![1]), Err(IsoTpError::MixFramesError)));
    c.update(30, vec![0; 6]);
    assert!(matches!(c.append(3, vec![1]), Err(IsoTpError::InvalidSequence { expect: 1, actual: 3 })));
    c.clear();
    assert_eq!(c.buffer_len(), 0);
}

#[test]
fn sequence_numbers_wrap_after_fifteen() {
    let total: usize = 6 + 7 * 17;
    let mut c = Consecutive::new();
    c.update(total as u32, vec![0; 6]);
    for k in 1..=16u32 {
        let seq = (k % 16) as u8;
        assert!(matches!(c.append(seq, vec![0; 7]), Ok(Event::Wait)));
    }
    let done = c.append(1, vec![0; 7]).unwrap();
    assert_eq!(data_of(done).len(), total);
}

#[test]
fn state_flags_and_text() {
    let mut s = State::idle();
    assert!(s.is_idle());
    assert_eq!(s.to_text(), "Idle");
    s.append(State::from_bits(STATE_SENDING | STATE_WAIT_FLOW_CTRL));
    assert!(s.contains(State::from_bits(STATE_SENDING)));
    assert_eq!(s.to_text(), "WaitFlowCtrl | Sending");
    s.append(State::from_bits(STATE_ERROR | STATE_WAIT_BUSY));
    assert_eq!(s.bits(), STATE_SENDING | STATE_WAIT_FLOW_CTRL | STATE_ERROR);
    s.remove(State::from_bits(STATE_SENDING));
    assert_eq!(s.to_text(), "WaitFlowCtrl | Error");
    assert_eq!(State::from_bits(0xFF).to_text(),
        "WaitSingle | WaitFirst | WaitFlowCtrl | WaitData | WaitBusy | ResponsePending | Sending | Error");
    s.clear();
    assert!(s.is_idle());
}

#[test]
fn address_identifiers() {
    let address = Address::default_address();
    assert_eq!(address.can_id(AddressType::Physical), 0x7E0);
    assert_eq!(address.can_id(AddressType::Functional), 0x7DF);
    assert_eq!(AddressType::default_type(), AddressType::Physical);
    assert_eq!(AddressFormat::default_format(), AddressFormat::Normal);
}

#[test]
fn timing_values() {
    let mut p2 = P2::default_p2();
    assert_eq!(p2.p2_ms(), 50);
    assert_eq!(p2.p2_star_ms(), 5000);
    p2.update(20, 2000);
    assert_eq!(p2.p2_ms(), 20);
    assert_eq!(p2.p2_star_ms(), 2000);
    p2.update(100, 100_000);
    assert_eq!(p2.p2_ms(), 50);
    assert_eq!(p2.p2_star_ms(), 5000);
    let t = Timeout::default_timeout();
    assert_eq!(t.n_ar, 1000);
    assert_eq!(t.n_cs, 1000);
    let ctx = FlowControlContext::new(FlowControlState::Continues, 4, 0xF9).unwrap();
    let fc = FlowCtrl::from_context(&ctx);
    assert_eq!(fc.st_min, 900);
    assert_eq!(fc.block_size, 4);
}

#[test]
fn event_queue_is_first_in_first_out() {
    let mut q = EventQueue::new();
    assert!(q.get().is_none());
    q.set(Event::Wait);
    q.set(Event::ErrorOccurred(IsoTpError::OverloadFlow));
    assert!(matches!(q.get(), Some(Event::Wait)));
    assert!(matches!(q.get(), Some(Event::ErrorOccurred(IsoTpError::OverloadFlow))));
    assert!(q.get().is_none());
    q.set(Event::FirstFrameReceived);
    q.clear();
    assert!(q.get().is_none());
}

#[test]
fn transfer_prepares_frames_to_send() {
    let mut t = Transfer::new(Address::default_address());
    let data: Vec<u8> = (0u8..10).collect();
    let (id, frames) = t.prepare_transmit(AddressType::Physical, &data).unwrap();
    assert_eq!(id, 0x7E0);
    assert_eq!(frames, vec![
        vec![0x10, 0x0A, 0, 1, 2, 3, 4, 5],
        vec![0x21, 6, 7, 8, 9, 0xAA, 0xAA, 0xAA],
    ]);
    let (id, frames) = t.prepare_transmit(AddressType::Functional, &[0x3E, 0x80]).unwrap();
    assert_eq!(id, 0x7DF);
    assert_eq!(frames, vec![vec![0x02, 0x3E, 0x80, 0xAA, 0xAA, 0xAA, 0xAA, 0xAA]]);
    assert!(matches!(t.prepare_transmit(AddressType::Physical, &[]), Err(IsoTpError::EmptyPdu)));
    assert!(t.state().is_idle());
}

#[test]
fn transfer_receives_a_segmented_message() {
    let mut t = Transfer::new(Address::default_address());
    assert_eq!(t.route(true, 0x7E8), Route::Accept);
    assert_eq!(t.route(true, 0x123), Route::Forward);
    assert_eq!(t.route(false, 0x7E8), Route::Forward);

    match t.on_frame(&[0x10, 0x0A, 0, 1, 2, 3, 4, 5]) {
        Reaction::Reply(bytes) => assert_eq!(bytes, vec![0x30, 0x00, 0x0A, 0xAA, 0xAA, 0xAA, 0xAA, 0xAA]),
        other => panic!("unexpected reaction: {:?}", other),
    }
    assert!(!t.state_contains(State::from_bits(STATE_SENDING)));
    assert_eq!(t.received_len(), 6);
    t.on_reply_built();
    assert!(t.state_contains(State::from_bits(STATE_SENDING)));
    assert!(matches!(t.on_reply_sent(true), Event::FirstFrameReceived));
    match t.on_frame(&[0x21, 6, 7, 8, 9, 0xAA, 0xAA, 0xAA]) {
        Reaction::Report(event) => assert_eq!(data_of(event), (0u8..10).collect::<Vec<u8>>()),
        other => panic!("unexpected reaction: {:?}", other),
    }
}

#[test]
fn transfer_reports_single_frames() {
    let mut t = Transfer::new(Address::default_address());
    match t.on_frame(&[0x02, 0x50, 0x01, 0xAA, 0xAA, 0xAA, 0xAA, 0xAA]) {
        Reaction::Report(event) => assert_eq!(data_of(event), vec![0x50, 0x01]),
        other => panic!("unexpected reaction: {:?}", other),
    }
}

#[test]
fn transfer_flow_control_and_errors() {
    let mut t = Transfer::new(Address::default_address());
    t.mark_sending(true);
    assert!(t.state_contains(State::from_bits(STATE_WAIT_FLOW_CTRL)));
    t.on_frame_transmitted(true, 0x7E0);
    assert!(!t.state_contains(State::from_bits(STATE_SENDING)));

    assert!(matches!(t.on_frame(&[0x31, 0, 0]), Reaction::Report(Event::Wait)));
    assert!(t.state_contains(State::from_bits(STATE_WAIT_BUSY)));
    assert!(matches!(t.on_frame(&[0x30, 2, 5]), Reaction::Nothing));
    assert!(t.state().is_idle());

    let mut index: usize = 0;
    assert_eq!(t.block_step(&mut index), Some(5));
    assert_eq!(index, 1);
    assert_eq!(t.block_step(&mut index), Some(5));
    assert_eq!(index, 0);
    assert!(t.state_contains(State::from_bits(STATE_WAIT_FLOW_CTRL)));

    assert!(matches!(t.on_frame(&[0x32, 0, 0]), Reaction::Report(Event::ErrorOccurred(IsoTpError::OverloadFlow))));
    assert_eq!(t.route(true, 0x7E8), Route::Stop);
    assert!(matches!(t.wait_poll(0), WaitPoll::Failed(IsoTpError::DeviceError)));

    t.reset();
    assert!(t.state().is_idle());
    assert!(matches!(t.wait_poll(0), WaitPoll::Ready));
    assert!(matches!(t.on_frame(&[]), Reaction::Stop(Event::ErrorOccurred(IsoTpError::EmptyPdu))));
    assert!(t.state_contains(State::from_bits(STATE_ERROR)));
}

#[test]
fn transfer_wait_poll_times_out() {
    let mut t = Transfer::new(Address::default_address());
    t.mark_sending(false);
    assert!(matches!(t.wait_poll(1_000_000), WaitPoll::Pending));
    match t.wait_poll(1_000_001) {
        WaitPoll::Failed(IsoTpError::Timeout { value, unit }) => {
            assert_eq!(value, 1000);
            assert_eq!(unit, "ms");
        }
        other => panic!("unexpected poll: {:?}", other),
    }
    t.state_idle();
    t.state_append(State::from_bits(STATE_WAIT_BUSY));
    assert!(matches!(t.wait_poll(1_000_001), WaitPoll::Failed(IsoTpError::Timeout { value: 1000, .. })));
    assert!(matches!(t.wait_poll(5_000_001), WaitPoll::Failed(IsoTpError::Timeout { value: 5000, .. })));
    let mut t = Transfer::new(Address::default_address());
    assert!(matches!(t.on_reply_sent(false), Event::ErrorOccurred(IsoTpError::DeviceError)));
    assert!(t.state_contains(State::from_bits(STATE_ERROR)));
}

#[test]
fn wait_data_steps() {
    assert!(wait_data_step(0, 100, None).is_none());
    assert!(matches!(wait_data_step(10, 100, Some(Event::Wait)), Some(DataWait::Restart)));
    assert!(matches!(wait_data_step(10, 100, Some(Event::FirstFrameReceived)), Some(DataWait::Restart)));
    assert!(matches!(
        wait_data_step(100_000, 100, Some(Event::ErrorOccurred(IsoTpError::DeviceError))),
        Some(DataWait::Fail(IsoTpError::DeviceError))
    ));
    match wait_data_step(100_001, 100, None) {
        Some(DataWait::Fail(IsoTpError::Timeout { value, unit })) => {
            assert_eq!(value, 100);
            assert_eq!(unit, "ms");
        }
        other => panic!("unexpected step: {:?}", other),
    }
}

#[test]
fn transfer_address_and_timeout() {
    let mut t = Transfer::new(Address::default_address());
    let other = Address { tx_id: 0x700, rx_id: 0x708, fid: 0x7DF };
    t.update_address(other);
    assert_eq!(t.address(), other);
    let mut timeout = t.timeout();
    timeout.n_ar = 2000;
    t.set_timeout(timeout);
    assert_eq!(t.timeout().n_ar, 2000);
}
