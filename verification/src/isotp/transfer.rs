//! The decisions of one ISO-TP endpoint: what to send, what to report and how
//! its state changes on each frame. Sending, sleeping and waiting are left to
//! the caller, which feeds back what happened.

use vstd::prelude::*;
use crate::isotp::address::{Address, AddressType};
use crate::isotp::common::{FlowControlContext, FlowControlState};
use crate::isotp::constants::{TIMEOUT_AS_ISO15765_2, TIMEOUT_CR_ISO15765_2, WRITE_TIMEOUT_MS};
use crate::isotp::error::{IsoTpError, IsoTpErrorView};
use crate::isotp::frame::{
    Frame, FrameProcessor, FrameView, frame_result_view, spec_decode, spec_encode, spec_from_data,
};
use crate::isotp::reassembly::{
    Consecutive, ConsecutiveView, Event, EventView, spec_append, spec_update, spec_consecutive_empty,
};
use crate::isotp::buffer::bytes_from_vec;
use crate::isotp::state::{
    State, STATE_ERROR, STATE_SENDING, STATE_WAIT_BUSY, STATE_WAIT_FLOW_CTRL, bits_contain,
};
use crate::isotp::timing::Timeout;

verus! {

/// What the caller does with a received CAN frame.
#[derive(Debug, Copy, Clone, PartialEq, Eq, Structural)]
pub enum Route {
    /// Not for this transfer: pass it on to other listeners.
    Forward,
    /// The transfer is in error: stop handling the frames of this batch.
    Stop,
    /// Decode it with [`Transfer::on_frame`].
    Accept,
}

/// What the caller does after [`Transfer::on_frame`].
#[derive(Debug)]
pub enum Reaction {
    /// Report the event to the listener.
    Report(Event),
    /// Send these bytes (a flow control frame) with the transmit identifier:
    /// once the CAN frame is built, call [`Transfer::on_reply_built`], send
    /// it, then tell [`Transfer::on_reply_sent`] whether that worked. A reply
    /// whose CAN frame cannot be built is dropped and changes nothing.
    Reply(Vec<u8>),
    /// Nothing to report.
    Nothing,
    /// Report the event and stop handling the frames of this batch.
    Stop(Event),
}

pub enum ReactionView {
    Report(EventView),
    Reply(Seq<u8>),
    Nothing,
    Stop(EventView),
}

impl View for Reaction {
    type V = ReactionView;

    open spec fn view(&self) -> ReactionView {
        match self {
            Reaction::Report(e) => ReactionView::Report(e@),
            Reaction::Reply(v) => ReactionView::Reply(v@),
            Reaction::Nothing => ReactionView::Nothing,
            Reaction::Stop(e) => ReactionView::Stop(e@),
        }
    }
}

/// Outcome of one poll while waiting to send the next frame.
#[derive(Debug)]
pub enum WaitPoll {
    /// The transfer is idle: send the next frame.
    Ready,
    /// Poll again.
    Pending,
    /// Give up with this error.
    Failed(IsoTpError),
}

/// Outcome of one event while waiting for received data.
#[derive(Debug)]
pub enum DataWait {
    /// The peer is still busy: restart the timer.
    Restart,
    /// The data arrived.
    Done(bytes::Bytes),
    /// The transfer failed: clear the pending events and return the error.
    Fail(IsoTpError),
}

/// Decision state of one ISO-TP endpoint.
#[derive(Debug)]
pub struct Transfer {
    address: Address,
    state: State,
    flow_ctrl: Option<FlowControlContext>,
    consecutive: Consecutive,
    timeout: Timeout,
}

/// The mathematical content of a [`Transfer`]; flow control as (state, block size, separation time).
pub struct TransferView {
    pub address: Address,
    pub state: u8,
    pub flow_ctrl: Option<(FlowControlState, u8, u8)>,
    pub consecutive: ConsecutiveView,
    pub timeout: Timeout,
}

impl View for Transfer {
    type V = TransferView;

    closed spec fn view(&self) -> TransferView {
        TransferView {
            address: self.address,
            state: self.state@,
            flow_ctrl: match self.flow_ctrl {
                Some(c) => Some((c.spec_state(), c.spec_block_size(), c.spec_st_min())),
                None => None,
            },
            consecutive: self.consecutive@,
            timeout: self.timeout,
        }
    }
}

/// The bytes of the flow control frame that answers a first frame.
pub open spec fn spec_default_flow_ctrl_bytes() -> Seq<u8> {
    spec_encode(
        FrameView::FlowControl {
            state: FlowControlState::Continues,
            block_size: crate::isotp::constants::DEFAULT_BLOCK_SIZE,
            st_min: crate::isotp::constants::DEFAULT_ST_MIN,
        },
        None,
    )
}

/// The new view and the reaction when the bytes of a CAN frame addressed to this endpoint arrive.
#[verifier::opaque]
pub open spec fn spec_on_frame(t: TransferView, data: Seq<u8>) -> (TransferView, ReactionView) {
    match spec_decode(data) {
        Err(e) => (
            TransferView { state: t.state | STATE_ERROR, ..t },
            ReactionView::Stop(EventView::ErrorOccurred(e)),
        ),
        Ok(FrameView::Single(d)) => (t, ReactionView::Report(EventView::DataReceived(d))),
        Ok(FrameView::First(length, d)) => (
            TransferView { consecutive: spec_update(t.consecutive, length, d), ..t },
            ReactionView::Reply(spec_default_flow_ctrl_bytes()),
        ),
        Ok(FrameView::Consecutive(s, d)) => {
            let (c2, r) = spec_append(t.consecutive, s, d);
            match r {
                Ok(ev) => (TransferView { consecutive: c2, ..t }, ReactionView::Report(ev)),
                Err(e) => (
                    TransferView { consecutive: c2, state: t.state | STATE_ERROR, ..t },
                    ReactionView::Report(EventView::ErrorOccurred(e)),
                ),
            }
        },
        Ok(FrameView::FlowControl { state, block_size, st_min }) => match state {
            FlowControlState::Continues => (
                TransferView {
                    state: t.state & !(STATE_WAIT_BUSY | STATE_WAIT_FLOW_CTRL),
                    flow_ctrl: Some((state, block_size, st_min)),
                    ..t
                },
                ReactionView::Nothing,
            ),
            FlowControlState::Wait => (
                TransferView { state: t.state | STATE_WAIT_BUSY, ..t },
                ReactionView::Report(EventView::Wait),
            ),
            FlowControlState::Overload => (
                TransferView { state: t.state | STATE_ERROR, ..t },
                ReactionView::Report(EventView::ErrorOccurred(IsoTpErrorView::OverloadFlow)),
            ),
        },
    }
}

/// The transfer view after a reset: idle, no flow control, nothing received.
pub open spec fn spec_reset(t: TransferView) -> TransferView {
    TransferView { state: 0, flow_ctrl: None, consecutive: spec_consecutive_empty(), ..t }
}

/// The encodings, without explicit padding, of the frames that carry `data`.
pub open spec fn spec_encoded_frames(frames: Seq<FrameView>) -> Seq<Seq<u8>> {
    frames.map_values(|f: FrameView| spec_encode(f, None))
}

/// None of the flags a transfer sets on its way holds the error flag.
proof fn progress_flags_not_error()
    by (bit_vector)
    ensures
        !bits_contain(STATE_SENDING | STATE_WAIT_FLOW_CTRL, STATE_ERROR),
        !bits_contain(STATE_SENDING, STATE_ERROR),
        !bits_contain(STATE_WAIT_FLOW_CTRL, STATE_ERROR),
        !bits_contain(STATE_WAIT_BUSY, STATE_ERROR),
{
}

/// Setting flags keeps the error flag, and so does clearing the wait flags.
proof fn error_flag_kept(s: u8)
    by (bit_vector)
    ensures
        bits_contain(s | STATE_ERROR, STATE_ERROR),
        bits_contain(s, STATE_ERROR) ==> bits_contain(s | STATE_SENDING, STATE_ERROR),
        bits_contain(s, STATE_ERROR) ==> bits_contain(s | STATE_WAIT_BUSY, STATE_ERROR),
        bits_contain(s, STATE_ERROR) ==> bits_contain(s & !(STATE_WAIT_BUSY | STATE_WAIT_FLOW_CTRL), STATE_ERROR),
{
}

/// Handling a received frame never clears the error flag: a transfer in
/// error stays in error until it is reset.
pub proof fn on_frame_keeps_error(t: TransferView, data: Seq<u8>)
    requires
        bits_contain(t.state, STATE_ERROR),
    ensures
        bits_contain(spec_on_frame(t, data).0.state, STATE_ERROR),
{
    reveal(spec_on_frame);
    error_flag_kept(t.state);
}

/// When handling a received frame reports an error, the transfer is then in error.
pub proof fn reported_error_sets_error(t: TransferView, data: Seq<u8>)
    ensures
        ({
            let (t2, reaction) = spec_on_frame(t, data);
            (reaction matches ReactionView::Report(EventView::ErrorOccurred(_))
                || reaction matches ReactionView::Stop(EventView::ErrorOccurred(_)))
                ==> bits_contain(t2.state, STATE_ERROR)
        }),
{
    reveal(spec_on_frame);
    error_flag_kept(t.state);
}

impl Transfer {
    pub fn new(address: Address) -> (r: Transfer)
        ensures
            r@.address == address,
            r@.state == 0,
            r@.flow_ctrl is None,
            r@.consecutive == spec_consecutive_empty(),
            r@.timeout == Timeout::spec_default(),
    {
        Transfer {
            address,
            state: State::idle(),
            flow_ctrl: None,
            consecutive: Consecutive::new(),
            timeout: Timeout::default_timeout(),
        }
    }

    pub fn address(&self) -> (r: Address)
        ensures
            r == self@.address,
    {
        self.address
    }

    pub fn update_address(&mut self, address: Address)
        ensures
            final(self)@ == (TransferView { address, ..old(self)@ }),
    {
        self.address = address;
    }

    pub fn state(&self) -> (r: State)
        ensures
            r@ == self@.state,
    {
        self.state
    }

    /// Idle state, no flow control, nothing received.
    pub fn reset(&mut self)
        ensures
            final(self)@ == spec_reset(old(self)@),
    {
        self.state.clear();
        self.flow_ctrl = None;
        self.consecutive.clear();
    }

    /// Clears every state flag.
    pub fn state_idle(&mut self)
        ensures
            final(self)@ == (TransferView { state: 0, ..old(self)@ }),
    {
        self.state.clear();
    }

    /// Whether every flag of `flags` is set.
    pub fn state_contains(&self, flags: State) -> (r: bool)
        ensures
            r == bits_contain(self@.state, flags@),
    {
        self.state.contains(flags)
    }

    /// Sets the flags of `flags` (only the error flag when it is among them).
    pub fn state_append(&mut self, flags: State)
        ensures
            final(self)@ == (TransferView {
                state: if bits_contain(flags@, STATE_ERROR) {
                    old(self)@.state | STATE_ERROR
                } else {
                    old(self)@.state | flags@
                },
                ..old(self)@
            }),
    {
        self.state.append(flags);
    }

    /// Clears the flags of `flags`.
    pub fn state_remove(&mut self, flags: State)
        ensures
            final(self)@ == (TransferView { state: old(self)@.state & !flags@, ..old(self)@ }),
    {
        self.state.remove(flags);
    }

    /// The number of bytes of the message being received so far.
    pub fn received_len(&self) -> (r: usize)
        ensures
            r == self@.consecutive.buffer.len(),
    {
        self.consecutive.buffer_len()
    }

    pub fn clear_flow_ctrl(&mut self)
        ensures
            final(self)@ == (TransferView { flow_ctrl: None, ..old(self)@ }),
    {
        self.flow_ctrl = None;
    }

    pub fn update_flow_ctrl(&mut self, ctx: FlowControlContext)
        ensures
            final(self)@ == (TransferView {
                flow_ctrl: Some((ctx.spec_state(), ctx.spec_block_size(), ctx.spec_st_min())),
                ..old(self)@
            }),
    {
        self.flow_ctrl = Some(ctx);
    }

    pub fn clear_consecutive(&mut self)
        ensures
            final(self)@ == (TransferView { consecutive: spec_consecutive_empty(), ..old(self)@ }),
    {
        self.consecutive.clear();
    }

    pub fn update_consecutive(&mut self, length: u32, data: Vec<u8>)
        requires
            old(self)@.consecutive.buffer.len() + data@.len() <= isize::MAX,
        ensures
            final(self)@ == (TransferView { consecutive: spec_update(old(self)@.consecutive, length, data@), ..old(self)@ }),
    {
        self.consecutive.update(length, data);
    }

    pub fn append_consecutive(&mut self, sequence: u8, data: Vec<u8>) -> (r: Result<Event, IsoTpError>)
        requires
            old(self)@.consecutive.buffer.len() + data@.len() <= isize::MAX,
        ensures
            ({
                let (c2, res) = spec_append(old(self)@.consecutive, sequence, data@);
                &&& final(self)@ == (TransferView { consecutive: c2, ..old(self)@ })
                &&& crate::isotp::reassembly::event_result_view(r) == res
            }),
    {
        self.consecutive.append(sequence, data)
    }

    /// Resets the transfer and prepares to send `data`: the identifier to send
    /// with and the bytes of each frame, in order.
    pub fn prepare_transmit(&mut self, addr_type: AddressType, data: &[u8]) -> (r: Result<(u32, Vec<Vec<u8>>), IsoTpError>)
        ensures
            final(self)@ == spec_reset(old(self)@),
            spec_from_data(data@) is Err <==> r is Err,
            r matches Err(e) ==> spec_from_data(data@) == Err::<Seq<FrameView>, IsoTpErrorView>(e@),
            r matches Ok((id, frames)) ==> {
                &&& id == old(self)@.address.spec_can_id(addr_type)
                &&& frames@.len() == spec_from_data(data@)->Ok_0.len()
                &&& forall|i: int| 0 <= i < frames@.len()
                    ==> #[trigger] frames@[i]@ == spec_encoded_frames(spec_from_data(data@)->Ok_0)[i]
            },
    {
        self.state.clear();
        self.reset();
        let frames = Frame::from_data(data)?;
        let can_id = self.address.can_id(addr_type);
        let ghost fv = spec_from_data(data@)->Ok_0;
        let mut encoded: Vec<Vec<u8>> = Vec::new();
        let mut rest = frames;
        while rest.len() > 0
            invariant
                encoded@.len() + rest@.len() == fv.len(),
                forall|j: int| 0 <= j < rest@.len() ==> #[trigger] rest@[j]@ == fv[encoded@.len() + j],
                forall|j: int| 0 <= j < encoded@.len() ==> #[trigger] encoded@[j]@ == spec_encode(fv[j], None),
            decreases rest@.len(),
        {
            let ghost before = rest@;
            let f = rest.remove(0);
            proof {
                assert forall|j: int| 0 <= j < rest@.len() implies #[trigger] rest@[j]@ == fv[encoded@.len() + 1 + j] by {
                    assert(rest@[j] == before[j + 1]);
                }
            }
            encoded.push(f.encode(None));
        }
        Ok((can_id, encoded))
    }

    /// Marks a frame as handed to the device; the first frame of a segmented
    /// message also waits for the peer's flow control.
    pub fn mark_sending(&mut self, need_flow_ctrl: bool)
        ensures
            final(self)@ == (TransferView {
                state: if need_flow_ctrl {
                    old(self)@.state | (STATE_SENDING | STATE_WAIT_FLOW_CTRL)
                } else {
                    old(self)@.state | STATE_SENDING
                },
                ..old(self)@
            }),
    {
        if need_flow_ctrl {
            let flags = State::from_bits(STATE_SENDING).union(State::from_bits(STATE_WAIT_FLOW_CTRL));
            proof { progress_flags_not_error(); }
            self.state.append(flags);
        } else {
            proof { progress_flags_not_error(); }
            self.state.append(State::from_bits(STATE_SENDING));
        }
    }

    /// Counts a frame against the peer's block size before it is sent: after a
    /// full block the transfer waits for flow control again. Returns the time
    /// to sleep in microseconds (the raw separation time byte) when flow
    /// control is known.
    pub fn block_step(&mut self, index: &mut usize) -> (r: Option<u64>)
        requires
            *old(index) < usize::MAX,
        ensures
            match old(self)@.flow_ctrl {
                None => r is None && *final(index) == *old(index) && final(self)@ == old(self)@,
                Some((_, block_size, st_min)) => {
                    &&& r == Some(st_min as u64)
                    &&& if block_size == 0 {
                        *final(index) == *old(index) && final(self)@ == old(self)@
                    } else if *old(index) + 1 == block_size {
                        *final(index) == 0 && final(self)@ == (TransferView {
                            state: old(self)@.state | STATE_WAIT_FLOW_CTRL,
                            ..old(self)@
                        })
                    } else {
                        *final(index) == *old(index) + 1 && final(self)@ == old(self)@
                    }
                },
            },
    {
        match self.flow_ctrl {
            Some(ctx) => {
                let block_size = ctx.block_size();
                if block_size != 0 {
                    if *index + 1 == block_size as usize {
                        *index = 0;
                        proof { progress_flags_not_error(); }
                        self.state.append(State::from_bits(STATE_WAIT_FLOW_CTRL));
                    } else {
                        *index = *index + 1;
                    }
                }
                Some(ctx.st_min() as u64)
            },
            None => None,
        }
    }

    /// One poll while waiting to send the next frame, `elapsed_us` microseconds
    /// after the wait began: past the longest wait it fails; an error state
    /// fails; a pending send, peer wait or flow control wait fails once its
    /// timeout has passed; idle is ready.
    pub fn wait_poll(&self, elapsed_us: u128) -> (r: WaitPoll)
        ensures
            spec_wait_poll(self@, elapsed_us, r),
    {
        if elapsed_us > WRITE_TIMEOUT_MS as u128 * 1000 {
            return WaitPoll::Failed(IsoTpError::Timeout { value: WRITE_TIMEOUT_MS, unit: "ms" });
        }
        let state = self.state;
        if state.contains(State::from_bits(STATE_ERROR)) {
            return WaitPoll::Failed(IsoTpError::DeviceError);
        }
        if state.contains(State::from_bits(STATE_SENDING)) {
            if elapsed_us > TIMEOUT_AS_ISO15765_2 as u128 * 1000 {
                return WaitPoll::Failed(IsoTpError::Timeout { value: TIMEOUT_AS_ISO15765_2 as u64, unit: "ms" });
            }
            WaitPoll::Pending
        } else if state.contains(State::from_bits(STATE_WAIT_BUSY)) {
            let p2_star = self.timeout.n_ar;
            if elapsed_us > p2_star as u128 * 1000 {
                return WaitPoll::Failed(IsoTpError::Timeout { value: p2_star, unit: "ms" });
            }
            WaitPoll::Pending
        } else if state.contains(State::from_bits(STATE_WAIT_FLOW_CTRL)) {
            if elapsed_us > TIMEOUT_CR_ISO15765_2 as u128 * 1000 {
                return WaitPoll::Failed(IsoTpError::Timeout { value: TIMEOUT_CR_ISO15765_2 as u64, unit: "ms" });
            }
            WaitPoll::Pending
        } else if state.is_idle() {
            WaitPoll::Ready
        } else {
            WaitPoll::Pending
        }
    }

    /// A frame was transmitted on the bus: on this endpoint's channel with its
    /// transmit or functional identifier, the send is acknowledged.
    pub fn on_frame_transmitted(&mut self, same_channel: bool, id: u32)
        ensures
            final(self)@ == if same_channel && (id == old(self)@.address.tx_id || id == old(self)@.address.fid) {
                TransferView { state: old(self)@.state & !STATE_SENDING, ..old(self)@ }
            } else {
                old(self)@
            },
    {
        if !same_channel {
            return;
        }
        if id == self.address.tx_id || id == self.address.fid {
            self.state.remove(State::from_bits(STATE_SENDING));
        }
    }

    /// What to do with a received CAN frame: frames of another channel or
    /// identifier are passed on; in the error state the batch stops.
    pub fn route(&self, same_channel: bool, id: u32) -> (r: Route)
        ensures
            r == if !same_channel || id != self@.address.rx_id {
                Route::Forward
            } else if bits_contain(self@.state, STATE_ERROR) {
                Route::Stop
            } else {
                Route::Accept
            },
    {
        if !same_channel || id != self.address.rx_id {
            Route::Forward
        } else if self.state.contains(State::from_bits(STATE_ERROR)) {
            Route::Stop
        } else {
            Route::Accept
        }
    }

    /// Handles the bytes of a CAN frame addressed to this endpoint.
    pub fn on_frame(&mut self, data: &[u8]) -> (r: Reaction)
        requires
            old(self)@.consecutive.buffer.len() + data@.len() <= isize::MAX,
        ensures
            (final(self)@, r@) == spec_on_frame(old(self)@, data@),
    {
        proof {
            reveal(spec_on_frame);
        }
        let frame = Frame::decode(data);
        proof {
            assert(frame_result_view(frame) == spec_decode(data@));
        }
        match frame {
            Err(e) => {
                self.state.append(State::from_bits(STATE_ERROR));
                Reaction::Stop(Event::ErrorOccurred(e))
            },
            Ok(Frame::SingleFrame { data }) => Reaction::Report(Event::DataReceived(bytes_from_vec(data))),
            Ok(Frame::FirstFrame { length, data: payload }) => {
                proof {
                    assert(payload@.len() <= data@.len());
                }
                self.consecutive.update(length, payload);
                let fc = Frame::default_flow_ctrl_frame();
                let bytes = fc.encode(None);
                Reaction::Reply(bytes)
            },
            Ok(Frame::ConsecutiveFrame { sequence, data: payload }) => {
                proof {
                    assert(payload@.len() <= data@.len());
                }
                match self.consecutive.append(sequence, payload) {
                    Ok(event) => Reaction::Report(event),
                    Err(e) => {
                        self.state.append(State::from_bits(STATE_ERROR));
                        Reaction::Report(Event::ErrorOccurred(e))
                    },
                }
            },
            Ok(Frame::FlowControlFrame(ctx)) => match ctx.state() {
                FlowControlState::Continues => {
                    let flags = State::from_bits(STATE_WAIT_BUSY).union(State::from_bits(STATE_WAIT_FLOW_CTRL));
                    self.state.remove(flags);
                    self.flow_ctrl = Some(ctx);
                    Reaction::Nothing
                },
                FlowControlState::Wait => {
                    proof { progress_flags_not_error(); }
                    self.state.append(State::from_bits(STATE_WAIT_BUSY));
                    Reaction::Report(Event::Wait)
                },
                FlowControlState::Overload => {
                    self.state.append(State::from_bits(STATE_ERROR));
                    Reaction::Report(Event::ErrorOccurred(IsoTpError::OverloadFlow))
                },
            },
        }
    }

    /// The CAN frame of the flow control reply to a first frame was built and
    /// is about to be sent: the transfer is sending.
    pub fn on_reply_built(&mut self)
        ensures
            final(self)@ == (TransferView { state: old(self)@.state | STATE_SENDING, ..old(self)@ }),
    {
        proof { progress_flags_not_error(); }
        self.state.append(State::from_bits(STATE_SENDING));
    }

    /// The flow control reply to a first frame was sent (`ok`) or not: the
    /// event to report; a failed send puts the transfer in error.
    pub fn on_reply_sent(&mut self, ok: bool) -> (r: Event)
        ensures
            ok ==> r@ == EventView::FirstFrameReceived && final(self)@ == old(self)@,
            !ok ==> r@ == EventView::ErrorOccurred(IsoTpErrorView::DeviceError)
                && final(self)@ == (TransferView { state: old(self)@.state | STATE_ERROR, ..old(self)@ }),
    {
        if ok {
            Event::FirstFrameReceived
        } else {
            self.state.append(State::from_bits(STATE_ERROR));
            Event::ErrorOccurred(IsoTpError::DeviceError)
        }
    }

    pub fn timeout(&self) -> (r: Timeout)
        ensures
            r == self@.timeout,
    {
        self.timeout
    }

    pub fn set_timeout(&mut self, timeout: Timeout)
        ensures
            final(self)@ == (TransferView { timeout, ..old(self)@ }),
    {
        self.timeout = timeout;
    }
}

/// What one poll of [`Transfer::wait_poll`] returns.
pub open spec fn spec_wait_poll(t: TransferView, elapsed_us: u128, r: WaitPoll) -> bool {
    if elapsed_us > WRITE_TIMEOUT_MS * 1000 {
        r matches WaitPoll::Failed(e) && e@ == (IsoTpErrorView::Timeout { value: WRITE_TIMEOUT_MS, unit: "ms"@ })
    } else if bits_contain(t.state, STATE_ERROR) {
        r matches WaitPoll::Failed(IsoTpError::DeviceError)
    } else if bits_contain(t.state, STATE_SENDING) {
        if elapsed_us > TIMEOUT_AS_ISO15765_2 as int * 1000 {
            r matches WaitPoll::Failed(e) && e@ == (IsoTpErrorView::Timeout { value: TIMEOUT_AS_ISO15765_2 as u64, unit: "ms"@ })
        } else {
            r is Pending
        }
    } else if bits_contain(t.state, STATE_WAIT_BUSY) {
        if elapsed_us > t.timeout.n_ar * 1000 {
            r matches WaitPoll::Failed(e) && e@ == (IsoTpErrorView::Timeout { value: t.timeout.n_ar, unit: "ms"@ })
        } else {
            r is Pending
        }
    } else if bits_contain(t.state, STATE_WAIT_FLOW_CTRL) {
        if elapsed_us > TIMEOUT_CR_ISO15765_2 as int * 1000 {
            r matches WaitPoll::Failed(e) && e@ == (IsoTpErrorView::Timeout { value: TIMEOUT_CR_ISO15765_2 as u64, unit: "ms"@ })
        } else {
            r is Pending
        }
    } else if t.state == 0 {
        r is Ready
    } else {
        r is Pending
    }
}

/// The idle state holds none of the flags a poll looks at, and waiting for
/// flow control alone holds only that flag.
proof fn poll_flag_facts(s: u8)
    by (bit_vector)
    ensures
        s == 0 ==> !bits_contain(s, STATE_ERROR) && !bits_contain(s, STATE_SENDING)
            && !bits_contain(s, STATE_WAIT_BUSY) && !bits_contain(s, STATE_WAIT_FLOW_CTRL),
        s == STATE_WAIT_FLOW_CTRL ==> bits_contain(s, STATE_WAIT_FLOW_CTRL) && !bits_contain(s, STATE_ERROR)
            && !bits_contain(s, STATE_SENDING) && !bits_contain(s, STATE_WAIT_BUSY),
{
}

/// What a poll of a sending transfer answers, `elapsed_us` after the wait began:
/// - it answers `Ready` exactly when the transfer is idle, before the write
///   timeout: a transfer that still waits for flow control, for a busy peer or
///   for the end of a send is never ready;
/// - past the write timeout every poll fails with that timeout;
/// - before it, a transfer in error fails with a device error;
/// - a transfer with work left and no error keeps waiting while no limit has
///   passed (the send and flow control limits and the peer's busy limit);
/// - a transfer that only waits for flow control fails with the N_Cr timeout
///   once it has passed.
pub proof fn wait_poll_outcomes(t: TransferView, elapsed_us: u128, r: WaitPoll)
    requires
        spec_wait_poll(t, elapsed_us, r),
    ensures
        r is Ready <==> (t.state == 0 && elapsed_us <= WRITE_TIMEOUT_MS * 1000),
        elapsed_us > WRITE_TIMEOUT_MS * 1000 ==> (r matches WaitPoll::Failed(e)
            && e@ == (IsoTpErrorView::Timeout { value: WRITE_TIMEOUT_MS, unit: "ms"@ })),
        elapsed_us <= WRITE_TIMEOUT_MS * 1000 && bits_contain(t.state, STATE_ERROR)
            ==> (r matches WaitPoll::Failed(IsoTpError::DeviceError)),
        t.state != 0 && !bits_contain(t.state, STATE_ERROR) && elapsed_us <= TIMEOUT_AS_ISO15765_2 * 1000
            && elapsed_us <= TIMEOUT_CR_ISO15765_2 * 1000 && elapsed_us <= t.timeout.n_ar * 1000 ==> r is Pending,
        t.state == STATE_WAIT_FLOW_CTRL && TIMEOUT_CR_ISO15765_2 * 1000 < elapsed_us <= WRITE_TIMEOUT_MS * 1000
            ==> (r matches WaitPoll::Failed(e)
                && e@ == (IsoTpErrorView::Timeout { value: TIMEOUT_CR_ISO15765_2 as u64, unit: "ms"@ })),
{
    poll_flag_facts(t.state);
}

/// One poll while waiting for received data, `elapsed_us` microseconds after
/// the timer started: past `timeout_ms` the wait fails; otherwise what the
/// poll found decides: nothing (`None`, poll again), a peer wait or first
/// frame (restart the timer), the data (the wait ends) or an error (the wait
/// fails).
pub fn wait_data_step(elapsed_us: u128, timeout_ms: u64, event: Option<Event>) -> (r: Option<DataWait>)
    ensures
        elapsed_us > timeout_ms * 1000 ==> (r matches Some(DataWait::Fail(e))
            && e@ == (IsoTpErrorView::Timeout { value: timeout_ms, unit: "ms"@ })),
        elapsed_us <= timeout_ms * 1000 ==> match event {
            None => r is None,
            Some(ev) => match ev@ {
                EventView::Wait | EventView::FirstFrameReceived => r matches Some(DataWait::Restart),
                EventView::DataReceived(d) => r matches Some(DataWait::Done(b)) && crate::isotp::buffer::bytes_contents(b) == d,
                EventView::ErrorOccurred(e) => r matches Some(DataWait::Fail(x)) && x@ == e,
            },
        },
{
    if elapsed_us > timeout_ms as u128 * 1000 {
        return Some(DataWait::Fail(IsoTpError::Timeout { value: timeout_ms, unit: "ms" }));
    }
    match event {
        None => None,
        Some(Event::Wait) | Some(Event::FirstFrameReceived) => Some(DataWait::Restart),
        Some(Event::DataReceived(data)) => Some(DataWait::Done(data)),
        Some(Event::ErrorOccurred(e)) => Some(DataWait::Fail(e)),
    }
}

} // verus!
