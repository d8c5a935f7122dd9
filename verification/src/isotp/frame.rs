//! ISO-TP frames: types, the frame model and the codec interface.

use vstd::prelude::*;
use crate::isotp::common::{FlowControlContext, FlowControlState, st_min_reserved, flow_state_text};
use crate::isotp::error::{IsoTpError, IsoTpErrorView, decimal_text, decimal_string};
use crate::isotp::bytes_util::resized;
use crate::isotp::can::{spec_frame_size, spec_default_padding};

verus! {

/// ISO 15765-2 frame type: the high nibble of the first byte.
#[derive(Debug, Copy, Clone, PartialEq, Eq, Structural)]
pub enum FrameType {
    Single,
    First,
    Consecutive,
    FlowControl,
}

impl FrameType {
    pub open spec fn spec_to_u8(self) -> u8 {
        match self {
            FrameType::Single => 0x00,
            FrameType::First => 0x10,
            FrameType::Consecutive => 0x20,
            FrameType::FlowControl => 0x30,
        }
    }

    /// The frame type that the first byte of a frame announces, if any.
    pub open spec fn spec_of_byte(value: u8) -> Option<FrameType> {
        if value < 0x10 {
            Some(FrameType::Single)
        } else if value < 0x20 {
            Some(FrameType::First)
        } else if value < 0x30 {
            Some(FrameType::Consecutive)
        } else if value < 0x40 {
            Some(FrameType::FlowControl)
        } else {
            None
        }
    }

    pub fn to_u8(self) -> (r: u8)
        ensures
            r == self.spec_to_u8(),
    {
        match self {
            FrameType::Single => 0x00,
            FrameType::First => 0x10,
            FrameType::Consecutive => 0x20,
            FrameType::FlowControl => 0x30,
        }
    }

    /// Reads the frame type from the high nibble of `value`.
    pub fn try_from_u8(value: u8) -> (r: Result<FrameType, IsoTpError>)
        ensures
            match FrameType::spec_of_byte(value) {
                Some(t) => r == Ok::<FrameType, IsoTpError>(t),
                None => r matches Err(e) && e@ == IsoTpErrorView::InvalidParam(frame_type_text(value)),
            },
    {
        let high = value & 0xF0;
        assert((high == 0x00 <==> value < 0x10) && (high == 0x10 <==> 0x10 <= value < 0x20)
            && (high == 0x20 <==> 0x20 <= value < 0x30) && (high == 0x30 <==> 0x30 <= value < 0x40)
            && high == value / 16 * 16) by (bit_vector)
            requires high == value & 0xF0;
        match high {
            0x00 => Ok(FrameType::Single),
            0x10 => Ok(FrameType::First),
            0x20 => Ok(FrameType::Consecutive),
            0x30 => Ok(FrameType::FlowControl),
            v => Err(IsoTpError::InvalidParam(frame_type_message(v))),
        }
    }
}

/// The frame types of ISO 15765-2 and the high nibble of the first byte
/// that announces each: 0 single, 1 first, 2 consecutive, 3 flow control;
/// a higher nibble announces none.
pub proof fn frame_type_table(v: u8)
    ensures
        FrameType::Single.spec_to_u8() == 0x00,
        FrameType::First.spec_to_u8() == 0x10,
        FrameType::Consecutive.spec_to_u8() == 0x20,
        FrameType::FlowControl.spec_to_u8() == 0x30,
        v / 16 == 0 ==> FrameType::spec_of_byte(v) == Some(FrameType::Single),
        v / 16 == 1 ==> FrameType::spec_of_byte(v) == Some(FrameType::First),
        v / 16 == 2 ==> FrameType::spec_of_byte(v) == Some(FrameType::Consecutive),
        v / 16 == 3 ==> FrameType::spec_of_byte(v) == Some(FrameType::FlowControl),
        v / 16 > 3 ==> FrameType::spec_of_byte(v) is None,
{
}

/// The message of an invalid frame type: the high nibble of the first byte, shifted back in place.
pub open spec fn frame_type_text(value: u8) -> Seq<char> {
    "`frame type`("@ + decimal_text((value / 16 * 16) as u8) + ")"@
}

/// The message of an invalid frame type, for the high nibble shifted back in place.
fn frame_type_message(high: u8) -> (r: String)
    ensures
        r@ == "`frame type`("@ + decimal_text(high) + ")"@,
{
    let mut out = String::from_str("`frame type`(");
    out.append(decimal_string(high).as_str());
    out.append(")");
    out
}

/// ISO-TP frame.
#[derive(Debug)]
pub enum Frame {
    /// The ISO-TP single frame.
    SingleFrame { data: Vec<u8> },
    /// The ISO-TP first frame.
    FirstFrame { length: u32, data: Vec<u8> },
    /// The ISO-TP consecutive frame.
    ConsecutiveFrame { sequence: u8, data: Vec<u8> },
    /// The ISO-TP flow control frame.
    FlowControlFrame(FlowControlContext),
}

/// The mathematical content of a frame.
pub enum FrameView {
    Single(Seq<u8>),
    First(u32, Seq<u8>),
    Consecutive(u8, Seq<u8>),
    FlowControl { state: FlowControlState, block_size: u8, st_min: u8 },
}

impl View for Frame {
    type V = FrameView;

    open spec fn view(&self) -> FrameView {
        match self {
            Frame::SingleFrame { data } => FrameView::Single(data@),
            Frame::FirstFrame { length, data } => FrameView::First(*length, data@),
            Frame::ConsecutiveFrame { sequence, data } => FrameView::Consecutive(*sequence, data@),
            Frame::FlowControlFrame(ctx) => FrameView::FlowControl {
                state: ctx.spec_state(),
                block_size: ctx.spec_block_size(),
                st_min: ctx.spec_st_min(),
            },
        }
    }
}

impl Clone for Frame {
    fn clone(&self) -> (r: Frame)
        ensures
            r@ == self@,
    {
        match self {
            Frame::SingleFrame { data } => Frame::SingleFrame { data: data.clone() },
            Frame::FirstFrame { length, data } => Frame::FirstFrame { length: *length, data: data.clone() },
            Frame::ConsecutiveFrame { sequence, data } => Frame::ConsecutiveFrame {
                sequence: *sequence,
                data: data.clone(),
            },
            Frame::FlowControlFrame(ctx) => Frame::FlowControlFrame(*ctx),
        }
    }
}

impl Frame {
    /// The type of a frame.
    pub fn frame_type(&self) -> (r: FrameType)
        ensures
            r == spec_frame_type(self@),
    {
        match self {
            Frame::SingleFrame { .. } => FrameType::Single,
            Frame::FirstFrame { .. } => FrameType::First,
            Frame::ConsecutiveFrame { .. } => FrameType::Consecutive,
            Frame::FlowControlFrame(..) => FrameType::FlowControl,
        }
    }
}

pub open spec fn spec_frame_type(f: FrameView) -> FrameType {
    match f {
        FrameView::Single(_) => FrameType::Single,
        FrameView::First(..) => FrameType::First,
        FrameView::Consecutive(..) => FrameType::Consecutive,
        FrameView::FlowControl { .. } => FrameType::FlowControl,
    }
}

/// A decoding outcome seen through the views of frame and error.
pub open spec fn frame_result_view(r: Result<Frame, IsoTpError>) -> Result<FrameView, IsoTpErrorView> {
    match r {
        Ok(f) => Ok(f@),
        Err(e) => Err(e@),
    }
}

/// The padding byte: the one given, or the CAN default.
pub open spec fn pad_byte(padding: Option<u8>) -> u8 {
    match padding {
        Some(p) => p,
        None => spec_default_padding(),
    }
}

/// Big-endian value of four bytes.
pub open spec fn be_u32(b0: u8, b1: u8, b2: u8, b3: u8) -> u32 {
    (b0 as int * 0x100_0000 + b1 as int * 0x1_0000 + b2 as int * 0x100 + b3 as int) as u32
}

// ---------------------------------------------------------------------------
// Decoding model
// ---------------------------------------------------------------------------

/// Decoding of a single frame whose first byte is `byte0`.
pub open spec fn spec_decode_single(data: Seq<u8>, byte0: u8) -> Result<FrameView, IsoTpErrorView> {
    let length = data.len();
    let pdu_len = byte0 % 16;
    if length > spec_frame_size() {
        Err(IsoTpErrorView::LengthOutOfRange(length as usize))
    } else if pdu_len > 0 {
        if length < pdu_len + 1 {
            Err(IsoTpErrorView::InvalidPdu(data))
        } else {
            Ok(FrameView::Single(data.subrange(1, 1 + pdu_len)))
        }
    } else if length < 2 {
        Err(IsoTpErrorView::InvalidPdu(data))
    } else if data[1] == 0 || length < data[1] + 2 {
        Err(IsoTpErrorView::InvalidPdu(data))
    } else {
        Ok(FrameView::Single(data.subrange(2, 2 + data[1])))
    }
}

/// Decoding of a first frame whose first byte is `byte0`: a 12-bit length, or,
/// when it is 0, a 32-bit big-endian length in bytes 2 to 5.
pub open spec fn spec_decode_first(data: Seq<u8>, byte0: u8) -> Result<FrameView, IsoTpErrorView> {
    let length = data.len();
    if length < 2 {
        Err(IsoTpErrorView::InvalidPdu(data))
    } else {
        let pdu_len = (byte0 % 16) as int * 256 + data[1] as int;
        if pdu_len > 0 {
            Ok(FrameView::First(pdu_len as u32, data.skip(2)))
        } else if length < 6 {
            Err(IsoTpErrorView::InvalidPdu(data))
        } else {
            Ok(FrameView::First(be_u32(data[2], data[3], data[4], data[5]), data.skip(6)))
        }
    }
}

/// Decoding of the bytes of a CAN frame into an ISO-TP frame.
pub open spec fn spec_decode(data: Seq<u8>) -> Result<FrameView, IsoTpErrorView> {
    if data.len() == 0 {
        Err(IsoTpErrorView::EmptyPdu)
    } else {
        let byte0 = data[0];
        match FrameType::spec_of_byte(byte0) {
            None => Err(IsoTpErrorView::InvalidParam(frame_type_text(byte0))),
            Some(FrameType::Single) => spec_decode_single(data, byte0),
            Some(FrameType::First) => if data.len() < 2 {
                Err(IsoTpErrorView::InvalidPdu(data))
            } else {
                spec_decode_first(data, byte0)
            },
            Some(FrameType::Consecutive) => Ok(FrameView::Consecutive(byte0 % 16, data.skip(1))),
            Some(FrameType::FlowControl) => if data.len() < 3 {
                Err(IsoTpErrorView::InvalidPdu(data))
            } else {
                match FlowControlState::spec_from_u8(byte0 % 16) {
                    None => Err(IsoTpErrorView::InvalidParam(flow_state_text(byte0 % 16))),
                    Some(state) => if st_min_reserved(data[2]) {
                        Err(IsoTpErrorView::InvalidStMin(data[2]))
                    } else {
                        Ok(FrameView::FlowControl { state, block_size: data[1], st_min: data[2] })
                    },
                }
            },
        }
    }
}

// ---------------------------------------------------------------------------
// Encoding model
// ---------------------------------------------------------------------------

/// Encoding of a single frame: a one-byte length for up to 7 bytes, else a zero
/// byte and a one-byte length; then the data, cut or padded to a CAN frame.
pub open spec fn spec_encode_single(data: Seq<u8>, padding: Option<u8>) -> Seq<u8> {
    let head = if data.len() <= 7 {
        seq![data.len() as u8]
    } else {
        seq![0x00u8, (data.len() % 256) as u8]
    };
    resized(head + data, spec_frame_size(), pad_byte(padding))
}

/// Encoding of a first frame: a 12-bit length when it fits, else a zero
/// 12-bit length and a 32-bit big-endian length; then the data, unpadded.
pub open spec fn spec_encode_first(length: u32, data: Seq<u8>) -> Seq<u8> {
    let head = if length > 0x0FFF {
        seq![
            0x10u8,
            0x00u8,
            (length / 0x100_0000) as u8,
            ((length / 0x1_0000) % 256) as u8,
            ((length / 0x100) % 256) as u8,
            (length % 256) as u8,
        ]
    } else {
        seq![(0x10 + length / 256) as u8, (length % 256) as u8]
    };
    head + data
}

/// Encoding of a consecutive frame, cut or padded to a CAN frame.
pub open spec fn spec_encode_consecutive(sequence: u8, data: Seq<u8>, padding: Option<u8>) -> Seq<u8> {
    resized(seq![0x20u8 | sequence] + data, spec_frame_size(), pad_byte(padding))
}

/// Encoding of a flow control frame, padded to a CAN frame.
pub open spec fn spec_encode_flow_control(state: FlowControlState, block_size: u8, st_min: u8, padding: Option<u8>) -> Seq<u8> {
    resized(seq![0x30u8 | state.spec_to_u8(), block_size, st_min], spec_frame_size(), pad_byte(padding))
}

pub open spec fn spec_encode(f: FrameView, padding: Option<u8>) -> Seq<u8> {
    match f {
        FrameView::Single(data) => spec_encode_single(data, padding),
        FrameView::First(length, data) => spec_encode_first(length, data),
        FrameView::Consecutive(sequence, data) => spec_encode_consecutive(sequence, data, padding),
        FrameView::FlowControl { state, block_size, st_min } => spec_encode_flow_control(state, block_size, st_min, padding),
    }
}

} // verus!

verus! {

// ---------------------------------------------------------------------------
// Segmentation model
// ---------------------------------------------------------------------------

/// Number of consecutive frames that carry what the first frame does not.
pub open spec fn spec_consecutive_count(len: nat, first_size: nat) -> nat {
    ((len - first_size + 6) / 7) as nat
}

/// Payload of the `k`-th consecutive frame (from 0).
pub open spec fn spec_consecutive_chunk(data: Seq<u8>, first_size: nat, k: int) -> Seq<u8> {
    let start = first_size + 7 * k;
    let end = if start + 7 < data.len() { start + 7 } else { data.len() as int };
    data.subrange(start, end)
}

/// A first frame with `first_size` bytes, then consecutive frames of 7 bytes
/// (the last one shorter) numbered 1, 2, ..., 15, 0, 1, ...
pub open spec fn spec_segments(data: Seq<u8>, first_size: nat) -> Seq<FrameView> {
    Seq::new(
        spec_consecutive_count(data.len(), first_size) + 1,
        |i: int|
            if i == 0 {
                FrameView::First(data.len() as u32, data.take(first_size as int))
            } else {
                FrameView::Consecutive((i % 16) as u8, spec_consecutive_chunk(data, first_size, i - 1))
            },
    )
}

/// Frames that carry `data`: one single frame up to 7 bytes, a 12-bit first
/// frame up to 4095 bytes, a 32-bit first frame up to 2^32 - 1 bytes.
pub open spec fn spec_from_data(data: Seq<u8>) -> Result<Seq<FrameView>, IsoTpErrorView> {
    let len = data.len();
    if len == 0 {
        Err(IsoTpErrorView::EmptyPdu)
    } else if len <= 7 {
        Ok(seq![FrameView::Single(data)])
    } else if len <= 0x0FFF {
        Ok(spec_segments(data, 6))
    } else if len <= 0xFFFF_FFFF {
        Ok(spec_segments(data, 2))
    } else {
        Err(IsoTpErrorView::LengthOutOfRange(len as usize))
    }
}

pub open spec fn frames_view(frames: Seq<Frame>) -> Seq<FrameView> {
    frames.map_values(|f: Frame| f@)
}

/// A segmentation outcome seen through the views of frames and error.
pub open spec fn frames_result_view(r: Result<Vec<Frame>, IsoTpError>) -> Result<Seq<FrameView>, IsoTpErrorView> {
    match r {
        Ok(v) => Ok(frames_view(v@)),
        Err(e) => Err(e@),
    }
}

/// What the single frame built by `single_frame` holds: a one-byte length,
/// the data, and padding up to 7 bytes.
pub open spec fn spec_new_single(data: Seq<u8>) -> Result<FrameView, IsoTpErrorView> {
    if data.len() == 0 {
        Err(IsoTpErrorView::EmptyPdu)
    } else if data.len() <= 7 {
        Ok(FrameView::Single(resized(seq![data.len() as u8] + data, 7, spec_default_padding())))
    } else {
        Err(IsoTpErrorView::LengthOutOfRange(data.len() as usize))
    }
}

/// Encoding and decoding of ISO-TP frames.
pub trait FrameProcessor: Sized {
    /// Decodes a single frame from `data`, whose first byte is `byte0`.
    fn decode_single(data: &[u8], byte0: u8, len: usize) -> Result<Self, IsoTpError>
        requires
            len == data@.len(),
    ;

    /// Decodes a first frame from `data`, whose first byte is `byte0`.
    fn decode_first(data: &[u8], byte0: u8, len: usize) -> Result<Self, IsoTpError>
        requires
            len == data@.len(),
    ;

    /// Decodes a frame from the data of a CAN frame, like `02 10 01`.
    fn decode(data: &[u8]) -> Result<Self, IsoTpError>;

    /// Encodes a frame; `padding` fills frames up to the CAN frame size.
    fn encode(self, padding: Option<u8>) -> Vec<u8>;

    /// Splits `data` into a single frame, or a first frame and consecutive frames.
    fn from_data(data: &[u8]) -> Result<Vec<Self>, IsoTpError>;

    /// A single frame holding the length byte and `data`, padded to 7 bytes.
    fn single_frame(data: &[u8]) -> Result<Self, IsoTpError>;

    /// A flow control frame; a reserved separation time is refused.
    fn flow_ctrl_frame(state: FlowControlState, block_size: u8, st_min: u8) -> Result<Self, IsoTpError>;

    /// The flow control frame sent in answer to a first frame.
    fn default_flow_ctrl_frame() -> Self;
}

impl FrameProcessor for Frame {
    fn decode_single(data: &[u8], byte0: u8, len: usize) -> (r: Result<Frame, IsoTpError>)
        ensures
            frame_result_view(r) == spec_decode_single(data@, byte0),
    {
        crate::isotp::standard::decode_single(data, byte0, len)
    }

    fn decode_first(data: &[u8], byte0: u8, len: usize) -> (r: Result<Frame, IsoTpError>)
        ensures
            frame_result_view(r) == spec_decode_first(data@, byte0),
    {
        crate::isotp::standard::decode_first(data, byte0, len)
    }

    fn decode(data: &[u8]) -> (r: Result<Frame, IsoTpError>)
        ensures
            frame_result_view(r) == spec_decode(data@),
    {
        let length = data.len();
        if length == 0 {
            return Err(IsoTpError::EmptyPdu);
        }
        let byte0 = data[0];
        let frame_type = FrameType::try_from_u8(byte0)?;
        match frame_type {
            FrameType::Single => Self::decode_single(data, byte0, length),
            FrameType::First => {
                if length < 2 {
                    return Err(IsoTpError::InvalidPdu(vstd::slice::slice_to_vec(data)));
                }
                Self::decode_first(data, byte0, length)
            },
            FrameType::Consecutive => {
                let sequence = byte0 & 0x0F;
                assert(sequence == byte0 % 16) by (bit_vector) requires sequence == byte0 & 0x0F;
                Ok(Frame::ConsecutiveFrame {
                    sequence,
                    data: crate::isotp::bytes_util::copy_range(data, 1, length),
                })
            },
            FrameType::FlowControl => {
                if length < 3 {
                    return Err(IsoTpError::InvalidPdu(vstd::slice::slice_to_vec(data)));
                }
                let low = byte0 & 0x0F;
                assert(low == byte0 % 16) by (bit_vector) requires low == byte0 & 0x0F;
                let state = FlowControlState::try_from_u8(low)?;
                let fc = FlowControlContext::new(state, data[1], data[2])?;
                Ok(Frame::FlowControlFrame(fc))
            },
        }
    }

    fn encode(self, padding: Option<u8>) -> (r: Vec<u8>)
        ensures
            r@ == spec_encode(self@, padding),
    {
        match self {
            Frame::SingleFrame { data } => crate::isotp::standard::encode_single(data, padding),
            Frame::FirstFrame { length, data } => crate::isotp::standard::encode_first(length, data),
            Frame::ConsecutiveFrame { sequence, data } => {
                let mut result = vec![0x20u8 | sequence];
                crate::isotp::bytes_util::append_slice(&mut result, data.as_slice());
                let pad = match padding {
                    Some(p) => p,
                    None => crate::isotp::can::default_padding(),
                };
                crate::isotp::bytes_util::resize_to(&mut result, crate::isotp::can::max_frame_size(), pad);
                result
            },
            Frame::FlowControlFrame(context) => {
                let byte0_h: u8 = FrameType::FlowControl.to_u8();
                let byte0_l: u8 = context.state().to_u8();
                let mut result = vec![byte0_h | byte0_l, context.block_size(), context.st_min()];
                let pad = match padding {
                    Some(p) => p,
                    None => crate::isotp::can::default_padding(),
                };
                crate::isotp::bytes_util::resize_to(&mut result, crate::isotp::can::max_frame_size(), pad);
                assert(result@ =~= spec_encode(self@, padding));
                result
            },
        }
    }

    fn from_data(data: &[u8]) -> (r: Result<Vec<Frame>, IsoTpError>)
        ensures
            frames_result_view(r) == spec_from_data(data@),
    {
        crate::isotp::standard::from_data(data)
    }

    fn single_frame(data: &[u8]) -> (r: Result<Frame, IsoTpError>)
        ensures
            frame_result_view(r) == spec_new_single(data@),
    {
        crate::isotp::standard::new_single(data)
    }

    fn flow_ctrl_frame(state: FlowControlState, block_size: u8, st_min: u8) -> (r: Result<Frame, IsoTpError>)
        ensures
            frame_result_view(r) == (if st_min_reserved(st_min) {
                Err::<FrameView, IsoTpErrorView>(IsoTpErrorView::InvalidStMin(st_min))
            } else {
                Ok::<FrameView, IsoTpErrorView>(FrameView::FlowControl { state, block_size, st_min })
            }),
    {
        let ctx = FlowControlContext::new(state, block_size, st_min)?;
        Ok(Frame::FlowControlFrame(ctx))
    }

    fn default_flow_ctrl_frame() -> (r: Frame)
        ensures
            r@ == (FrameView::FlowControl {
                state: FlowControlState::Continues,
                block_size: crate::isotp::constants::DEFAULT_BLOCK_SIZE,
                st_min: crate::isotp::constants::DEFAULT_ST_MIN,
            }),
    {
        match Self::flow_ctrl_frame(
            FlowControlState::Continues,
            crate::isotp::constants::DEFAULT_BLOCK_SIZE,
            crate::isotp::constants::DEFAULT_ST_MIN,
        ) {
            Ok(f) => f,
            Err(_) => {
                assert(false);
                Frame::SingleFrame { data: Vec::new() }
            },
        }
    }
}

} // verus!
