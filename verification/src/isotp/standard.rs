//! ISO 15765-2:2016 frame layout on classical CAN.

use vstd::prelude::*;
use crate::isotp::error::IsoTpError;
use crate::isotp::frame::{
    Frame, FrameType, FrameView, frame_result_view, frames_result_view, frames_view, spec_decode_single,
    spec_decode_first, spec_encode_single, spec_encode_first, spec_segments, spec_consecutive_count,
    spec_from_data, spec_new_single, be_u32,
};
use crate::isotp::bytes_util::{copy_range, resize_to, append_slice, resized};
use crate::isotp::can::{max_frame_size, default_padding, spec_default_padding};
use crate::isotp::constants::{
    SINGLE_FRAME_SIZE_2004, SINGLE_FRAME_SIZE_2016, FIRST_FRAME_SIZE_2004, FIRST_FRAME_SIZE_2016,
    CONSECUTIVE_FRAME_SIZE, CONSECUTIVE_SEQUENCE_START, MAX_LENGTH_2004, MAX_LENGTH_2016,
};

verus! {

pub(crate) fn decode_single(data: &[u8], byte0: u8, length: usize) -> (r: Result<Frame, IsoTpError>)
    requires
        length == data@.len(),
    ensures
        frame_result_view(r) == spec_decode_single(data@, byte0),
{
    let max_len = max_frame_size();
    if length > max_len {
        return Err(IsoTpError::LengthOutOfRange(length));
    }
    let pdu_len = (byte0 & 0x0F) as usize;
    assert(byte0 & 0x0F == byte0 % 16) by (bit_vector);
    if pdu_len > 0 {
        if length < pdu_len + 1 {
            return Err(IsoTpError::InvalidPdu(vstd::slice::slice_to_vec(data)));
        }
        Ok(Frame::SingleFrame { data: copy_range(data, 1, 1 + pdu_len) })
    } else {
        if length < 2 {
            return Err(IsoTpError::InvalidPdu(vstd::slice::slice_to_vec(data)));
        }
        let escaped_len = data[1] as usize;
        if escaped_len == 0 || length < escaped_len + 2 {
            return Err(IsoTpError::InvalidPdu(vstd::slice::slice_to_vec(data)));
        }
        Ok(Frame::SingleFrame { data: copy_range(data, 2, 2 + escaped_len) })
    }
}

proof fn lemma_be_u32(a: u8, b: u8, c: u8, d: u8)
    ensures
        ((a as u32) << 24u32) | ((b as u32) << 16u32) | ((c as u32) << 8u32) | (d as u32) == be_u32(a, b, c, d),
{
    assert(((a as u32) << 24u32) | ((b as u32) << 16u32) | ((c as u32) << 8u32) | (d as u32)
        == (a as u32) * 0x100_0000u32 + (b as u32) * 0x1_0000u32 + (c as u32) * 0x100u32 + (d as u32)) by (bit_vector);
}

pub(crate) fn decode_first(data: &[u8], byte0: u8, length: usize) -> (r: Result<Frame, IsoTpError>)
    requires
        length == data@.len(),
    ensures
        frame_result_view(r) == spec_decode_first(data@, byte0),
{
    if length < 2 {
        return Err(IsoTpError::InvalidPdu(vstd::slice::slice_to_vec(data)));
    }
    let d1 = data[1];
    let pdu_len = ((byte0 as u32 & 0x0F) << 8u32) | d1 as u32;
    assert(((byte0 as u32 & 0x0F) << 8u32) | d1 as u32 == (byte0 % 16) as u32 * 256 + d1 as u32) by (bit_vector);
    if pdu_len > 0 {
        Ok(Frame::FirstFrame { length: pdu_len, data: copy_range(data, 2, length) })
    } else {
        if length < 6 {
            return Err(IsoTpError::InvalidPdu(vstd::slice::slice_to_vec(data)));
        }
        let (a, b, c, d) = (data[2], data[3], data[4], data[5]);
        let pdu_len = ((a as u32) << 24u32) | ((b as u32) << 16u32) | ((c as u32) << 8u32) | (d as u32);
        proof {
            lemma_be_u32(a, b, c, d);
        }
        Ok(Frame::FirstFrame { length: pdu_len, data: copy_range(data, 6, length) })
    }
}

pub(crate) fn encode_single(data: Vec<u8>, padding: Option<u8>) -> (r: Vec<u8>)
    ensures
        r@ == spec_encode_single(data@, padding),
{
    let payload_len = data.len();
    let mut result = if payload_len <= SINGLE_FRAME_SIZE_2004 {
        vec![FrameType::Single.to_u8() | payload_len as u8]
    } else {
        vec![FrameType::Single.to_u8(), payload_len as u8]
    };
    proof {
        let l = payload_len;
        assert(0u8 | (l as u8) == l as u8 && l as u8 == (l % 256) as u8) by (bit_vector);
    }
    append_slice(&mut result, data.as_slice());
    let pad = match padding {
        Some(p) => p,
        None => default_padding(),
    };
    resize_to(&mut result, max_frame_size(), pad);
    result
}

pub(crate) fn encode_first(length: u32, data: Vec<u8>) -> (r: Vec<u8>)
    ensures
        r@ == spec_encode_first(length, data@),
{
    let mut result = if length > 0x0FFF {
        let v = vec![
            FrameType::First.to_u8(),
            0x00u8,
            (length >> 24u32) as u8,
            (length >> 16u32) as u8,
            (length >> 8u32) as u8,
            length as u8,
        ];
        assert((length >> 24u32) as u8 == (length / 0x100_0000) as u8
            && (length >> 16u32) as u8 == ((length / 0x1_0000) % 256) as u8
            && (length >> 8u32) as u8 == ((length / 0x100) % 256) as u8
            && length as u8 == (length % 256) as u8) by (bit_vector);
        v
    } else {
        let len_h = ((length & 0x0F00) >> 8u32) as u8;
        let len_l = (length & 0x00FF) as u8;
        assert((length <= 0x0FFF ==> 0x10u8 | (((length & 0x0F00u32) >> 8u32) as u8) == (0x10 + length / 256) as u8)
            && (length & 0x00FFu32) as u8 == (length % 256) as u8) by (bit_vector);
        vec![FrameType::First.to_u8() | len_h, len_l]
    };
    append_slice(&mut result, data.as_slice());
    result
}

/// A single frame that holds the length byte and `data`, padded to 7 bytes.
pub fn new_single(data: &[u8]) -> (r: Result<Frame, IsoTpError>)
    ensures
        frame_result_view(r) == spec_new_single(data@),
{
    let length = data.len();
    if length == 0 {
        return Err(IsoTpError::EmptyPdu);
    }
    if length > SINGLE_FRAME_SIZE_2016 {
        return Err(IsoTpError::LengthOutOfRange(length));
    }
    let b0 = FrameType::Single.to_u8() | length as u8;
    assert(0u8 | (length as u8) == length as u8) by (bit_vector);
    let mut result = vec![b0];
    assert(result@ =~= seq![data@.len() as u8]);
    append_slice(&mut result, data);
    resize_to(&mut result, SINGLE_FRAME_SIZE_2016, default_padding());
    let r = Frame::SingleFrame { data: result };
    assert(r@ == FrameView::Single(resized(seq![data@.len() as u8] + data@, 7, spec_default_padding())));
    Ok(r)
}

/// A first frame followed by consecutive frames that carry `data`.
fn segment(data: &[u8], first_frame_size: usize) -> (results: Vec<Frame>)
    requires
        first_frame_size == 2 || first_frame_size == 6,
        first_frame_size < data@.len() <= 0xFFFF_FFFF,
    ensures
        frames_view(results@) == spec_segments(data@, first_frame_size as nat),
{
    let length = data.len();
    let ghost spec = spec_segments(data@, first_frame_size as nat);
    let mut results: Vec<Frame> = Vec::new();
    results.push(Frame::FirstFrame { length: length as u32, data: copy_range(data, 0, first_frame_size) });
    let mut offset = first_frame_size;
    let mut sequence: u8 = CONSECUTIVE_SEQUENCE_START;
    proof {
        assert(data@.subrange(0, first_frame_size as int) =~= data@.take(first_frame_size as int));
    }
    while length - offset > CONSECUTIVE_FRAME_SIZE
        invariant
            length == data@.len(),
            first_frame_size == 2 || first_frame_size == 6,
            first_frame_size < length <= 0xFFFF_FFFF,
            spec == spec_segments(data@, first_frame_size as nat),
            results@.len() >= 1,
            offset == first_frame_size + 7 * (results@.len() - 1),
            offset < length,
            results@.len() < spec.len(),
            sequence == (results@.len() % 16) as u8,
            forall|j: int| 0 <= j < results@.len() ==> #[trigger] results@[j]@ == spec[j],
        decreases length - offset,
    {
        let chunk = copy_range(data, offset, offset + CONSECUTIVE_FRAME_SIZE);
        results.push(Frame::ConsecutiveFrame { sequence, data: chunk });
        offset = offset + CONSECUTIVE_FRAME_SIZE;
        if sequence >= 0x0F {
            sequence = 0;
        } else {
            sequence = sequence + 1;
        }
    }
    let chunk = copy_range(data, offset, length);
    results.push(Frame::ConsecutiveFrame { sequence, data: chunk });
    assert(frames_view(results@) =~= spec);
    results
}

/// Splits `data` into the frames that carry it.
pub fn from_data(data: &[u8]) -> (r: Result<Vec<Frame>, IsoTpError>)
    ensures
        frames_result_view(r) == spec_from_data(data@),
{
    let length = data.len();
    if length == 0 {
        Err(IsoTpError::EmptyPdu)
    } else if length <= SINGLE_FRAME_SIZE_2016 {
        let mut v: Vec<Frame> = Vec::new();
        v.push(Frame::SingleFrame { data: vstd::slice::slice_to_vec(data) });
        assert(frames_view(v@) =~= seq![FrameView::Single(data@)]);
        Ok(v)
    } else if length <= MAX_LENGTH_2004 {
        Ok(segment(data, FIRST_FRAME_SIZE_2004))
    } else if length <= MAX_LENGTH_2016 {
        Ok(segment(data, FIRST_FRAME_SIZE_2016))
    } else {
        Err(IsoTpError::LengthOutOfRange(length))
    }
}

} // verus!
