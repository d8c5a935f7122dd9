//! Events of a transfer and reassembly of consecutive frames.

use vstd::prelude::*;
use bytes::{Bytes, BytesMut};
use crate::isotp::error::{IsoTpError, IsoTpErrorView};
use crate::isotp::buffer::{
    bytes_contents, bytes_mut_contents, bytes_mut_new, bytes_mut_len, bytes_mut_extend, bytes_mut_clear,
    bytes_mut_resize, bytes_mut_clone, bytes_mut_freeze,
};
use crate::isotp::constants::CONSECUTIVE_SEQUENCE_START;

verus! {

/// What a transfer reports to its listener.
#[derive(Debug)]
pub enum Event {
    Wait,
    FirstFrameReceived,
    DataReceived(Bytes),
    ErrorOccurred(IsoTpError),
}

/// The mathematical content of an [`Event`].
pub enum EventView {
    Wait,
    FirstFrameReceived,
    DataReceived(Seq<u8>),
    ErrorOccurred(IsoTpErrorView),
}

impl View for Event {
    type V = EventView;

    open spec fn view(&self) -> EventView {
        match self {
            Event::Wait => EventView::Wait,
            Event::FirstFrameReceived => EventView::FirstFrameReceived,
            Event::DataReceived(b) => EventView::DataReceived(bytes_contents(*b)),
            Event::ErrorOccurred(e) => EventView::ErrorOccurred(e@),
        }
    }
}

pub open spec fn event_result_view(r: Result<Event, IsoTpError>) -> Result<EventView, IsoTpErrorView> {
    match r {
        Ok(e) => Ok(e@),
        Err(e) => Err(e@),
    }
}

/// Consecutive frame data context: the last sequence number accepted, the
/// announced length and the bytes received so far.
#[derive(Debug)]
pub struct Consecutive {
    sequence: Option<u8>,
    length: Option<u32>,
    buffer: BytesMut,
}

/// The mathematical content of a [`Consecutive`].
pub struct ConsecutiveView {
    pub sequence: Option<u8>,
    pub length: Option<u32>,
    pub buffer: Seq<u8>,
}

impl View for Consecutive {
    type V = ConsecutiveView;

    closed spec fn view(&self) -> ConsecutiveView {
        ConsecutiveView { sequence: self.sequence, length: self.length, buffer: bytes_mut_contents(self.buffer) }
    }
}

/// The context with nothing received.
pub open spec fn spec_consecutive_empty() -> ConsecutiveView {
    ConsecutiveView { sequence: None, length: None, buffer: Seq::empty() }
}

/// The sequence number expected after `last` (none accepted yet: 1).
pub open spec fn spec_next_sequence(last: Option<u8>) -> u8 {
    match last {
        Some(v) => if v <= 0x0E { (v + 1) as u8 } else { 0 },
        None => CONSECUTIVE_SEQUENCE_START,
    }
}

/// A first frame announced `length` bytes and carried `data`.
pub open spec fn spec_update(c: ConsecutiveView, length: u32, data: Seq<u8>) -> ConsecutiveView {
    ConsecutiveView { sequence: c.sequence, length: Some(length), buffer: c.buffer + data }
}

/// A consecutive frame numbered `sequence` carried `data`: the new context and what it reports.
pub open spec fn spec_append(c: ConsecutiveView, sequence: u8, data: Seq<u8>) -> (ConsecutiveView, Result<EventView, IsoTpErrorView>) {
    match c.length {
        None => (c, Err(IsoTpErrorView::MixFramesError)),
        Some(length) => {
            let target = spec_next_sequence(c.sequence);
            let c1 = ConsecutiveView { sequence: Some(target), ..c };
            if sequence != target {
                (c1, Err(IsoTpErrorView::InvalidSequence { expect: target, actual: sequence }))
            } else {
                let buf = c.buffer + data;
                if buf.len() >= length {
                    let done = buf.take(length as int);
                    (ConsecutiveView { buffer: done, ..c1 }, Ok(EventView::DataReceived(done)))
                } else {
                    (ConsecutiveView { buffer: buf, ..c1 }, Ok(EventView::Wait))
                }
            }
        },
    }
}

impl Consecutive {
    pub fn new() -> (r: Consecutive)
        ensures
            r@ == spec_consecutive_empty(),
    {
        Consecutive { sequence: None, length: None, buffer: bytes_mut_new() }
    }

    /// The number of bytes received so far.
    pub fn buffer_len(&self) -> (r: usize)
        ensures
            r == self@.buffer.len(),
    {
        bytes_mut_len(&self.buffer)
    }

    /// Forgets the sequence number, the length and the bytes received.
    pub fn clear(&mut self)
        ensures
            final(self)@ == spec_consecutive_empty(),
    {
        self.sequence = None;
        self.length = None;
        bytes_mut_clear(&mut self.buffer);
    }

    /// Records the length that a first frame announced and the bytes it carried.
    pub fn update(&mut self, length: u32, data: Vec<u8>)
        requires
            old(self)@.buffer.len() + data@.len() <= isize::MAX,
        ensures
            final(self)@ == spec_update(old(self)@, length, data@),
    {
        self.length = Some(length);
        bytes_mut_extend(&mut self.buffer, data.as_slice());
    }

    /// Appends a consecutive frame: refused without a first frame or out of
    /// sequence; reports the whole message once the announced length is reached.
    pub fn append(&mut self, sequence: u8, data: Vec<u8>) -> (r: Result<Event, IsoTpError>)
        requires
            old(self)@.buffer.len() + data@.len() <= isize::MAX,
        ensures
            (final(self)@, event_result_view(r)) == spec_append(old(self)@, sequence, data@),
    {
        let length = match self.length {
            None => return Err(IsoTpError::MixFramesError),
            Some(l) => l,
        };
        let target = match self.sequence {
            Some(v) => if v <= 0x0E {
                v + 1
            } else {
                0
            },
            None => CONSECUTIVE_SEQUENCE_START,
        };
        self.sequence = Some(target);
        if sequence != target {
            return Err(IsoTpError::InvalidSequence { expect: target, actual: sequence });
        }
        bytes_mut_extend(&mut self.buffer, data.as_slice());
        let buff_len = bytes_mut_len(&self.buffer);
        let target_len = length as usize;
        if buff_len >= target_len {
            bytes_mut_resize(&mut self.buffer, target_len, 0);
            proof {
                let b = bytes_mut_contents(self.buffer);
                assert(b =~= (old(self)@.buffer + data@).take(length as int));
            }
            let data = bytes_mut_clone(&self.buffer);
            Ok(Event::DataReceived(bytes_mut_freeze(data)))
        } else {
            Ok(Event::Wait)
        }
    }
}

} // verus!
