use vstd::prelude::*;
use crate::isotp::error::{IsoTpError, IsoTpErrorView, decimal_text, decimal_string};

verus! {

/// Flow status carried by a flow control frame.
#[derive(Debug, Copy, Clone, PartialEq, Eq, Structural)]
pub enum FlowControlState {
    Continues,
    Wait,
    Overload,
}

impl FlowControlState {
    /// The flow status nibble of a state.
    pub open spec fn spec_to_u8(self) -> u8 {
        match self {
            FlowControlState::Continues => 0x00,
            FlowControlState::Wait => 0x01,
            FlowControlState::Overload => 0x02,
        }
    }

    /// The state a flow status nibble stands for, if any.
    pub open spec fn spec_from_u8(v: u8) -> Option<FlowControlState> {
        if v == 0x00 {
            Some(FlowControlState::Continues)
        } else if v == 0x01 {
            Some(FlowControlState::Wait)
        } else if v == 0x02 {
            Some(FlowControlState::Overload)
        } else {
            None
        }
    }

    pub fn to_u8(self) -> (r: u8)
        ensures
            r == self.spec_to_u8(),
    {
        match self {
            FlowControlState::Continues => 0x00,
            FlowControlState::Wait => 0x01,
            FlowControlState::Overload => 0x02,
        }
    }

    /// Reads a flow status; values other than 0, 1 and 2 are refused.
    pub fn try_from_u8(value: u8) -> (r: Result<FlowControlState, IsoTpError>)
        ensures
            match FlowControlState::spec_from_u8(value) {
                Some(s) => r == Ok::<FlowControlState, IsoTpError>(s),
                None => r matches Err(e) && e@ == IsoTpErrorView::InvalidParam(flow_state_text(value)),
            },
    {
        match value {
            0x00 => Ok(FlowControlState::Continues),
            0x01 => Ok(FlowControlState::Wait),
            0x02 => Ok(FlowControlState::Overload),
            _ => Err(IsoTpError::InvalidParam(state_message(value))),
        }
    }
}

/// The message of an invalid flow status.
pub open spec fn flow_state_text(value: u8) -> Seq<char> {
    "`state` ("@ + decimal_text(value) + ")"@
}

/// The message of an invalid flow status.
fn state_message(value: u8) -> (r: String)
    ensures
        r@ == flow_state_text(value),
{
    let mut out = String::from_str("`state` (");
    out.append(decimal_string(value).as_str());
    out.append(")");
    out
}

/// Whether a separation time value is reserved (0x80..=0xF0 and 0xFA..=0xFF).
pub open spec fn st_min_reserved(st_min: u8) -> bool {
    (0x80 <= st_min && st_min <= 0xF0) || 0xFA <= st_min
}

/// Flow control frame context.
#[derive(Debug, Copy, Clone)]
pub struct FlowControlContext {
    pub(crate) state: FlowControlState,
    pub(crate) block_size: u8,
    /// 0x00..=0x7F: milliseconds; 0xF1..=0xF9: 100 to 900 microseconds.
    pub(crate) st_min: u8,
}

impl FlowControlContext {
    /// Every context holds a separation time that is not reserved.
    #[verifier::type_invariant]
    closed spec fn wf(self) -> bool {
        !st_min_reserved(self.st_min)
    }

    pub closed spec fn spec_state(self) -> FlowControlState {
        self.state
    }

    pub closed spec fn spec_block_size(self) -> u8 {
        self.block_size
    }

    pub closed spec fn spec_st_min(self) -> u8 {
        self.st_min
    }

    /// Separation time in microseconds of a valid context.
    pub open spec fn spec_st_min_us(self) -> u32 {
        if self.spec_st_min() <= 0x7F {
            (1000 * self.spec_st_min()) as u32
        } else {
            (100 * (self.spec_st_min() % 16)) as u32
        }
    }

    /// Builds a context; a reserved separation time is refused.
    pub fn new(state: FlowControlState, block_size: u8, st_min: u8) -> (r: Result<FlowControlContext, IsoTpError>)
        ensures
            st_min_reserved(st_min) <==> r is Err,
            st_min_reserved(st_min) ==> r == Err::<FlowControlContext, IsoTpError>(IsoTpError::InvalidStMin(st_min)),
            r matches Ok(c) ==> c.spec_state() == state && c.spec_block_size() == block_size
                && c.spec_st_min() == st_min,
    {
        if (0x80 <= st_min && st_min <= 0xF0) || 0xFA <= st_min {
            Err(IsoTpError::InvalidStMin(st_min))
        } else {
            Ok(FlowControlContext { state, block_size, st_min })
        }
    }

    pub fn state(&self) -> (r: FlowControlState)
        ensures
            r == self.spec_state(),
    {
        self.state
    }

    pub fn block_size(&self) -> (r: u8)
        ensures
            r == self.spec_block_size(),
    {
        self.block_size
    }

    pub fn st_min(&self) -> (r: u8)
        ensures
            r == self.spec_st_min(),
    {
        self.st_min
    }

    /// Separation time in microseconds; a reserved value cannot be held by a valid context.
    pub fn st_min_us(&self) -> (r: u32)
        ensures
            r == self.spec_st_min_us(),
    {
        proof {
            use_type_invariant(self);
        }
        let st_min = self.st_min;
        if st_min <= 0x7F {
            1000 * (st_min as u32)
        } else {
            assert(st_min & 0x0F == st_min % 16) by (bit_vector);
            100 * ((st_min & 0x0F) as u32)
        }
    }
}


/// The flow status values: 0 continue to send, 1 wait, 2 overflow; no other value names one.
pub proof fn flow_control_state_table(v: u8)
    ensures
        FlowControlState::spec_from_u8(0x00) == Some(FlowControlState::Continues),
        FlowControlState::spec_from_u8(0x01) == Some(FlowControlState::Wait),
        FlowControlState::spec_from_u8(0x02) == Some(FlowControlState::Overload),
        FlowControlState::Continues.spec_to_u8() == 0x00,
        FlowControlState::Wait.spec_to_u8() == 0x01,
        FlowControlState::Overload.spec_to_u8() == 0x02,
        !(v == 0x00 || v == 0x01 || v == 0x02) ==> FlowControlState::spec_from_u8(v) is None,
{
}

} // verus!
