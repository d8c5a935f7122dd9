use vstd::prelude::*;

verus! {

/// Block size sent in the flow control frame that answers a first frame.
pub const DEFAULT_BLOCK_SIZE: u8 = 0x00;
/// Separation time sent in the flow control frame that answers a first frame.
pub const DEFAULT_ST_MIN: u8 = 10;
/// Sequence number of the first consecutive frame.
pub const CONSECUTIVE_SEQUENCE_START: u8 = 0x01;
/// Largest message that a 12-bit first-frame length can announce.
pub const MAX_LENGTH_2004: usize = 0x0FFF;
/// Largest message that a 32-bit first-frame length can announce.
pub const MAX_LENGTH_2016: usize = 0xFFFF_FFFF;
/// Largest P2 value in milliseconds.
pub const P2_MAX: u16 = 50;
/// Largest P2* value in units of 10 milliseconds.
pub const P2_STAR_MAX: u16 = 500;

/// N_As: sender's network layer acknowledgement time, in milliseconds.
pub const TIMEOUT_AS_ISO15765_2: u32 = 1000;
/// N_Ar: receiver's network layer acknowledgement time, in milliseconds.
pub const TIMEOUT_AR_ISO15765_2: u32 = 1000;
/// N_Bs: sender's wait time for a flow control frame, in milliseconds.
pub const TIMEOUT_BS_ISO15765_2: u32 = 1000;
/// N_Br: receiver's time until the next flow control frame, in milliseconds.
pub const TIMEOUT_BR_ISO15765_2: u32 = 1000;
/// N_Cs: sender's time until the next consecutive frame, in milliseconds.
pub const TIMEOUT_CS_ISO15765_2: u32 = 1000;
/// N_Cr: receiver's wait time for the next consecutive frame, in milliseconds.
pub const TIMEOUT_CR_ISO15765_2: u32 = 1000;

/// Longest wait before the next frame of a message may be sent, in milliseconds.
pub const WRITE_TIMEOUT_MS: u64 = 5_000;

/// Largest payload of a single frame with a one-byte protocol control information.
pub const SINGLE_FRAME_SIZE_2004: usize = 7;
/// Largest payload that is sent as a single frame on classical CAN.
pub const SINGLE_FRAME_SIZE_2016: usize = 7;
/// Payload of a first frame with a 12-bit length (2-byte header).
pub const FIRST_FRAME_SIZE_2004: usize = 6;
/// Payload of a first frame with a 32-bit length (6-byte header).
pub const FIRST_FRAME_SIZE_2016: usize = 2;
/// Payload of a full consecutive frame.
pub const CONSECUTIVE_FRAME_SIZE: usize = 7;

} // verus!
