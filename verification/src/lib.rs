//! Verified ISO 15765-2 (ISO-TP over CAN) framing and ISO 14229-1 (UDS)
//! response encoding and decoding.

pub mod isotp;
pub mod uds;
