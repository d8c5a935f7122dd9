//! ISO 15765-2 transport layer: frames, flow control and reassembly.

pub mod constants;
pub mod error;
pub mod common;
pub mod state;
pub mod can;
pub mod bytes_util;
pub mod frame;
pub mod standard;
pub mod buffer;
pub mod reassembly;
pub mod events;
pub mod laws;
pub mod address;
pub mod timing;
pub mod transfer;
