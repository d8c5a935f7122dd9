//! ISO 14229-1 (UDS): services, response codes and response data.

pub mod service;
pub mod error;
pub mod hex_text;
pub mod utils;
pub mod code;
pub mod types;
pub mod params;
pub mod response;
