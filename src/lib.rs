//! Client-side engine for a device debug bridge wire protocol: frame codec,
//! connection handshake and logical stream multiplexing.

pub mod error;
pub mod protocol;
pub mod crypto;
pub mod handshake;
pub mod stream;
pub mod util;
