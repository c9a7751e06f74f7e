//! Incremental decoding of byte streams into text under a chosen character
//! encoding, with a fatal or a replacing policy for malformed input.
pub mod codec;
pub mod session;

pub use session::{DecodeError, TextDecoder};
