//! Codec for a fixed-layout binary contact record.
//!
//! A record is a fixed run of bytes holding five fixed-width text fields and a
//! two-byte flag word at fixed offsets. The codec reads such a run of bytes
//! into a structured value, writes the value back byte for byte, and extracts
//! each text field as the UTF-8 text before its first NUL byte.

pub mod record;
pub mod text;

pub use record::CodecError;
pub use record::Speaker;
pub use record::RECORD_BYTES;
pub use text::c_string;
