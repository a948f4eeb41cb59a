//! The msgpack encoding of values: its format, a writer and a reader.

pub mod endian;
pub mod format;
pub mod laws;
pub mod encode;
pub mod decode;
