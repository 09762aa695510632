//! Bounds-checked parsing of tagged binary tables.
//!
//! A whole-file buffer holds a directory that maps 4-byte tags to byte
//! ranges; each range holds a fixed-schema table whose fields are decoded
//! big-endian through explicit, checked codecs. Every read is validated
//! against the buffer length before any byte is touched, and every failure
//! is a typed result: nothing here panics on malformed input.

pub mod codec;
pub mod cursor;
pub mod descriptor;
pub mod directory;
pub mod error;
pub mod position;
pub mod surface;
pub mod tag;
