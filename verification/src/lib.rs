//! Codec and validation engine for the 5-byte metadata packs of DV video
//! frames (IEC 61834-4), together with the file-level facts that the packs are
//! validated against.
//!
//! A pack is one header byte followed by four payload bytes. [`pack::Pack::from_raw`]
//! turns such a record into a typed, validated value, or into an
//! [`pack::Pack::Invalid`] / [`pack::Pack::Unknown`] value that keeps the
//! payload untouched; [`pack::Pack::to_raw`] is its mirror.
pub mod ffutil;
pub mod file;
pub mod ioutil;
pub mod pack;
pub mod report;
pub mod text;
