//! Reader and writer for the framed binary `.bytes` level/save format of a
//! racing game: a tree of game objects, each carrying an ordered list of
//! typed or opaque components, stored as length-prefixed scopes tagged by
//! magic integer marks.
//!
//! Floating-point fields travel through the codec as their IEEE 754 bit
//! patterns (`u32`/`u64`), which keeps every byte-level rule of the format a
//! matter of integer logic.

pub mod bytes_le;
pub mod enums;
pub mod error;
pub mod ids;
pub mod floatbits;
pub mod marks;
pub mod component;
pub mod datetime;
pub mod decode;
pub mod domain;
pub mod encode;
pub mod reader;
pub mod varint;
pub mod widestr;
pub mod wire;
pub mod writer;

use vstd::prelude::*;

verus! {

} // verus!
