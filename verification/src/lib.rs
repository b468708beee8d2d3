//! Locates code and data inside a read-only binary image by scanning for byte
//! signatures with wildcard positions and by decoding the position-independent
//! instructions found at the matched offsets.

pub mod codes;
pub mod error;
pub mod lanes;
pub mod locate;
pub mod persist;
pub mod registry;
pub mod reloc;
pub mod signature;
pub mod scanner;
pub mod table;
