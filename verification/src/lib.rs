//! Decoder for 32-bit Windows PE executable images.
//!
//! The crate turns a raw, untrusted byte buffer into a fully validated,
//! typed in-memory representation of a PE32 image, or a descriptive error.
//! Every parsing step and every cross-field validation gate is verified:
//! the executable decoders are proved equivalent to specification-level
//! readers of the byte format, and the top-level pipeline is proved to
//! succeed exactly on well-formed inputs.

pub mod coff;
pub mod cursor;
pub mod datadir;
pub mod error;
pub mod image;
pub mod mz;
pub mod optional;
pub mod pe32_optional;
pub mod section;
pub mod utf8_check;
