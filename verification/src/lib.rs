//! A safe compress/uncompress/validate layer over the Snappy block codec.
//!
//! The codec transform itself is an external engine; this crate owns the
//! logic around it: computing destination capacity, acquiring and releasing
//! scratch memory, interpreting the engine's status and length outputs, and
//! resolving the ambiguous zero-length decompression case.

pub mod codec;
pub mod engine;
pub mod scratch;

pub use codec::compress;
pub use codec::uncompress;
pub use codec::validate_compressed_buffer;
