//! The compression service: compress, uncompress and validate, composed from
//! scratch memory and the engine, each call stateless and independent.

use vstd::prelude::*;
use crate::engine::compressed_of;
use crate::engine::decoded_of;
use crate::engine::fits_engine;
use crate::engine::max_compressed_bound;
use crate::engine::valid_block;
use crate::engine::engine_compress;
use crate::engine::engine_decompress;
use crate::engine::engine_is_valid;
use crate::engine::engine_max_compressed_len;
use crate::engine::engine_uncompressed_length;
use crate::scratch::ScratchBuffer;

verus! {

/// What `compress` promises of its output: it is the engine's block for
/// `src`, decoding it restores `src`, and it fits the capacity bound.
pub open spec fn compress_post(src: Seq<u8>, out: Seq<u8>) -> bool {
    &&& out == compressed_of(src)
    &&& decoded_of(out) == Some(src)
    &&& out.len() <= max_compressed_bound(src.len())
}

/// What `uncompress` promises of its outcome: exactly what the decoder makes
/// of the input — the payload for a valid block, nothing for a malformed one.
pub open spec fn uncompress_post(src: Seq<u8>, r: Option<Seq<u8>>) -> bool {
    r == decoded_of(src)
}

/// What `validate_compressed_buffer` promises of its verdict.
pub open spec fn validate_post(src: Seq<u8>, r: bool) -> bool {
    r == valid_block(src)
}

/// The view of an optional owned byte sequence.
pub open spec fn opt_bytes_view(r: Option<Vec<u8>>) -> Option<Seq<u8>> {
    match r {
        Some(v) => Some(v@),
        None => None,
    }
}

/// Whether a byte sequence is a well-formed compressed block. A pure
/// pass-through to the engine's validity predicate: no allocation, no
/// mutation, the same verdict on every call.
pub fn validate_compressed_buffer(src: &[u8]) -> (r: bool)
    ensures
        validate_post(src@, r),
{
    engine_is_valid(src)
}

/// Compresses an arbitrary payload into an owned compressed block. Never
/// fails: the engine's transform succeeds on every payload that fits it, and
/// the scratch region is sized from the engine's own capacity bound.
pub fn compress(src: &[u8]) -> (out: Vec<u8>)
    requires
        fits_engine(src@.len()),
    ensures
        compress_post(src@, out@),
{
    // Compute the output capacity: positive for every input length.
    let dstlen = engine_max_compressed_len(src.len());
    // Acquire the scratch region.
    let buf_opt = ScratchBuffer::acquire(dstlen);
    let mut buf = buf_opt.unwrap();
    // Compress; with a region of the bound's size this cannot fail.
    let written = engine_compress(src, &mut buf);
    // Trim to the actual length and copy into an owned sequence; the scratch
    // region is released on return.
    buf.copy_out(written)
}

/// Decompresses a byte sequence that need not be a valid compressed block.
/// Yields the decoded payload, or nothing when the block is malformed.
pub fn uncompress(src: &[u8]) -> (r: Option<Vec<u8>>)
    ensures
        uncompress_post(src@, opt_bytes_view(r)),
{
    // Ask the length oracle; a malformed header stops here, unallocated.
    let dstlen = match engine_uncompressed_length(src) {
        Some(n) => n,
        None => {
            return None;
        },
    };
    // A reported length of zero is ambiguous: a compressed empty payload and
    // some malformed blocks both report it. The validity predicate decides.
    if dstlen == 0 {
        if validate_compressed_buffer(src) {
            proof {
                assert(decoded_of(src@).unwrap() =~= Seq::<u8>::empty());
            }
            return Some(Vec::new());
        } else {
            return None;
        }
    }
    // Acquire the scratch region at the reported length.
    let buf_opt = ScratchBuffer::acquire(dstlen);
    let mut buf = buf_opt.unwrap();
    // Decompress; failure here signals a corrupt block body.
    let written = match engine_decompress(src, &mut buf) {
        Some(n) => n,
        None => {
            return None;
        },
    };
    // Trim to the actual length and copy into an owned sequence; the scratch
    // region is released on return.
    Some(buf.copy_out(written))
}

/// Round trip: a compression output meeting `compress`'s contract, given to
/// an outcome meeting `uncompress`'s contract, restores the original bytes.
pub proof fn lemma_round_trip(b: Seq<u8>, c: Seq<u8>, u: Option<Seq<u8>>)
    requires
        compress_post(b, c),
        uncompress_post(c, u),
    ensures
        u == Some(b),
{
}

/// Every compression output is a valid block, so validating it succeeds.
pub proof fn lemma_compressed_output_is_valid(b: Seq<u8>, c: Seq<u8>, v: bool)
    requires
        compress_post(b, c),
        validate_post(c, v),
    ensures
        v,
{
}

/// The validity verdict agrees with decompression on every byte sequence,
/// whether or not it came from `compress`: a block validates exactly when
/// uncompressing it yields a payload.
pub proof fn lemma_validate_agrees_with_uncompress(s: Seq<u8>, v: bool, u: Option<Seq<u8>>)
    requires
        validate_post(s, v),
        uncompress_post(s, u),
    ensures
        v <==> (u is Some),
{
}

/// The compressed output never exceeds the engine's capacity bound for the
/// input's length.
pub proof fn lemma_capacity_bound(b: Seq<u8>, c: Seq<u8>)
    requires
        compress_post(b, c),
    ensures
        c.len() <= max_compressed_bound(b.len()),
{
}

/// Validation is deterministic: any two verdicts on the same bytes agree, so
/// calling it twice on one input yields the same result both times.
pub proof fn lemma_validate_idempotent(s: Seq<u8>, first: bool, second: bool)
    requires
        validate_post(s, first),
        validate_post(s, second),
    ensures
        first == second,
{
}

} // verus!
