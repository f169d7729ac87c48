//! The codec engine: trusted bindings to the Snappy block codec, together
//! with the spec-level names for what its operations return.

use vstd::prelude::*;
use crate::scratch::ScratchBuffer;

verus! {

/// The block the engine's compressor produces for a payload. Compression is
/// a pure function of the input bytes, so its output can be given a name
/// even though the block's exact bytes are not modelled here.
pub uninterp spec fn compressed_of(s: Seq<u8>) -> Seq<u8>;

/// What the engine's decompressor makes of a byte sequence: the decoded
/// payload for a well-formed block, nothing for a malformed one.
pub uninterp spec fn decoded_of(s: Seq<u8>) -> Option<Seq<u8>>;

/// What the engine's length oracle reads out of a byte sequence's header:
/// the decompressed length stored there, or nothing when the header itself
/// is malformed. A reported length says nothing about the block's body.
pub uninterp spec fn length_oracle_of(s: Seq<u8>) -> Option<nat>;

/// Whether an `n`-byte payload fits the engine: the Snappy format stores
/// lengths as 32-bit values, and the capacity bound itself must fit one.
pub open spec fn fits_engine(n: nat) -> bool {
    32 + n + n / 6 <= 0xFFFF_FFFF
}

/// The engine's capacity bound: the worst-case compressed size of an
/// `n`-byte payload. Positive for every length, including zero.
pub open spec fn max_compressed_bound(n: nat) -> nat {
    32 + n + n / 6
}

/// A byte sequence is a valid block exactly when the decompressor makes
/// something of it.
pub open spec fn valid_block(s: Seq<u8>) -> bool {
    decoded_of(s) is Some
}

/// Relies on snap::raw::max_compress_len: it returns 32 + n + n/6 when that
/// bound fits a 32-bit length, and 0 otherwise.
#[verifier::external_body]
pub(crate) fn engine_max_compressed_len(source_length: usize) -> (r: usize)
    ensures
        fits_engine(source_length as nat) ==> r == max_compressed_bound(source_length as nat),
        !fits_engine(source_length as nat) ==> r == 0,
{
    snap::raw::max_compress_len(source_length)
}

/// Relies on snap::raw::Encoder::compress: it writes the encoded block for
/// `src` into the front of the destination and returns the number of bytes
/// written, never more than max_compress_len(src.len()); with a destination
/// at least that large it does not fail. Decoding the written block restores
/// `src` exactly: the encoder and the decoder implement the same block
/// format.
#[verifier::external_body]
pub(crate) fn engine_compress(src: &[u8], dst: &mut ScratchBuffer) -> (written: usize)
    requires
        fits_engine(src@.len()),
        old(dst).cap() >= max_compressed_bound(src@.len()),
    ensures
        final(dst).cap() == old(dst).cap(),
        written <= max_compressed_bound(src@.len()),
        final(dst).bytes().subrange(0, written as int) == compressed_of(src@),
        decoded_of(final(dst).bytes().subrange(0, written as int)) == Some(src@),
{
    let mut encoder = snap::raw::Encoder::new();
    encoder.compress(src, dst.data.as_mut_slice()).unwrap()
}

/// Relies on snap::raw::decompress_len: it reads the block's header alone
/// and reports the decompressed length stored there, failing exactly when
/// the header is malformed; for a block the decompressor accepts, the header
/// length equals the decoded payload's length.
#[verifier::external_body]
pub(crate) fn engine_uncompressed_length(src: &[u8]) -> (r: Option<usize>)
    ensures
        (r is Some) <==> (length_oracle_of(src@) is Some),
        r is Some ==> r.unwrap() == length_oracle_of(src@).unwrap(),
        decoded_of(src@) is Some ==> (r is Some && r.unwrap() == decoded_of(src@).unwrap().len()),
{
    match snap::raw::decompress_len(src) {
        Ok(n) => Some(n),
        Err(_) => None,
    }
}

/// Relies on snap::raw::Decoder::decompress: with a destination at least as
/// large as the header's reported length, it decodes the whole block into
/// the front of the destination and returns the decoded length, failing
/// exactly when the block is malformed; success and the decoded bytes are a
/// function of the input alone.
#[verifier::external_body]
pub(crate) fn engine_decompress(src: &[u8], dst: &mut ScratchBuffer) -> (r: Option<usize>)
    requires
        length_oracle_of(src@) is Some,
        old(dst).cap() >= length_oracle_of(src@).unwrap(),
    ensures
        final(dst).cap() == old(dst).cap(),
        (r is Some) <==> (decoded_of(src@) is Some),
        r is Some ==> r.unwrap() == decoded_of(src@).unwrap().len(),
        r is Some ==> final(dst).bytes().subrange(0, r.unwrap() as int) == decoded_of(src@).unwrap(),
{
    let mut decoder = snap::raw::Decoder::new();
    match decoder.decompress(src, dst.data.as_mut_slice()) {
        Ok(n) => Some(n),
        Err(_) => None,
    }
}

/// Relies on snap::raw::Decoder::decompress_vec: it sizes a buffer from the
/// block's header and fully decodes the block into it, succeeding exactly
/// when the input is a well-formed block.
#[verifier::external_body]
pub(crate) fn engine_is_valid(src: &[u8]) -> (r: bool)
    ensures
        r == valid_block(src@),
{
    snap::raw::Decoder::new().decompress_vec(src).is_ok()
}

} // verus!
