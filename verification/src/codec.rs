//! Binary encoding of stored payloads: gzip compression behind trusted wrappers,
//! with a one-byte format tag framed and checked by verified code.

use vstd::prelude::*;
use crate::error::CacheError;

verus! {

/// The format tag prefixed to every stored payload, so that the codec can be
/// changed later without orphaning old entries.
pub const FORMAT_TAG: u8 = 1;

/// The gzip encoding of a byte sequence, as flate2's encoder produces it.
pub uninterp spec fn gzip_of(data: Seq<u8>) -> Seq<u8>;

/// The gzip decoding of a byte sequence, as flate2's decoder produces it.
pub uninterp spec fn gunzip_of(data: Seq<u8>) -> Seq<u8>;

/// Whether a byte sequence is a stream flate2's decoder accepts: exactly the
/// inputs it decodes without error. The encoder produces only such streams.
pub uninterp spec fn gzip_valid(data: Seq<u8>) -> bool;

/// A payload exactly as the vault stores it: the format tag, then the gzip
/// encoding of the serialized bytes.
pub open spec fn encoded(data: Seq<u8>) -> Seq<u8> {
    seq![FORMAT_TAG] + gzip_of(data)
}

/// What a stored payload decodes to: `None` when the format tag is missing or
/// the rest is not a well-formed gzip stream.
pub open spec fn decode_spec(payload: Seq<u8>) -> Option<Seq<u8>> {
    if payload.len() > 0 && payload[0] == FORMAT_TAG && gzip_valid(payload.skip(1)) {
        Some(gunzip_of(payload.skip(1)))
    } else {
        None
    }
}

/// Relies on flate2's `GzEncoder` writing into an in-memory buffer: the result
/// is the gzip encoding of the input, which the matching decoder accepts and
/// restores exactly. The encoder depends on the input bytes alone (fixed
/// level, zero mtime), and compression into an in-memory buffer cannot fail:
/// the buffer sink never errors.
#[verifier::external_body]
fn gzip_compress(data: &Vec<u8>) -> (r: Result<Vec<u8>, std::io::Error>)
    ensures
        r is Ok,
        r matches Ok(c) ==> c@ == gzip_of(data@) && gunzip_of(c@) == data@ && gzip_valid(c@),
{
    let mut enc = flate2::write::GzEncoder::new(Vec::new(), flate2::Compression::default());
    if let Err(e) = std::io::Write::write_all(&mut enc, data.as_slice()) {
        return Err(e);
    }
    enc.finish()
}

/// Relies on flate2's `GzDecoder` writing into an in-memory buffer: it decodes
/// exactly the well-formed gzip streams and rejects everything else with the
/// stream's error, and on the encoder's own output it restores the original
/// bytes.
#[verifier::external_body]
fn gzip_decompress(data: &Vec<u8>) -> (r: Result<Vec<u8>, std::io::Error>)
    ensures
        r is Ok <==> gzip_valid(data@),
        r matches Ok(d) ==> d@ == gunzip_of(data@),
        (exists|orig: Seq<u8>| data@ == gzip_of(orig)) ==> r is Ok,
{
    let mut dec = flate2::write::GzDecoder::new(Vec::new());
    if let Err(e) = std::io::Write::write_all(&mut dec, data.as_slice()) {
        return Err(e);
    }
    dec.finish()
}

/// Encodes serialized bytes for storage: compresses them and prefixes the
/// format tag. It never fails, and the result is exactly `encoded(serialized)`
/// and decodes back to the input.
pub fn encode_payload(serialized: &Vec<u8>) -> (r: Result<Vec<u8>, CacheError>)
    ensures
        r is Ok,
        r matches Ok(p) ==> p@ == encoded(serialized@) && decode_spec(p@) == Some(serialized@),
{
    match gzip_compress(serialized) {
        Ok(mut compressed) => {
            let ghost c = compressed@;
            let mut out: Vec<u8> = Vec::new();
            out.push(FORMAT_TAG);
            out.append(&mut compressed);
            proof {
                assert(out@ =~= encoded(serialized@));
                assert(out@.skip(1) =~= c);
            }
            Ok(out)
        },
        Err(e) => Err(CacheError::Codec(e)),
    }
}

/// Decodes a stored payload: checks the format tag and decompresses the rest.
/// It succeeds exactly on what `decode_spec` accepts (in particular on
/// anything `encode_payload` produced); a missing tag is a `Payload` error and
/// a malformed stream a `Codec` error.
pub fn decode_payload(mut payload: Vec<u8>) -> (r: Result<Vec<u8>, CacheError>)
    ensures
        r matches Ok(v) ==> decode_spec(payload@) == Some(v@),
        r is Ok <==> decode_spec(payload@) is Some,
        (exists|orig: Seq<u8>| payload@ == encoded(orig)) ==> r is Ok,
        r matches Err(e) ==> (e is Payload || e is Codec) && (e is Payload <==> !(payload@.len()
            > 0 && payload@[0] == FORMAT_TAG)),
{
    let ghost original = payload@;
    if payload.len() == 0 {
        return Err(CacheError::Payload);
    }
    let body = payload.split_off(1);
    proof {
        assert(body@ =~= original.skip(1));
    }
    if payload[0] != FORMAT_TAG {
        return Err(CacheError::Payload);
    }
    proof {
        if exists|orig: Seq<u8>| original == encoded(orig) {
            let orig = choose|orig: Seq<u8>| original == encoded(orig);
            assert(encoded(orig).skip(1) =~= gzip_of(orig));
        }
    }
    match gzip_decompress(&body) {
        Ok(v) => Ok(v),
        Err(e) => Err(CacheError::Codec(e)),
    }
}

} // verus!
