//! The payload that a peer receives over TLS.

use crate::error::PullError;
use std::io::Write;
use vstd::prelude::*;

verus! {

/// The two bytes that every payload starts with.
pub open spec fn header_version() -> Seq<u8> {
    seq![0u8, 0u8]
}

/// The byte that tells the peer that the body is a zlib stream.
pub open spec fn compression_tag() -> Seq<u8> {
    seq![1u8]
}

/// A payload is the header version, the compression tag and the compressed
/// body, in this order.
pub open spec fn framed(body: Seq<u8>) -> Seq<u8> {
    header_version() + compression_tag() + body
}

/// The zlib stream that `flate2` writes for `raw` at its default level, or
/// `None` where its encoder fails on `raw`.
pub uninterp spec fn zlib_stream(raw: Seq<u8>) -> Option<Seq<u8>>;

/// Compresses with `flate2::write::ZlibEncoder` at the default level, into
/// memory. Trusted: what the encoder makes of an input, the stream it wrote
/// or its failure, is the named result for that input.
#[verifier::external_body]
fn compress(raw: &[u8]) -> (res: Result<Vec<u8>, std::io::Error>)
    ensures
        match res {
            Ok(body) => zlib_stream(raw@) == Some(body@),
            Err(_) => zlib_stream(raw@) is None,
        },
{
    let mut encoder = flate2::write::ZlibEncoder::new(Vec::new(), flate2::Compression::default());
    encoder.write_all(raw)?;
    encoder.finish()
}

/// Whether `res` is the bytes or the failure that was `expected`.
pub open spec fn gives(
    res: Result<Vec<u8>, PullError>,
    expected: Result<Seq<u8>, PullError>,
) -> bool {
    match expected {
        Ok(bytes) => res matches Ok(found) && found@ == bytes,
        Err(e) => res matches Err(f) && f == e,
    }
}

/// The payload around a body that was compressed, and `Compress` where the
/// compressor failed.
pub open spec fn spec_frame_compressed(compressed: Option<Seq<u8>>) -> Result<Seq<u8>, PullError> {
    match compressed {
        Some(body) => Ok(framed(body)),
        None => Err(PullError::Compress),
    }
}

/// The encoded form of the agent's output: the payload around its zlib
/// stream.
pub open spec fn spec_encode_data_for_transport(raw: Seq<u8>) -> Result<Seq<u8>, PullError> {
    spec_frame_compressed(zlib_stream(raw))
}

/// What a TLS peer is sent for the data that was collected for it: the
/// encoded data, or `Collect` where none could be collected.
pub open spec fn spec_collect_and_encode_mondata(
    collected: Result<Vec<u8>, std::io::Error>,
) -> Result<Seq<u8>, PullError> {
    match collected {
        Ok(raw) => spec_encode_data_for_transport(raw@),
        Err(_) => Err(PullError::Collect),
    }
}

/// Frames what the compressor returned.
pub fn frame_compressed(compressed: Result<Vec<u8>, std::io::Error>) -> (res: Result<
    Vec<u8>,
    PullError,
>)
    ensures
        gives(
            res,
            spec_frame_compressed(
                match compressed {
                    Ok(body) => Some(body@),
                    Err(_) => None,
                },
            ),
        ),
{
    match compressed {
        Ok(body) => {
            let mut payload: Vec<u8> = Vec::new();
            payload.push(0);
            payload.push(0);
            payload.push(1);
            payload.extend_from_slice(body.as_slice());
            assert(payload@ =~= framed(body@));
            Ok(payload)
        },
        Err(_) => Err(PullError::Compress),
    }
}

/// Compresses the agent's output and frames it for a TLS peer.
pub fn encode_data_for_transport(raw_agent_output: &[u8]) -> (res: Result<Vec<u8>, PullError>)
    ensures
        gives(res, spec_encode_data_for_transport(raw_agent_output@)),
{
    frame_compressed(compress(raw_agent_output))
}

/// Encodes what was collected for a TLS peer, if anything was.
pub fn collect_and_encode_mondata(collected: Result<Vec<u8>, std::io::Error>) -> (res: Result<
    Vec<u8>,
    PullError,
>)
    ensures
        gives(res, spec_collect_and_encode_mondata(collected)),
{
    match collected {
        Ok(mon_data) => encode_data_for_transport(mon_data.as_slice()),
        Err(_) => Err(PullError::Collect),
    }
}

/// A payload takes apart into what it was put together from: its first two
/// bytes are the header version, the third is the compression tag, and the
/// rest is the body, byte for byte.
pub proof fn lemma_frame_takes_apart(body: Seq<u8>)
    ensures
        framed(body).len() == body.len() + 3,
        framed(body).subrange(0, 2) == header_version(),
        framed(body).subrange(2, 3) == compression_tag(),
        framed(body).skip(3) == body,
{
    assert(framed(body).subrange(0, 2) =~= header_version());
    assert(framed(body).subrange(2, 3) =~= compression_tag());
    assert(framed(body).skip(3) =~= body);
}

/// Two payloads are the same only if their bodies are.
pub proof fn lemma_frame_is_injective(a: Seq<u8>, b: Seq<u8>)
    requires
        framed(a) == framed(b),
    ensures
        a == b,
{
    lemma_frame_takes_apart(a);
    lemma_frame_takes_apart(b);
}

/// Whatever the agent's output, what a TLS peer receives for it starts with
/// the header version and the compression tag, and goes on with the zlib
/// stream of that output and nothing else.
pub proof fn lemma_encoded_data_takes_apart(raw: Seq<u8>)
    ensures
        match (spec_encode_data_for_transport(raw), zlib_stream(raw)) {
            (Ok(payload), Some(body)) => {
                &&& payload.len() == body.len() + 3
                &&& payload.subrange(0, 2) == header_version()
                &&& payload.subrange(2, 3) == compression_tag()
                &&& payload.skip(3) == body
            },
            (Err(e), None) => e == PullError::Compress,
            _ => false,
        },
{
    match zlib_stream(raw) {
        Some(body) => {
            lemma_frame_takes_apart(body);
        },
        None => {},
    }
}

} // verus!
