use vstd::prelude::*;

use base64::Engine as _;
use std::io::Read as _;
use std::io::Write as _;

verus! {

/// The gzip stream that flate2 writes for `data` at the best compression
/// level, with its default header.
pub uninterp spec fn gzip_of(data: Seq<u8>) -> Seq<u8>;

/// The standard base64 encoding of `data`, with padding.
pub uninterp spec fn base64_of(data: Seq<u8>) -> Seq<char>;

/// Relies on `flate2::write::GzEncoder` at `Compression::best()`, writing
/// into a `Vec`, then `finish`: the finished stream is the gzip encoding of
/// the input. Writing into a `Vec` cannot fail, and the deflate backend fails
/// only on a bad parameter or on a stream already finished, so both calls
/// succeed.
#[verifier::external_body]
pub(crate) fn gzip_best(data: &[u8]) -> (r: Option<Vec<u8>>)
    ensures
        r is Some && r->Some_0@ == gzip_of(data@),
{
    let mut encoder = flate2::write::GzEncoder::new(Vec::new(), flate2::Compression::best());
    encoder.write_all(data).ok()?;
    encoder.finish().ok()
}

/// Relies on `flate2::read::GzDecoder` and `Read::read_to_end`: reading a
/// gzip stream that `GzEncoder` wrote gives back the bytes compressed into
/// it. Any other input may give `None`.
#[verifier::external_body]
pub(crate) fn gunzip(data: &[u8]) -> (r: Option<Vec<u8>>)
    ensures
        forall|p: Seq<u8>| data@ == #[trigger] gzip_of(p) ==> (r is Some && r->Some_0@ == p),
{
    let mut decoder = flate2::read::GzDecoder::new(data);
    let mut out = Vec::new();
    decoder.read_to_end(&mut out).ok()?;
    Some(out)
}

/// Relies on `Engine::encode` of base64's `general_purpose::STANDARD` engine.
#[verifier::external_body]
pub(crate) fn base64_encode(data: &[u8]) -> (r: String)
    ensures
        r@ == base64_of(data@),
{
    base64::engine::general_purpose::STANDARD.encode(data)
}

/// Relies on `Engine::decode` of base64's `general_purpose::STANDARD` engine:
/// what that engine encoded decodes back to the same bytes. Other input may
/// give `None`.
#[verifier::external_body]
pub(crate) fn base64_decode(s: &str) -> (r: Option<Vec<u8>>)
    ensures
        forall|b: Seq<u8>| s@ == #[trigger] base64_of(b) ==> (r is Some && r->Some_0@ == b),
{
    base64::engine::general_purpose::STANDARD.decode(s).ok()
}

} // verus!
