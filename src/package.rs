use vstd::prelude::*;
use std::io::Read;
use crate::errors::{DomainError, ErrorKind};
use crate::text::joined;

verus! {

#[verifier::external_type_specification]
#[verifier::external_body]
pub struct ExIoError(std::io::Error);

/// What `flate2`'s gzip decoder reads from the gzip stream `data`, or none
/// where the stream is broken.
pub uninterp spec fn gunzipped(data: Seq<u8>) -> Option<Seq<u8>>;

/// Relies on `flate2::read::GzDecoder`, read to its end: the decompressed
/// contents of the gzip stream `data`.
#[verifier::external_body]
fn gunzip(data: &[u8]) -> (r: Result<Vec<u8>, std::io::Error>)
    ensures
        match r {
            Ok(out) => gunzipped(data@) == Some(out@),
            Err(_) => gunzipped(data@) is None,
        },
{
    let mut out = Vec::new();
    flate2::read::GzDecoder::new(data).read_to_end(&mut out)?;
    Ok(out)
}

/// Relies on the `Display` of `std::io::Error`: the text that describes it.
#[verifier::external_body]
fn io_error_text(e: &std::io::Error) -> (r: String) {
    e.to_string()
}

/// Whether `data` starts with the two bytes that open a gzip stream.
pub open spec fn is_gzip(data: Seq<u8>) -> bool {
    data.len() >= 2 && data[0] == 0x1f && data[1] == 0x8b
}

/// The package that a download holds: a gzip-compressed download is
/// decompressed, anything else is the package as it stands.
pub fn decode_package(data: Vec<u8>) -> (r: Result<Vec<u8>, DomainError>)
    ensures
        !is_gzip(data@) ==> r is Ok && r->Ok_0@ == data@,
        is_gzip(data@) ==> match gunzipped(data@) {
            Some(out) => r is Ok && r->Ok_0@ == out,
            None => r is Err && r->Err_0@.kind == ErrorKind::Network,
        },
{
    if data.len() >= 2 && data[0] == 0x1f && data[1] == 0x8b {
        match gunzip(data.as_slice()) {
            Ok(out) => Ok(out),
            Err(e) => {
                let text = io_error_text(&e);
                Err(DomainError::NetworkError(joined("Failed to decompress: ", text.as_str())))
            },
        }
    } else {
        Ok(data)
    }
}

} // verus!
