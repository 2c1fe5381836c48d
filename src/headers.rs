//! Both headers of a BMP file, decoded from the start of its bytes.
use crate::error::HeaderError;
use crate::file_header::{has_signature, BmpHeader, FILE_HEADER_LEN};
use crate::info_header::{info_header_of, BmpInfoHeader};
use vstd::prelude::*;

verus! {

/// Decodes the file header from `buffer[0..14]`, then the info header from
/// the bytes after it.
///
/// The file header fails first: a buffer shorter than 14 bytes is truncated
/// and a wrong signature is refused before the info header is looked at.
pub fn parse_headers(buffer: &[u8]) -> (r: Result<(BmpHeader, BmpInfoHeader), HeaderError>)
    ensures
        buffer@.len() < FILE_HEADER_LEN ==> r == Err::<(BmpHeader, BmpInfoHeader), HeaderError>(
            HeaderError::TruncatedInput,
        ),
        buffer@.len() >= FILE_HEADER_LEN && !has_signature(buffer@) ==> r == Err::<
            (BmpHeader, BmpInfoHeader),
            HeaderError,
        >(HeaderError::InvalidSignature),
        buffer@.len() >= FILE_HEADER_LEN && has_signature(buffer@) ==> match info_header_of(
            buffer@.subrange(FILE_HEADER_LEN as int, buffer@.len() as int),
        ) {
            Err(e) => r == Err::<(BmpHeader, BmpInfoHeader), HeaderError>(e),
            Ok(info) => match r {
                Ok((h, i)) => h.decodes(buffer@) && i == info,
                Err(_) => false,
            },
        },
{
    let header = match BmpHeader::get_header(buffer) {
        Ok(h) => h,
        Err(e) => return Err(e),
    };
    let rest = vstd::slice::slice_subrange(buffer, FILE_HEADER_LEN, buffer.len());
    match BmpInfoHeader::create_bmp_info_header(rest) {
        Ok(info) => Ok((header, info)),
        Err(e) => Err(e),
    }
}

} // verus!
