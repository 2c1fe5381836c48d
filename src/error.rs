use vstd::prelude::*;

verus! {

/// Why a header could not be decoded.
#[derive(Debug, Clone, Copy, PartialEq, Eq, Structural)]
pub enum HeaderError {
    /// The first two bytes are not `B`, `M`.
    InvalidSignature,
    /// The slice is shorter than the header it should hold.
    TruncatedInput,
    /// The bits-per-pixel field holds a value outside the known set.
    UnsupportedBitDepth(u16),
    /// The compression field holds a value outside the known set.
    UnsupportedCompression(u32),
}

impl HeaderError {
    /// A one-line description of the error.
    pub fn message(&self) -> (r: String) {
        match self {
            HeaderError::InvalidSignature => "found invalid signature in header".to_string(),
            HeaderError::TruncatedInput => "input is shorter than the header".to_string(),
            HeaderError::UnsupportedBitDepth(_) => "unsupported bits-per-pixel value".to_string(),
            HeaderError::UnsupportedCompression(_) => "unsupported compression type".to_string(),
        }
    }
}

} // verus!
