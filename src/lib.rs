//! Decoding of the two fixed-layout headers at the start of a BMP file:
//! the 14-byte file header and the 40-byte bitmap-info header.
pub mod bytes;
pub mod error;
pub mod file_header;
pub mod headers;
pub mod info_header;

pub use error::HeaderError;
pub use file_header::BmpHeader;
pub use headers::parse_headers;
pub use info_header::{BitsPerPixel, BmpInfoHeader, CompressionType};
