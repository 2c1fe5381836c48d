//! The 40-byte bitmap-info header: geometry and pixel format.
use crate::bytes::{le_u16, le_u32, read_u16_at, read_u32_at};
use crate::error::HeaderError;
use vstd::prelude::*;

verus! {

/// Length in bytes of the bitmap-info header.
pub const INFO_HEADER_LEN: usize = 40;

/// Number of bits that encode one pixel.
#[derive(Debug, Clone, Copy, PartialEq, Eq, Structural)]
pub enum BitsPerPixel {
    Monochrome,
    FourBitPalette,
    EightBitPalette,
    SixteenBitPalette,
    /// 24 bits; 32-bit images land here too, their alpha byte is not told apart.
    TwentyFourBitPalette,
}

/// The result of mapping a raw bits-per-pixel value.
pub open spec fn bits_per_pixel_of(num: u16) -> Result<BitsPerPixel, HeaderError> {
    if num == 1 {
        Ok(BitsPerPixel::Monochrome)
    } else if num == 4 {
        Ok(BitsPerPixel::FourBitPalette)
    } else if num == 8 {
        Ok(BitsPerPixel::EightBitPalette)
    } else if num == 16 {
        Ok(BitsPerPixel::SixteenBitPalette)
    } else if num == 24 || num == 32 {
        Ok(BitsPerPixel::TwentyFourBitPalette)
    } else {
        Err(HeaderError::UnsupportedBitDepth(num))
    }
}

impl BitsPerPixel {
    /// Maps a raw bits-per-pixel value onto its variant; 24 and 32 both give
    /// the 24-bit variant, any value outside 1, 4, 8, 16, 24, 32 is refused.
    pub fn new(num: u16) -> (r: Result<BitsPerPixel, HeaderError>)
        ensures
            r == bits_per_pixel_of(num),
    {
        match num {
            1 => Ok(BitsPerPixel::Monochrome),
            4 => Ok(BitsPerPixel::FourBitPalette),
            8 => Ok(BitsPerPixel::EightBitPalette),
            16 => Ok(BitsPerPixel::SixteenBitPalette),
            24 | 32 => Ok(BitsPerPixel::TwentyFourBitPalette),
            _ => Err(HeaderError::UnsupportedBitDepth(num)),
        }
    }
}

/// How the pixel array is encoded.
#[derive(Debug, Clone, Copy, PartialEq, Eq, Structural)]
pub enum CompressionType {
    /// No compression.
    Rgb,
    /// Run-length encoding of 8-bit pixels.
    Rle8,
    /// Run-length encoding of 4-bit pixels.
    Rle4,
    /// Pixels described by bit masks.
    Bitfields,
}

/// The result of mapping a raw compression value.
pub open spec fn compression_of(num: u32) -> Result<CompressionType, HeaderError> {
    if num == 0 {
        Ok(CompressionType::Rgb)
    } else if num == 1 {
        Ok(CompressionType::Rle8)
    } else if num == 2 {
        Ok(CompressionType::Rle4)
    } else if num == 3 {
        Ok(CompressionType::Bitfields)
    } else {
        Err(HeaderError::UnsupportedCompression(num))
    }
}

impl CompressionType {
    /// Maps a raw compression value onto its variant: 0 none, 1 RLE8, 2 RLE4,
    /// 3 bit fields; any other value is refused.
    pub fn new(num: u32) -> (r: Result<CompressionType, HeaderError>)
        ensures
            r == compression_of(num),
    {
        match num {
            0 => Ok(CompressionType::Rgb),
            1 => Ok(CompressionType::Rle8),
            2 => Ok(CompressionType::Rle4),
            3 => Ok(CompressionType::Bitfields),
            _ => Err(HeaderError::UnsupportedCompression(num)),
        }
    }
}

/// The bitmap-info header of a BMP file.
#[derive(Debug, Clone, Copy, PartialEq, Eq, Structural)]
pub struct BmpInfoHeader {
    pub size: u32,
    pub width: u32,
    pub height: u32,
    pub planes: u16,
    pub bits_per_pixel: BitsPerPixel,
    pub compression: CompressionType,
    pub image_size: u32,
    pub horizontal_res: u32,
    pub vertical_res: u32,
    pub colors_used: u32,
    pub important_colors: u32,
}

/// The raw bits-per-pixel value that `b` holds, `b` being the info header.
pub open spec fn raw_bits_per_pixel(b: Seq<u8>) -> u16 {
    le_u16(b, 14) as u16
}

/// The raw compression value that `b` holds, `b` being the info header.
pub open spec fn raw_compression(b: Seq<u8>) -> u32 {
    le_u32(b, 16) as u32
}

/// What decoding the info header from `b` gives.
pub open spec fn info_header_of(b: Seq<u8>) -> Result<BmpInfoHeader, HeaderError> {
    if b.len() < INFO_HEADER_LEN {
        Err(HeaderError::TruncatedInput)
    } else {
        match bits_per_pixel_of(raw_bits_per_pixel(b)) {
            Err(e) => Err(e),
            Ok(bpp) => match compression_of(raw_compression(b)) {
                Err(e) => Err(e),
                Ok(c) => Ok(
                    BmpInfoHeader {
                        size: le_u32(b, 0) as u32,
                        width: le_u32(b, 4) as u32,
                        height: le_u32(b, 8) as u32,
                        planes: le_u16(b, 12) as u16,
                        bits_per_pixel: bpp,
                        compression: c,
                        image_size: le_u32(b, 20) as u32,
                        horizontal_res: le_u32(b, 24) as u32,
                        vertical_res: le_u32(b, 28) as u32,
                        colors_used: le_u32(b, 32) as u32,
                        important_colors: le_u32(b, 36) as u32,
                    },
                ),
            },
        }
    }
}

impl BmpInfoHeader {
    /// Decodes the info header from the first 40 bytes of `buffer`.
    ///
    /// A buffer shorter than the header is refused; then an unknown
    /// bits-per-pixel value, then an unknown compression value.
    pub fn create_bmp_info_header(buffer: &[u8]) -> (r: Result<BmpInfoHeader, HeaderError>)
        ensures
            r == info_header_of(buffer@),
    {
        if buffer.len() < INFO_HEADER_LEN {
            return Err(HeaderError::TruncatedInput);
        }
        let size = read_u32_at(buffer, 0);
        let width = read_u32_at(buffer, 4);
        let height = read_u32_at(buffer, 8);
        let planes = read_u16_at(buffer, 12);
        let bits_per_pixel = match BitsPerPixel::new(read_u16_at(buffer, 14)) {
            Ok(v) => v,
            Err(e) => return Err(e),
        };
        let compression = match CompressionType::new(read_u32_at(buffer, 16)) {
            Ok(v) => v,
            Err(e) => return Err(e),
        };
        let image_size = read_u32_at(buffer, 20);
        let horizontal_res = read_u32_at(buffer, 24);
        let vertical_res = read_u32_at(buffer, 28);
        let colors_used = read_u32_at(buffer, 32);
        let important_colors = read_u32_at(buffer, 36);
        Ok(
            BmpInfoHeader {
                size,
                width,
                height,
                planes,
                bits_per_pixel,
                compression,
                image_size,
                horizontal_res,
                vertical_res,
                colors_used,
                important_colors,
            },
        )
    }
}

} // verus!

verus! {

/// On an info header of full length whose compression value is known, a
/// bits-per-pixel value of 1, 4, 8, 16, 24 or 32 decodes to its variant of the
/// table (24 and 32 both to the 24-bit one), and on any full-length info header
/// every other bits-per-pixel value is refused as an unsupported bit depth.
pub proof fn lemma_bits_per_pixel_decoding(b: Seq<u8>)
    requires
        b.len() >= INFO_HEADER_LEN,
    ensures
        ({
            let raw = raw_bits_per_pixel(b);
            let known = raw == 1 || raw == 4 || raw == 8 || raw == 16 || raw == 24 || raw == 32;
            &&& known && compression_of(raw_compression(b)) is Ok ==> match info_header_of(b) {
                Ok(h) => {
                    &&& raw == 1 ==> h.bits_per_pixel == BitsPerPixel::Monochrome
                    &&& raw == 4 ==> h.bits_per_pixel == BitsPerPixel::FourBitPalette
                    &&& raw == 8 ==> h.bits_per_pixel == BitsPerPixel::EightBitPalette
                    &&& raw == 16 ==> h.bits_per_pixel == BitsPerPixel::SixteenBitPalette
                    &&& (raw == 24 || raw == 32) ==> h.bits_per_pixel
                        == BitsPerPixel::TwentyFourBitPalette
                },
                Err(_) => false,
            }
            &&& !known ==> info_header_of(b) == Err::<BmpInfoHeader, HeaderError>(
                HeaderError::UnsupportedBitDepth(raw),
            )
        }),
{
}

/// On an info header of full length whose bits-per-pixel value is known, a
/// compression value of 0, 1, 2 or 3 decodes to none, RLE8, RLE4 or bit fields,
/// and any other compression value is refused as unsupported.
pub proof fn lemma_compression_decoding(b: Seq<u8>)
    requires
        b.len() >= INFO_HEADER_LEN,
        bits_per_pixel_of(raw_bits_per_pixel(b)) is Ok,
    ensures
        ({
            let raw = raw_compression(b);
            &&& raw <= 3 ==> match info_header_of(b) {
                Ok(h) => {
                    &&& raw == 0 ==> h.compression == CompressionType::Rgb
                    &&& raw == 1 ==> h.compression == CompressionType::Rle8
                    &&& raw == 2 ==> h.compression == CompressionType::Rle4
                    &&& raw == 3 ==> h.compression == CompressionType::Bitfields
                },
                Err(_) => false,
            }
            &&& raw > 3 ==> info_header_of(b) == Err::<BmpInfoHeader, HeaderError>(
                HeaderError::UnsupportedCompression(raw),
            )
        }),
{
}

} // verus!
