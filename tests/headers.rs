use bmp_header::{
    parse_headers, BitsPerPixel, BmpHeader, BmpInfoHeader, CompressionType, HeaderError,
};

fn file_header_bytes() -> Vec<u8> {
    vec![0x42, 0x4D, 0x36, 0x00, 0x00, 0x00, 0x00, 0x00, 0x00, 0x00, 0x36, 0x00, 0x00, 0x00]
}

/// A 40-byte info header of a 2x3 image with the given raw bit depth and compression.
fn info_header_bytes(bpp: u16, compression: u32) -> Vec<u8> {
    let mut b = Vec::new();
    b.extend_from_slice(&40u32.to_le_bytes());
    b.extend_from_slice(&2u32.to_le_bytes());
    b.extend_from_slice(&3u32.to_le_bytes());
    b.extend_from_slice(&1u16.to_le_bytes());
    b.extend_from_slice(&bpp.to_le_bytes());
    b.extend_from_slice(&compression.to_le_bytes());
    b.extend_from_slice(&24u32.to_le_bytes());
    b.extend_from_slice(&2835u32.to_le_bytes());
    b.extend_from_slice(&2834u32.to_le_bytes());
    b.extend_from_slice(&0u32.to_le_bytes());
    b.extend_from_slice(&0x0102_0304u32.to_le_bytes());
    assert_eq!(b.len(), 40);
    b
}

#[test]
fn minimal_file_header_decodes() {
    let h = BmpHeader::get_header(&file_header_bytes()).unwrap();
    assert_eq!(
        h,
        BmpHeader { signature: [b'B', b'M'], file_size: 54, reserved: 0, data_offset: 54 }
    );
}

#[test]
fn file_header_fields_are_little_endian() {
    let b = vec![0x42, 0x4D, 0x01, 0x02, 0x03, 0x04, 0xFF, 0x00, 0x00, 0x80, 0x78, 0x56, 0x34, 0x12];
    let h = BmpHeader::get_header(&b).unwrap();
    assert_eq!(h.file_size, 0x0403_0201);
    assert_eq!(h.reserved, 0x8000_00FF);
    assert_eq!(h.data_offset, 0x1234_5678);
}

#[test]
fn file_header_reads_only_first_fourteen_bytes() {
    let mut b = file_header_bytes();
    b.extend_from_slice(&[0xAA; 10]);
    let h = BmpHeader::get_header(&b).unwrap();
    assert_eq!(h.file_size, 54);
    assert_eq!(h.data_offset, 54);
}

#[test]
fn zero_signature_is_invalid() {
    let mut b = file_header_bytes();
    b[0] = 0x00;
    b[1] = 0x00;
    assert_eq!(BmpHeader::get_header(&b), Err(HeaderError::InvalidSignature));
}

#[test]
fn swapped_signature_is_invalid() {
    let mut b = file_header_bytes();
    b[0] = b'M';
    b[1] = b'B';
    assert_eq!(BmpHeader::get_header(&b), Err(HeaderError::InvalidSignature));
}

#[test]
fn short_input_is_truncated() {
    for n in 0..14 {
        let b = &file_header_bytes()[..n];
        assert_eq!(BmpHeader::get_header(b), Err(HeaderError::TruncatedInput));
    }
    assert_eq!(BmpHeader::get_header(&[0x00, 0x00]), Err(HeaderError::TruncatedInput));
}

#[test]
fn file_header_round_trip() {
    let h = BmpHeader {
        signature: [b'B', b'M'],
        file_size: 0xDEAD_BEEF,
        reserved: 7,
        data_offset: 1078,
    };
    let b = h.to_bytes();
    assert_eq!(b.len(), 14);
    assert_eq!(&b[..6], &[0x42, 0x4D, 0xEF, 0xBE, 0xAD, 0xDE]);
    assert_eq!(BmpHeader::get_header(&b), Ok(h));
}

#[test]
fn parsing_same_input_twice_is_equal() {
    let b = file_header_bytes();
    assert_eq!(BmpHeader::get_header(&b), BmpHeader::get_header(&b));
    assert_eq!(BmpHeader::get_header(&b).unwrap().to_bytes(), b);
}

#[test]
fn bits_per_pixel_table() {
    assert_eq!(BitsPerPixel::new(1), Ok(BitsPerPixel::Monochrome));
    assert_eq!(BitsPerPixel::new(4), Ok(BitsPerPixel::FourBitPalette));
    assert_eq!(BitsPerPixel::new(8), Ok(BitsPerPixel::EightBitPalette));
    assert_eq!(BitsPerPixel::new(16), Ok(BitsPerPixel::SixteenBitPalette));
    assert_eq!(BitsPerPixel::new(24), Ok(BitsPerPixel::TwentyFourBitPalette));
    assert_eq!(BitsPerPixel::new(32), Ok(BitsPerPixel::TwentyFourBitPalette));
    for n in [0u16, 2, 3, 5, 12, 15, 31, 33, 64, u16::MAX] {
        assert_eq!(BitsPerPixel::new(n), Err(HeaderError::UnsupportedBitDepth(n)));
    }
}

#[test]
fn compression_table() {
    assert_eq!(CompressionType::new(0), Ok(CompressionType::Rgb));
    assert_eq!(CompressionType::new(1), Ok(CompressionType::Rle8));
    assert_eq!(CompressionType::new(2), Ok(CompressionType::Rle4));
    assert_eq!(CompressionType::new(3), Ok(CompressionType::Bitfields));
    for n in [4u32, 5, 6, 100, u32::MAX] {
        assert_eq!(CompressionType::new(n), Err(HeaderError::UnsupportedCompression(n)));
    }
}

#[test]
fn info_header_24_bit_uncompressed() {
    let h = BmpInfoHeader::create_bmp_info_header(&info_header_bytes(24, 0)).unwrap();
    assert_eq!(h.bits_per_pixel, BitsPerPixel::TwentyFourBitPalette);
    assert_eq!(h.compression, CompressionType::Rgb);
    assert_eq!(h.size, 40);
    assert_eq!(h.width, 2);
    assert_eq!(h.height, 3);
    assert_eq!(h.planes, 1);
    assert_eq!(h.image_size, 24);
    assert_eq!(h.horizontal_res, 2835);
    assert_eq!(h.vertical_res, 2834);
    assert_eq!(h.colors_used, 0);
    assert_eq!(h.important_colors, 0x0102_0304);
}

#[test]
fn info_header_maps_every_bit_depth() {
    let cases = [
        (1u16, BitsPerPixel::Monochrome),
        (4, BitsPerPixel::FourBitPalette),
        (8, BitsPerPixel::EightBitPalette),
        (16, BitsPerPixel::SixteenBitPalette),
        (24, BitsPerPixel::TwentyFourBitPalette),
        (32, BitsPerPixel::TwentyFourBitPalette),
    ];
    for (raw, want) in cases {
        let h = BmpInfoHeader::create_bmp_info_header(&info_header_bytes(raw, 0)).unwrap();
        assert_eq!(h.bits_per_pixel, want);
    }
}

#[test]
fn info_header_refuses_unknown_bit_depth() {
    assert_eq!(
        BmpInfoHeader::create_bmp_info_header(&info_header_bytes(12, 0)),
        Err(HeaderError::UnsupportedBitDepth(12))
    );
    assert_eq!(
        BmpInfoHeader::create_bmp_info_header(&info_header_bytes(0, 9)),
        Err(HeaderError::UnsupportedBitDepth(0))
    );
}

#[test]
fn info_header_maps_every_compression() {
    let cases = [
        (0u32, CompressionType::Rgb),
        (1, CompressionType::Rle8),
        (2, CompressionType::Rle4),
        (3, CompressionType::Bitfields),
    ];
    for (raw, want) in cases {
        let h = BmpInfoHeader::create_bmp_info_header(&info_header_bytes(8, raw)).unwrap();
        assert_eq!(h.compression, want);
    }
}

#[test]
fn info_header_refuses_unknown_compression() {
    assert_eq!(
        BmpInfoHeader::create_bmp_info_header(&info_header_bytes(8, 4)),
        Err(HeaderError::UnsupportedCompression(4))
    );
    assert_eq!(
        BmpInfoHeader::create_bmp_info_header(&info_header_bytes(24, 0x0100_0000)),
        Err(HeaderError::UnsupportedCompression(0x0100_0000))
    );
}

#[test]
fn short_info_header_is_truncated() {
    let b = info_header_bytes(24, 0);
    assert_eq!(
        BmpInfoHeader::create_bmp_info_header(&b[..39]),
        Err(HeaderError::TruncatedInput)
    );
    assert_eq!(BmpInfoHeader::create_bmp_info_header(&[]), Err(HeaderError::TruncatedInput));
}

#[test]
fn both_headers_from_one_buffer() {
    let mut b = file_header_bytes();
    b.extend_from_slice(&info_header_bytes(24, 0));
    b.extend_from_slice(&[0u8; 24]);
    let (h, info) = parse_headers(&b).unwrap();
    assert_eq!(h.file_size, 54);
    assert_eq!(h.data_offset, 54);
    assert_eq!(info.width, 2);
    assert_eq!(info.height, 3);
    assert_eq!(info.bits_per_pixel, BitsPerPixel::TwentyFourBitPalette);
    assert_eq!(info.compression, CompressionType::Rgb);
}

#[test]
fn both_headers_report_first_failure() {
    assert_eq!(parse_headers(&[0x42, 0x4D, 0x00]), Err(HeaderError::TruncatedInput));
    let mut bad_sig = vec![0u8; 54];
    bad_sig[0] = b'B';
    assert_eq!(parse_headers(&bad_sig), Err(HeaderError::InvalidSignature));
    let mut short_info = file_header_bytes();
    short_info.extend_from_slice(&[0u8; 20]);
    assert_eq!(parse_headers(&short_info), Err(HeaderError::TruncatedInput));
    let mut bad_bpp = file_header_bytes();
    bad_bpp.extend_from_slice(&info_header_bytes(7, 0));
    assert_eq!(parse_headers(&bad_bpp), Err(HeaderError::UnsupportedBitDepth(7)));
}

#[test]
fn error_messages() {
    assert_eq!(HeaderError::InvalidSignature.message(), "found invalid signature in header");
    assert_eq!(HeaderError::TruncatedInput.message(), "input is shorter than the header");
    assert_eq!(HeaderError::UnsupportedBitDepth(3).message(), "unsupported bits-per-pixel value");
    assert_eq!(HeaderError::UnsupportedCompression(9).message(), "unsupported compression type");
}
