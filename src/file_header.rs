//! The 14-byte file header: signature, declared file size, reserved word and
//! offset of the pixel data.
use crate::bytes::{le_u32, le_u32_bytes, lemma_le_u32_of_bytes, read_u32_at, u32_to_le};
use crate::error::HeaderError;
use vstd::prelude::*;

verus! {

/// Length in bytes of the file header.
pub const FILE_HEADER_LEN: usize = 14;

/// The first signature byte, ASCII `B`.
pub const SIGNATURE_0: u8 = 0x42;

/// The second signature byte, ASCII `M`.
pub const SIGNATURE_1: u8 = 0x4D;

/// The file header of a BMP file.
#[derive(Debug, Clone, Copy, PartialEq, Eq)]
pub struct BmpHeader {
    pub signature: [u8; 2],
    pub file_size: u32,
    pub reserved: u32,
    pub data_offset: u32,
}

/// `b` starts with the signature `B`, `M`.
pub open spec fn has_signature(b: Seq<u8>) -> bool {
    b.len() >= 2 && b[0] == SIGNATURE_0 && b[1] == SIGNATURE_1
}

impl BmpHeader {
    /// The fields of `self` are those that `b` holds at the offsets of the
    /// file header.
    pub open spec fn decodes(self, b: Seq<u8>) -> bool {
        &&& b.len() >= FILE_HEADER_LEN
        &&& self.signature@ == b.subrange(0, 2)
        &&& self.file_size as int == le_u32(b, 2)
        &&& self.reserved as int == le_u32(b, 6)
        &&& self.data_offset as int == le_u32(b, 10)
    }

    /// Decodes the file header from the first 14 bytes of `buffer`.
    ///
    /// A buffer shorter than the header is refused before anything is read;
    /// then the signature is checked before any other field is read.
    pub fn get_header(buffer: &[u8]) -> (r: Result<BmpHeader, HeaderError>)
        ensures
            buffer@.len() < FILE_HEADER_LEN ==> r == Err::<BmpHeader, HeaderError>(
                HeaderError::TruncatedInput,
            ),
            buffer@.len() >= FILE_HEADER_LEN && !has_signature(buffer@) ==> r == Err::<
                BmpHeader,
                HeaderError,
            >(HeaderError::InvalidSignature),
            buffer@.len() >= FILE_HEADER_LEN && has_signature(buffer@) ==> (match r {
                Ok(h) => h.decodes(buffer@),
                Err(_) => false,
            }),
    {
        if buffer.len() < FILE_HEADER_LEN {
            return Err(HeaderError::TruncatedInput);
        }
        let s0 = buffer[0];
        let s1 = buffer[1];
        if s0 != SIGNATURE_0 || s1 != SIGNATURE_1 {
            return Err(HeaderError::InvalidSignature);
        }
        let file_size = read_u32_at(buffer, 2);
        let reserved = read_u32_at(buffer, 6);
        let data_offset = read_u32_at(buffer, 10);
        let h = BmpHeader { signature: [s0, s1], file_size, reserved, data_offset };
        assert(h.signature@ =~= buffer@.subrange(0, 2));
        Ok(h)
    }

    /// The 14 bytes that hold `self`, laid out as in a file.
    pub open spec fn encoding(self) -> Seq<u8> {
        self.signature@ + le_u32_bytes(self.file_size) + le_u32_bytes(self.reserved)
            + le_u32_bytes(self.data_offset)
    }

    /// Writes `self` back as the 14 bytes of a file header.
    pub fn to_bytes(&self) -> (r: Vec<u8>)
        ensures
            r@ == self.encoding(),
    {
        let f = u32_to_le(self.file_size);
        let res = u32_to_le(self.reserved);
        let d = u32_to_le(self.data_offset);
        let r = vec![
            self.signature[0],
            self.signature[1],
            f[0],
            f[1],
            f[2],
            f[3],
            res[0],
            res[1],
            res[2],
            res[3],
            d[0],
            d[1],
            d[2],
            d[3],
        ];
        assert(r@ =~= self.encoding());
        r
    }
}

/// Two headers that decode from the same bytes are the same header: decoding
/// is a function of its input, so parsing the same input twice gives equal
/// records.
pub proof fn lemma_decode_unique(h1: BmpHeader, h2: BmpHeader, b: Seq<u8>)
    requires
        h1.decodes(b),
        h2.decodes(b),
    ensures
        h1 == h2,
{
    assert(h1.signature =~= h2.signature) by {
        assert(h1.signature@ == h2.signature@);
        assert forall|i: int| 0 <= i < 2 implies h1.signature[i] == h2.signature[i] by {
            assert(h1.signature@[i] == h2.signature@[i]);
        }
    }
}

/// Encoding a header whose signature is `B`, `M` gives 14 bytes that carry
/// the signature and decode to that same header; so re-parsing the encoding
/// yields an equal record.
pub proof fn lemma_round_trip(h: BmpHeader, h2: BmpHeader)
    requires
        h.signature@ == seq![SIGNATURE_0, SIGNATURE_1],
        h2.decodes(h.encoding()),
    ensures
        h.encoding().len() == FILE_HEADER_LEN,
        has_signature(h.encoding()),
        h.decodes(h.encoding()),
        h2 == h,
{
    let b = h.encoding();
    lemma_le_u32_of_bytes(h.file_size);
    lemma_le_u32_of_bytes(h.reserved);
    lemma_le_u32_of_bytes(h.data_offset);
    assert(b.subrange(0, 2) =~= h.signature@);
    assert(le_u32(b, 2) == le_u32(le_u32_bytes(h.file_size), 0));
    assert(le_u32(b, 6) == le_u32(le_u32_bytes(h.reserved), 0));
    assert(le_u32(b, 10) == le_u32(le_u32_bytes(h.data_offset), 0));
    lemma_decode_unique(h, h2, b);
}

} // verus!
