//! The frame header: where each field lies, and the parser that reads them.

use vstd::prelude::*;
use vstd::slice::slice_subrange;

use crate::checksum::{checksum_byte, header_hash, stored_byte_of, xxh32};
use crate::descriptor::{bd_of, flg_of, Bd, Flg};

verus! {

/// The magic number that opens every frame, read little-endian.
pub const MAGIC: u32 = 0x184D_2204;

/// Length of the header region without a content size field.
pub const SHORT_HEADER_LEN: usize = 11;

/// Length of the header region with a content size field.
pub const LONG_HEADER_LEN: usize = 19;

/// Why a buffer does not hold a frame header.
#[derive(Clone, Copy, Debug, PartialEq, Eq, Structural)]
pub enum ParseError {
    /// The first four bytes are not the magic number.
    InvalidMagic,
    /// The buffer ends before a field that the flags ask for.
    TruncatedHeader,
    /// The stored header checksum byte differs from the computed one.
    ChecksumMismatch,
}

/// The size field of a data block: a flag in its top bit and a 31-bit size.
#[derive(Clone, Copy, Debug, PartialEq, Eq, Structural)]
pub struct BlockField {
    /// The top bit of the field.
    pub compressed: bool,
    /// The field with the top bit cleared.
    pub size: u32,
}

/// Everything the parser reads from a frame header, and the checksum it
/// computes over it.
#[derive(Clone, Copy, Debug, PartialEq, Eq)]
pub struct HeaderReport {
    /// Bytes of header region read, up to the end of the first block field.
    pub header_len: usize,
    /// The magic number, as read.
    pub magic: u32,
    /// The frame descriptor, from byte 4.
    pub flag: Flg,
    /// The block descriptor, from byte 5.
    pub bd: Bd,
    /// The content size, when the flags announce one.
    pub content_size: Option<u64>,
    /// The header checksum byte stored in the frame.
    pub header_checksum: u8,
    /// The 32-bit hash computed over the descriptor bytes.
    pub hash: u32,
    /// The byte of `hash` that the frame is meant to store.
    pub hash_byte: u8,
    /// The size field of the first data block.
    pub block: BlockField,
}

/// The little-endian 32-bit value of the bytes `s[i..i + 4]`.
pub open spec fn le_u32_at(s: Seq<u8>, i: int) -> int {
    s[i] + s[i + 1] * 0x100 + s[i + 2] * 0x1_0000 + s[i + 3] * 0x100_0000
}

/// The little-endian 64-bit value of the bytes `s[i..i + 8]`.
pub open spec fn le_u64_at(s: Seq<u8>, i: int) -> int {
    le_u32_at(s, i) + le_u32_at(s, i + 4) * 0x1_0000_0000
}

/// The flags of the header in `s` announce a content size.
pub open spec fn has_content_size(s: Seq<u8>) -> bool {
    flg_of(s[4]).c_size
}

/// The length of the header region of `s`, which the flags decide.
pub open spec fn header_len_of(s: Seq<u8>) -> int {
    if has_content_size(s) {
        LONG_HEADER_LEN as int
    } else {
        SHORT_HEADER_LEN as int
    }
}

/// Offset of the header checksum byte: just before the block field.
pub open spec fn checksum_offset(s: Seq<u8>) -> int {
    header_len_of(s) - 5
}

/// Offset of the size field of the first data block: the last four bytes.
pub open spec fn block_offset(s: Seq<u8>) -> int {
    header_len_of(s) - 4
}

/// The error that parsing `s` ends in, if any: checked in the order the
/// fields are read.
pub open spec fn parse_error_of(s: Seq<u8>) -> Option<ParseError> {
    if s.len() < 4 {
        Some(ParseError::TruncatedHeader)
    } else if le_u32_at(s, 0) != MAGIC {
        Some(ParseError::InvalidMagic)
    } else if s.len() < 5 || s.len() < header_len_of(s) {
        Some(ParseError::TruncatedHeader)
    } else {
        None
    }
}

/// The flag and size that a raw 32-bit block field holds.
pub open spec fn block_field_of(raw: int) -> BlockField {
    BlockField { compressed: raw >= 0x8000_0000, size: (raw % 0x8000_0000) as u32 }
}

/// The report on a buffer `s` that holds a whole header.
pub open spec fn report_of(s: Seq<u8>) -> HeaderReport {
    let hash = xxh32(s.subrange(4, checksum_offset(s)));
    HeaderReport {
        header_len: header_len_of(s) as usize,
        magic: MAGIC,
        flag: flg_of(s[4]),
        bd: bd_of(s[5]),
        content_size: if has_content_size(s) {
            Some(le_u64_at(s, 5) as u64)
        } else {
            None
        },
        header_checksum: s[checksum_offset(s)],
        hash,
        hash_byte: stored_byte_of(hash),
        block: block_field_of(le_u32_at(s, block_offset(s))),
    }
}

/// What parsing `s` gives.
pub open spec fn parse_spec(s: Seq<u8>) -> Result<HeaderReport, ParseError> {
    match parse_error_of(s) {
        Some(e) => Err(e),
        None => Ok(report_of(s)),
    }
}

/// The four little-endian bytes of `v`.
pub open spec fn le_bytes_u32(v: u32) -> Seq<u8> {
    seq![v as u8, (v >> 8u32) as u8, (v >> 16u32) as u8, (v >> 24u32) as u8]
}

/// The raw block field with the given top bit over a 31-bit `size`.
pub open spec fn block_raw(compressed: bool, size: u32) -> u32 {
    if compressed {
        (size + 0x8000_0000) as u32
    } else {
        size
    }
}

/// What strict parsing of `s` gives: a header whose stored checksum byte
/// differs from the computed one is refused.
pub open spec fn parse_strict_spec(s: Seq<u8>) -> Result<HeaderReport, ParseError> {
    match parse_spec(s) {
        Ok(rep) => if rep.header_checksum == rep.hash_byte {
            Ok(rep)
        } else {
            Err(ParseError::ChecksumMismatch)
        },
        Err(e) => Err(e),
    }
}

impl HeaderReport {
    /// Whether the stored header checksum byte is the one computed.
    pub fn checksum_matches(&self) -> (r: bool)
        ensures
            r == (self.header_checksum == self.hash_byte),
    {
        self.header_checksum == self.hash_byte
    }
}

/// Splitting a block field gives back the top bit and the 31-bit size it
/// was built from: the four little-endian bytes of any such field decode
/// to exactly that bit and that size.
pub proof fn lemma_block_field_round_trip(compressed: bool, size: u32)
    requires
        size < 0x8000_0000,
    ensures
        block_field_of(le_u32_at(le_bytes_u32(block_raw(compressed, size)), 0)) == (BlockField {
            compressed,
            size,
        }),
{
    let v = block_raw(compressed, size);
    let s = le_bytes_u32(v);
    assert((v as u8) as u32 + ((v >> 8u32) as u8) as u32 * 0x100 + ((v >> 16u32) as u8) as u32
        * 0x1_0000 + ((v >> 24u32) as u8) as u32 * 0x100_0000 == v) by (bit_vector);
    assert(le_u32_at(s, 0) == v);
    assert(size < 0x8000_0000 ==> ((size + 0x8000_0000) as u32) % 0x8000_0000 == size && (size
        + 0x8000_0000) as u32 >= 0x8000_0000) by (bit_vector);
    assert(size < 0x8000_0000 ==> size % 0x8000_0000 == size) by (bit_vector);
}

/// Parsing is a function of the buffer's contents alone: buffers with equal
/// contents parse to the same result, however often they are parsed.
pub proof fn lemma_parse_deterministic(a: Seq<u8>, b: Seq<u8>)
    requires
        a == b,
    ensures
        parse_spec(a) == parse_spec(b),
        parse_strict_spec(a) == parse_strict_spec(b),
{
}

/// Parsing reads the header region and nothing past it: a buffer that holds
/// a whole header parses to the same report as every buffer that agrees
/// with it on the first `header_len_of` bytes (11 without a content size,
/// 19 with one).
pub proof fn lemma_parse_reads_header_region(a: Seq<u8>, b: Seq<u8>)
    requires
        parse_error_of(a) is None,
        b.len() >= header_len_of(a),
        b.subrange(0, header_len_of(a)) == a.subrange(0, header_len_of(a)),
    ensures
        parse_spec(b) == parse_spec(a),
        report_of(a).header_len == header_len_of(a),
{
    let n = header_len_of(a);
    assert forall|i: int| 0 <= i < n implies b[i] == a[i] by {
        assert(b[i] == b.subrange(0, n)[i]);
        assert(a[i] == a.subrange(0, n)[i]);
    }
    assert(header_len_of(b) == n);
    assert(b.subrange(4, checksum_offset(a)) =~= a.subrange(4, checksum_offset(a)));
}

/// Reads the little-endian `u32` at `buf[i..i + 4]`.
fn read_u32_le(buf: &[u8], i: usize) -> (r: u32)
    requires
        i + 4 <= buf@.len(),
    ensures
        r as int == le_u32_at(buf@, i as int),
{
    buf[i] as u32 + buf[i + 1] as u32 * 0x100 + buf[i + 2] as u32 * 0x1_0000 + buf[i + 3] as u32
        * 0x100_0000
}

/// Reads the little-endian `u64` at `buf[i..i + 8]`.
fn read_u64_le(buf: &[u8], i: usize) -> (r: u64)
    requires
        i + 8 <= buf.len(),
    ensures
        r as int == le_u64_at(buf@, i as int),
{
    let lo = read_u32_le(buf, i);
    let hi = read_u32_le(buf, i + 4);
    lo as u64 + hi as u64 * 0x1_0000_0000
}

/// Splits the four bytes of a block size field into its top bit and the
/// 31-bit size below it.
pub fn decode_block_field(field: &[u8]) -> (r: BlockField)
    requires
        field@.len() == 4,
    ensures
        r == block_field_of(le_u32_at(field@, 0)),
{
    let top = field[3];
    let compressed = top >> 7 != 0;
    let high = top & 0b0111_1111;
    assert(compressed == (top >= 0x80)) by (bit_vector)
        requires
            compressed == (top >> 7u8 != 0),
    ;
    assert(high == top % 0x80) by (bit_vector)
        requires
            high == top & 0x7fu8,
    ;
    let size = field[0] as u32 + field[1] as u32 * 0x100 + field[2] as u32 * 0x1_0000 + high as u32
        * 0x100_0000;
    let ghost raw = le_u32_at(field@, 0);
    let ghost low = field@[0] + field@[1] * 0x100 + field@[2] * 0x1_0000;
    assert(raw == low + high * 0x100_0000 + (if compressed { 0x8000_0000int } else { 0 }));
    assert(raw % 0x8000_0000 == size) by {
        vstd::arithmetic::div_mod::lemma_mod_multiples_vanish(
            if compressed { 1 } else { 0 },
            size as int,
            0x8000_0000,
        );
        vstd::arithmetic::div_mod::lemma_small_mod(size as nat, 0x8000_0000);
    }
    BlockField { compressed, size }
}

/// Parses the frame header at the start of `buf`. Fields are read in order
/// and the length is checked as the flags reveal it. The stored header
/// checksum byte is reported beside the computed one, not compared with it.
pub fn parse_header(buf: &[u8]) -> (r: Result<HeaderReport, ParseError>)
    ensures
        r == parse_spec(buf@),
        buf@.len() >= 4 && le_u32_at(buf@, 0) != MAGIC ==> r == Err::<HeaderReport, ParseError>(
            ParseError::InvalidMagic,
        ),
        r is Ok && !has_content_size(buf@) ==> {
            let rep = r->Ok_0;
            &&& rep.header_len == 11
            &&& rep.content_size is None
            &&& rep.header_checksum == buf@[6]
            &&& rep.hash == xxh32(buf@.subrange(4, 6))
            &&& rep.block == block_field_of(le_u32_at(buf@, 7))
        },
        r is Ok && has_content_size(buf@) ==> {
            let rep = r->Ok_0;
            &&& rep.header_len == 19
            &&& rep.content_size == Some(le_u64_at(buf@, 5) as u64)
            &&& rep.header_checksum == buf@[14]
            &&& rep.hash == xxh32(buf@.subrange(4, 14))
            &&& rep.block == block_field_of(le_u32_at(buf@, 15))
        },
{
    if buf.len() < 4 {
        return Err(ParseError::TruncatedHeader);
    }
    let magic = read_u32_le(buf, 0);
    if magic != MAGIC {
        return Err(ParseError::InvalidMagic);
    }
    if buf.len() < 5 {
        return Err(ParseError::TruncatedHeader);
    }
    let flag = Flg::from(buf[4]);
    let header_len = if flag.c_size {
        LONG_HEADER_LEN
    } else {
        SHORT_HEADER_LEN
    };
    if buf.len() < header_len {
        return Err(ParseError::TruncatedHeader);
    }
    let bd = Bd::from(buf[5]);
    let checksum_at: usize = header_len - 5;
    let content_size = if flag.c_size {
        Some(read_u64_le(buf, 5))
    } else {
        None
    };
    let header_checksum = buf[checksum_at];
    let hash = header_hash(slice_subrange(buf, 4, checksum_at));
    let hash_byte = checksum_byte(hash);
    let block = decode_block_field(slice_subrange(buf, checksum_at + 1, header_len));
    Ok(
        HeaderReport {
            header_len,
            magic,
            flag,
            bd,
            content_size,
            header_checksum,
            hash,
            hash_byte,
            block,
        },
    )
}

/// Parses the frame header at the start of `buf` as [`parse_header`] does,
/// and fails with [`ParseError::ChecksumMismatch`] where the stored header
/// checksum byte is not the one computed over the descriptor bytes.
pub fn parse_header_strict(buf: &[u8]) -> (r: Result<HeaderReport, ParseError>)
    ensures
        r == parse_strict_spec(buf@),
{
    match parse_header(buf) {
        Ok(rep) => if rep.checksum_matches() {
            Ok(rep)
        } else {
            Err(ParseError::ChecksumMismatch)
        },
        Err(e) => Err(e),
    }
}

} // verus!
