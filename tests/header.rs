use lz4_header::checksum::{checksum_byte, header_hash};
use lz4_header::descriptor::{Bd, Flg};
use lz4_header::frame::{
    decode_block_field, parse_header, parse_header_strict, BlockField, ParseError, MAGIC,
};

fn short_frame(block: [u8; 4]) -> Vec<u8> {
    let mut buf = vec![0x04, 0x22, 0x4D, 0x18, 0x60, 0x40, 0x00];
    buf.extend_from_slice(&block);
    buf
}

fn long_frame() -> Vec<u8> {
    vec![
        0x04, 0x22, 0x4D, 0x18, // magic
        0x68, // flags: version 1, independent blocks, content size
        0x70, // block descriptor
        0x05, 0x01, 0x00, 0x00, 0x00, 0x00, 0x00, 0x00, // content size bytes 5..13
        0xAA, // byte 14: header checksum
        0x20, 0x00, 0x00, 0x80, // first block field
    ]
}

#[test]
fn scenario_uncompressed_block() {
    let rep = parse_header(&short_frame([0x10, 0x00, 0x00, 0x00])).unwrap();
    assert_eq!(rep.block.size, 16);
    assert!(!rep.block.compressed);
    assert_eq!(rep.header_len, 11);
    assert_eq!(rep.magic, MAGIC);
    assert_eq!(rep.content_size, None);
    assert_eq!(rep.header_checksum, 0x00);
    assert_eq!(rep.bd, Bd { block_maxsize: 4 });
    assert_eq!(
        rep.flag,
        Flg {
            version: 1,
            b_indep: true,
            b_checksum: false,
            c_size: false,
            c_checksum: false,
            dict_id: false,
        }
    );
}

#[test]
fn scenario_compressed_block() {
    let rep = parse_header(&short_frame([0x10, 0x00, 0x00, 0x80])).unwrap();
    assert_eq!(rep.block.size, 16);
    assert!(rep.block.compressed);
}

#[test]
fn scenario_short_buffer_truncated() {
    let full = short_frame([0x10, 0x00, 0x00, 0x00]);
    for n in 0..11 {
        assert_eq!(parse_header(&full[..n]), Err(ParseError::TruncatedHeader), "length {n}");
    }
}

#[test]
fn scenario_content_size_buffer_ends_early() {
    let full = long_frame();
    assert_eq!(parse_header(&full[..13]), Err(ParseError::TruncatedHeader));
    assert_eq!(parse_header(&full[..14]), Err(ParseError::TruncatedHeader));
    assert_eq!(parse_header(&full[..18]), Err(ParseError::TruncatedHeader));
}

#[test]
fn content_size_header_reads_nineteen_bytes() {
    let buf = long_frame();
    let rep = parse_header(&buf).unwrap();
    assert_eq!(rep.header_len, 19);
    assert_eq!(rep.content_size, Some(u64::from_le_bytes(buf[5..13].try_into().unwrap())));
    assert_eq!(rep.content_size, Some(0x0105 * 0x100 + 0x70));
    assert_eq!(rep.header_checksum, 0xAA);
    assert_eq!(rep.hash, header_hash(&buf[4..14]));
    assert_eq!(rep.block, BlockField { compressed: true, size: 32 });
    assert_eq!(rep.bd, Bd { block_maxsize: 7 });
    assert!(rep.flag.c_size);
}

#[test]
fn short_header_hashes_descriptor_bytes() {
    let rep = parse_header(&short_frame([0x10, 0x00, 0x00, 0x00])).unwrap();
    assert_eq!(rep.hash, header_hash(&[0x60, 0x40]));
    assert_eq!(rep.hash_byte, rep.hash.to_le_bytes()[1]);
}

#[test]
fn trailing_bytes_are_not_read() {
    let base = short_frame([0x10, 0x00, 0x00, 0x00]);
    let mut longer = base.clone();
    longer.extend_from_slice(&[0xFF; 32]);
    assert_eq!(parse_header(&base), parse_header(&longer));
}

#[test]
fn magic_mismatch_is_invalid() {
    for i in 0..4 {
        let mut buf = short_frame([0x10, 0x00, 0x00, 0x00]);
        buf[i] ^= 0x01;
        assert_eq!(parse_header(&buf), Err(ParseError::InvalidMagic));
        buf.truncate(4);
        assert_eq!(parse_header(&buf), Err(ParseError::InvalidMagic));
    }
    assert_eq!(parse_header(&[0x18, 0x4D, 0x22, 0x04]), Err(ParseError::InvalidMagic));
}

#[test]
fn parsing_twice_gives_same_report() {
    let buf = long_frame();
    assert_eq!(parse_header(&buf), parse_header(&buf));
    let bad = vec![0u8; 20];
    assert_eq!(parse_header(&bad), parse_header(&bad));
}

#[test]
fn block_field_round_trip() {
    for &size in &[0u32, 1, 16, 0x1234_5678, 0x7FFF_FFFF] {
        for &compressed in &[false, true] {
            let raw = size | if compressed { 0x8000_0000 } else { 0 };
            let field = decode_block_field(&raw.to_le_bytes());
            assert_eq!(field, BlockField { compressed, size });
        }
    }
}

#[test]
fn strict_parse_refuses_checksum_mismatch() {
    let buf = short_frame([0x10, 0x00, 0x00, 0x00]);
    let expected = checksum_byte(header_hash(&[0x60, 0x40]));
    let mut good = buf.clone();
    good[6] = expected;
    let rep = parse_header_strict(&good).unwrap();
    assert!(rep.checksum_matches());
    assert_eq!(rep.header_checksum, expected);
    let mut bad = buf;
    bad[6] = expected.wrapping_add(1);
    assert_eq!(parse_header_strict(&bad), Err(ParseError::ChecksumMismatch));
    assert!(!parse_header(&bad).unwrap().checksum_matches());
}

#[test]
fn strict_parse_passes_on_other_errors() {
    assert_eq!(parse_header_strict(&[0x04, 0x22]), Err(ParseError::TruncatedHeader));
    assert_eq!(parse_header_strict(&[0u8; 11]), Err(ParseError::InvalidMagic));
}

#[test]
fn header_hash_matches_known_values() {
    assert_eq!(header_hash(&[]), 0x02CC_5D05);
    assert_eq!(header_hash(b"abc"), 0x32D1_53FF);
}

#[test]
fn checksum_byte_is_second_byte() {
    assert_eq!(checksum_byte(0x1234_5678), 0x56);
    assert_eq!(checksum_byte(0x0000_00FF), 0x00);
}

#[test]
fn flag_byte_bits() {
    let all = Flg::from(0xFF);
    assert_eq!(all.version, 3);
    assert!(all.b_indep && all.b_checksum && all.c_size && all.c_checksum && all.dict_id);
    let none = Flg::from(0x02);
    assert_eq!(none.version, 0);
    assert!(!none.b_indep && !none.b_checksum && !none.c_size && !none.c_checksum && !none.dict_id);
    assert!(Flg::from(0x04).c_checksum);
    assert!(Flg::from(0x01).dict_id);
    assert_eq!(Flg::from(0x80).version, 2);
}

#[test]
fn block_descriptor_bits() {
    assert_eq!(Bd::from(0x40).block_maxsize, 4);
    assert_eq!(Bd::from(0xFF).block_maxsize, 7);
    assert_eq!(Bd::from(0x8F).block_maxsize, 0);
}
