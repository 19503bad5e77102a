use asset_packer::container::{
    decode_length, encode_footer, encode_length, load_embedded_assets, locate_archive, pack,
    parse_footer, ArchiveSpan, FOOTER_LEN, MAGIC_LEN,
};
use asset_packer::fault::Fault;

#[test]
fn length_field_is_little_endian() {
    assert_eq!(
        encode_length(0x0102_0304_0506_0708),
        vec![0x08, 0x07, 0x06, 0x05, 0x04, 0x03, 0x02, 0x01]
    );
    assert_eq!(encode_length(0), vec![0u8; 8]);
    assert_eq!(encode_length(u64::MAX), vec![0xffu8; 8]);
    assert_eq!(encode_length(300), vec![0x2c, 0x01, 0, 0, 0, 0, 0, 0]);
}

#[test]
fn length_field_decodes_what_was_encoded() {
    for value in [0u64, 1, 255, 256, 65_535, 1 << 32, u64::MAX - 1, u64::MAX] {
        assert_eq!(decode_length(&encode_length(value)), value);
        assert_eq!(decode_length(&value.to_le_bytes()), value);
    }
    assert_eq!(decode_length(&[]), 0);
    assert_eq!(decode_length(&[0x34, 0x12]), 0x1234);
}

#[test]
fn footer_is_magic_then_length() {
    let footer = encode_footer(3);
    assert_eq!(footer.len(), FOOTER_LEN);
    assert_eq!(&footer[..MAGIC_LEN], b"ASST");
    assert_eq!(&footer[MAGIC_LEN..], &[3, 0, 0, 0, 0, 0, 0, 0]);
}

#[test]
fn packed_image_layout_is_bit_exact() {
    let base = b"0123456789";
    let archive = b"abc";
    let image = pack(base, archive);
    let mut expected = Vec::new();
    expected.extend_from_slice(base);
    expected.extend_from_slice(archive);
    expected.extend_from_slice(b"ASST");
    expected.extend_from_slice(&3u64.to_le_bytes());
    assert_eq!(image, expected);
}

#[test]
fn footer_integrity_of_packed_images() {
    let bases: [&[u8]; 3] = [b"", b"x", b"a base executable of some length"];
    let archives: [&[u8]; 3] = [b"", b"PK", b"ASST looks like a footer but is payload"];
    for base in bases {
        for archive in archives {
            let image = pack(base, archive);
            let len = image.len();
            assert_eq!(&image[len - 12..len - 8], b"ASST");
            let declared = u64::from_le_bytes(image[len - 8..].try_into().unwrap()) as usize;
            assert_eq!(declared, archive.len());
            assert_eq!(&image[len - 12 - declared..len - 12], archive);
            assert_eq!(&image[..base.len()], base);
        }
    }
}

#[test]
fn loader_recovers_the_packed_archive() {
    let image = pack(b"0123456789", b"the archive");
    assert_eq!(load_embedded_assets(&image), Ok(b"the archive".to_vec()));
    let nested = pack(&image, b"second");
    assert_eq!(load_embedded_assets(&nested), Ok(b"second".to_vec()));
    let empty = pack(b"base", b"");
    assert_eq!(load_embedded_assets(&empty), Ok(Vec::new()));
}

#[test]
fn damaged_magic_is_archive_not_found() {
    let image = pack(b"0123456789", b"the archive");
    let magic_at = image.len() - 12;
    for which in 0..4 {
        for bit in 0..8 {
            let mut damaged = image.clone();
            damaged[magic_at + which] ^= 1 << bit;
            assert_eq!(load_embedded_assets(&damaged), Err(Fault::ArchiveNotFound));
        }
    }
}

#[test]
fn unpacked_binary_is_archive_not_found() {
    assert_eq!(load_embedded_assets(b"just an executable, never packed"), Err(Fault::ArchiveNotFound));
    assert_eq!(load_embedded_assets(b""), Err(Fault::ArchiveNotFound));
    assert_eq!(load_embedded_assets(b"ASST"), Err(Fault::ArchiveNotFound));
    assert_eq!(load_embedded_assets(b"ASST\x00\x00\x00\x00\x00\x00\x00"), Err(Fault::ArchiveNotFound));
}

#[test]
fn oversized_length_is_archive_corrupt() {
    let mut image = b"abc".to_vec();
    image.extend_from_slice(b"ASST");
    image.extend_from_slice(&4u64.to_le_bytes());
    assert_eq!(load_embedded_assets(&image), Err(Fault::ArchiveCorrupt));
    let mut huge = Vec::new();
    huge.extend_from_slice(b"ASST");
    huge.extend_from_slice(&u64::MAX.to_le_bytes());
    assert_eq!(load_embedded_assets(&huge), Err(Fault::ArchiveCorrupt));
    let mut exact = b"abc".to_vec();
    exact.extend_from_slice(b"ASST");
    exact.extend_from_slice(&3u64.to_le_bytes());
    assert_eq!(load_embedded_assets(&exact), Ok(b"abc".to_vec()));
}

#[test]
fn footer_parsing_reports_the_declared_length() {
    let mut tail = b"ASST".to_vec();
    tail.extend_from_slice(&0x0a0bu64.to_le_bytes());
    assert_eq!(parse_footer(&tail), Ok(0x0a0b));
    assert_eq!(parse_footer(b"ASSX\x00\x00\x00\x00\x00\x00\x00\x00"), Err(Fault::ArchiveNotFound));
    assert_eq!(parse_footer(b"asst\x00\x00\x00\x00\x00\x00\x00\x00"), Err(Fault::ArchiveNotFound));
    assert_eq!(parse_footer(b"ASST"), Err(Fault::ArchiveNotFound));
    assert_eq!(parse_footer(b"xASST\x00\x00\x00\x00\x00\x00\x00\x00"), Err(Fault::ArchiveNotFound));
}

#[test]
fn archive_is_located_from_the_tail_alone() {
    let tail = encode_footer(100);
    assert_eq!(locate_archive(1000, &tail), Ok(ArchiveSpan { offset: 888, len: 100 }));
    assert_eq!(locate_archive(112, &tail), Ok(ArchiveSpan { offset: 0, len: 100 }));
    assert_eq!(locate_archive(111, &tail), Err(Fault::ArchiveCorrupt));
    assert_eq!(locate_archive(11, &tail), Err(Fault::ArchiveCorrupt));
    assert_eq!(locate_archive(1000, b"not a footer"), Err(Fault::ArchiveNotFound));
    assert_eq!(locate_archive(5, b"short"), Err(Fault::ArchiveNotFound));
}
