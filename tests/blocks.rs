use lotrc::codec::{CodecError, Endian};
use lotrc::types::{CompressedBlock, Data, LangStrings, StringKeys, Strings};

#[test]
fn compressed_round_trip() {
    let payload: Vec<u8> = (0..2000u32).map(|i| (i % 7) as u8).collect();
    let b = CompressedBlock { data: payload.clone() };
    let stored = b.dump(6);
    assert!(!stored.is_empty());
    assert_ne!(stored, payload);
    let back = CompressedBlock::from_data(&stored, payload.len(), stored.len(), 0).unwrap();
    assert_eq!(back.data, payload);
}

#[test]
fn empty_block_stores_as_nothing() {
    let b = CompressedBlock { data: vec![] };
    let stored = b.dump(9);
    assert!(stored.is_empty());
    let back = CompressedBlock::from_data(&stored, 0, 0, 0).unwrap();
    assert!(back.data.is_empty());
}

#[test]
fn raw_block_is_copied() {
    let data = vec![1u8, 2, 3, 4, 5, 6];
    let b = CompressedBlock::from_data(&data, 3, 0, 2).unwrap();
    assert_eq!(b.data, vec![3, 4, 5]);
    assert!(matches!(CompressedBlock::from_data(&data, 5, 0, 2), Err(CodecError::OutOfBounds)));
}

#[test]
fn compressed_block_at_offset() {
    let payload = b"hello hello hello hello".to_vec();
    let stored = CompressedBlock { data: payload.clone() }.dump(1);
    let mut file = vec![0xaa; 5];
    file.extend(&stored);
    file.extend([0xbb; 3]);
    let back = CompressedBlock::from_data(&file, payload.len(), stored.len(), 5).unwrap();
    assert_eq!(back.data, payload);
}

#[test]
fn size_mismatch_is_fatal() {
    let payload = vec![7u8; 100];
    let stored = CompressedBlock { data: payload }.dump(6);
    let r = CompressedBlock::from_data(&stored, 99, stored.len(), 0);
    assert!(matches!(r, Err(CodecError::BadCompressedBlock)));
}

#[test]
fn corrupt_stream_is_fatal() {
    let junk = vec![0x12u8, 0x34, 0x56, 0x78];
    assert!(matches!(CompressedBlock::from_data(&junk, 4, 4, 0), Err(CodecError::BadCompressedBlock)));
    assert!(matches!(CompressedBlock::from_data(&junk, 4, 5, 0), Err(CodecError::OutOfBounds)));
}

#[test]
fn strings_parse_and_dump() {
    let data = vec![0u8, 0, 0, 2, b'h', b'i', 0, 0, 0, 0, 0, 0, 0, 3, b'a', b'b', b'c'];
    let s = Strings::from_data(&data, 0, 3, Endian::Big).unwrap();
    assert_eq!(s.strings, vec!["hi".to_string(), "".to_string(), "abc".to_string()]);
    assert_eq!(s.len(), 3);
    assert_eq!(s.size(Endian::Big), Some(17));
    assert_eq!(s.dump(Endian::Big), data);
    let le = s.dump(Endian::Little);
    assert_eq!(&le[0..4], &[2, 0, 0, 0]);
    let back = Strings::from_data(&le, 0, 3, Endian::Little).unwrap();
    assert_eq!(back.strings, s.strings);
}

#[test]
fn strings_truncated_is_refused() {
    let data = vec![0u8, 0, 0, 9, b'h', b'i'];
    assert!(matches!(Strings::from_data(&data, 0, 1, Endian::Big), Err(CodecError::OutOfBounds)));
    assert!(matches!(Strings::from_data(&data, 4, 1, Endian::Big), Err(CodecError::OutOfBounds)));
    assert_eq!(Strings::from_data(&data, 10, 0, Endian::Big).unwrap().len(), 0);
}

#[test]
fn strings_invalid_utf8_is_replaced() {
    let data = vec![2u8, 0, 0, 0, 0xff, b'a'];
    let s = Strings::from_data(&data, 0, 1, Endian::Little).unwrap();
    assert_eq!(s.strings[0], "\u{fffd}a");
}

#[test]
fn data_block_copy_and_write_back() {
    let src = vec![1u8, 2, 3, 4, 5];
    let d = Data::from_data(&src, 1, 3).unwrap();
    assert_eq!(d.dump(), vec![2, 3, 4]);
    let mut out = vec![0u8; 6];
    d.into_data(&mut out, 2).unwrap();
    assert_eq!(out, vec![0, 0, 2, 3, 4, 0]);
    assert!(matches!(d.into_data(&mut out, 4), Err(CodecError::OutOfBounds)));
    assert_eq!(out, vec![0, 0, 2, 3, 4, 0]);
    assert!(matches!(Data::from_data(&src, 3, 3), Err(CodecError::OutOfBounds)));
}

#[test]
fn string_keys_table() {
    let mut data = vec![0u8, 2, 0, 2];
    data.extend([0u8; 16]);
    data.extend([0x7c, 0x29, 0xb7, 0xaf, 0, 0, 0, 40, 0, 0, 0, 5, 0, 0, 0, 44]);
    data.extend([0u8; 8]);
    let k = StringKeys::from_data(&data, 0, Endian::Big).unwrap();
    assert_eq!(k.vals.len(), 2);
    assert_eq!(k.vals[0].key.key(), 0x7c29b7af);
    assert_eq!(k.vals[1].offset, 44);
    assert_eq!(k.pad, vec![0, 0]);
    assert_eq!(k.size(Endian::Big), data.len());
    assert_eq!(k.dump(Endian::Big), data);
    let mut bad = data.clone();
    bad[3] = 3;
    assert!(matches!(StringKeys::from_data(&bad, 0, Endian::Big), Err(CodecError::Malformed)));
    assert!(matches!(StringKeys::from_data(&data[..30], 0, Endian::Big), Err(CodecError::OutOfBounds)));
}

#[test]
fn lang_strings_size_counts_utf16() {
    let l = LangStrings { strings: vec!["ab".to_string(), "".to_string(), "é😀".to_string()] };
    // "ab": 2 units + terminator; "": terminator; "é😀": 1 + 2 units + terminator.
    assert_eq!(l.size(), Some(6 + 2 + 8));
    let expect: usize = l.strings.iter().map(|s| s.encode_utf16().count() * 2 + 2).sum();
    assert_eq!(l.size(), Some(expect));
}
