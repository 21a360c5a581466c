use lotrc::bin::{AssetHandle, Header};
use lotrc::codec::{dump_bytes, from_bytes, CodecError, Endian};
use lotrc::level::{build_bin, parse_bin, BinIndex};
use lotrc::types::{hash_string, CompressedBlock, Crc, StringTable, Strings};

fn index() -> BinIndex {
    let mut header: Header = from_bytes(&[0u8; 512], 0, Endian::Little).unwrap();
    header.constx06 = 6;
    header.unk_20 = 99;
    let handles = vec![
        AssetHandle { key: Crc::Str("rock".to_string()), offset: 0, size: 0, size_comp: 0, kind: 1 },
        AssetHandle { key: Crc::Key(0x1234), offset: 0, size: 0, size_comp: 0, kind: 2 },
        AssetHandle { key: Crc::Key(0x5678), offset: 0, size: 0, size_comp: 0, kind: 3 },
    ];
    let blocks = vec![
        CompressedBlock { data: (0..5000u32).map(|i| (i % 13) as u8).collect() },
        CompressedBlock { data: vec![] },
        CompressedBlock { data: b"tiny".to_vec() },
    ];
    let strings = Strings { strings: vec!["rock".to_string(), "tree".to_string()] };
    BinIndex { order: Endian::Little, header, strings, handles, blocks }
}

#[test]
fn index_file_round_trip_both_orders() {
    let idx = index();
    for o in [Endian::Little, Endian::Big] {
        let (bytes, h, handles) = build_bin(&idx, o, 6).unwrap();
        assert_eq!(bytes.len() % 2048, 0);
        assert_eq!(h.version, if o == Endian::Little { 1 } else { 2 });
        assert!(handles.iter().all(|x| x.offset % 2048 == 0));
        assert_eq!(&bytes[..dump_bytes(&h, o).len()], &dump_bytes(&h, o)[..]);
        let mut table = StringTable::new();
        let back = parse_bin(&bytes, &mut table).unwrap();
        assert_eq!(back.order, o);
        assert_eq!(back.header, h);
        assert_eq!(back.header.unk_20, 99);
        assert_eq!(back.strings.strings, idx.strings.strings);
        assert_eq!(back.handles.len(), 3);
        for i in 0..3 {
            assert_eq!(back.blocks[i].data, idx.blocks[i].data);
            assert_eq!(back.handles[i].key.key(), idx.handles[i].key.key());
            assert_eq!(back.handles[i].kind, idx.handles[i].kind);
        }
        assert_eq!(back.handles[0].key.str(), Some("rock"));
        assert_eq!(back.handles[1].key.str(), None);
        assert_eq!(back.handles[1].size_comp, 0);
        assert_eq!(back.handles[0].key.key(), hash_string(b"rock", None));
    }
}

#[test]
fn index_file_with_unknown_version_is_refused() {
    let idx = index();
    let (mut bytes, _, _) = build_bin(&idx, Endian::Little, 1).unwrap();
    bytes[0] = 9;
    let mut table = StringTable::new();
    assert!(matches!(parse_bin(&bytes, &mut table), Err(CodecError::UnknownVersion)));
}

#[test]
fn index_file_truncated_is_refused() {
    let idx = index();
    let (bytes, h, _) = build_bin(&idx, Endian::Big, 1).unwrap();
    let mut table = StringTable::new();
    let cut = &bytes[..h.asset_handle_offset as usize + 4];
    assert!(matches!(parse_bin(cut, &mut table), Err(CodecError::OutOfBounds)));
}
