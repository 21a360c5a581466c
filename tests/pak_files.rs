use std::collections::HashMap;
use lotrc::codec::{dump_bytes, from_bytes, size, CodecError, Endian};
use lotrc::level::parse_pak;
use lotrc::pak::Header;
use lotrc::types::{CompressedBlock, StringTable, Strings};

fn pak_file(o: Endian) -> (Vec<u8>, Vec<u8>) {
    let mut h: Header = from_bytes(&[0u8; 4096], 0, Endian::Little).unwrap();
    let hs = size::<Header>(o);
    let strings = Strings { strings: vec!["Level".to_string(), "rock".to_string()] };
    let sb = strings.dump(o);
    // block 1: 16 bytes of filler, then a string key table with one key.
    let mut block1 = vec![0xeeu8; 16];
    let keys_header: Vec<u8> = match o {
        Endian::Little => vec![1, 0, 1, 0],
        Endian::Big => vec![0, 1, 0, 1],
    };
    block1.extend(keys_header);
    block1.extend([0u8; 16]);
    block1.extend(match o {
        Endian::Little => vec![0xaf, 0xb7, 0x29, 0x7c, 8, 0, 0, 0],
        Endian::Big => vec![0x7c, 0x29, 0xb7, 0xaf, 0, 0, 0, 8],
    });
    block1.extend([0u8; 4]);
    let stored1 = CompressedBlock { data: block1.clone() }.dump(6);
    let block2 = b"raw second block".to_vec();
    h.strings_offset = hs as u32;
    h.strings_num = 2;
    h.block1_offset = (hs + sb.len()) as u32;
    h.block1_size = block1.len() as u32;
    h.block1_size_comp = stored1.len() as u32;
    h.block2_offset = (hs + sb.len() + stored1.len()) as u32;
    h.block2_size = block2.len() as u32;
    h.block2_size_comp = 0;
    h.string_keys_offset = 16;
    let mut file = dump_bytes(&h, o);
    file.extend(sb);
    file.extend(stored1);
    file.extend(block2);
    (file, block1)
}

#[test]
fn payload_file_parses_in_both_orders() {
    for o in [Endian::Little, Endian::Big] {
        let (file, block1) = pak_file(o);
        let mut table = StringTable::new();
        let p = parse_pak(&file, o, &mut table).unwrap();
        assert_eq!(p.strings.strings, vec!["Level".to_string(), "rock".to_string()]);
        assert_eq!(p.block1.data, block1);
        assert_eq!(p.block2.data, b"raw second block".to_vec());
        assert_eq!(p.string_keys.vals.len(), 1);
        assert_eq!(p.string_keys.vals[0].key.key(), 0x7c29b7af);
        assert_eq!(p.header.block1_size as usize, block1.len());
    }
}

#[test]
fn payload_file_with_bad_block_is_refused() {
    let (mut file, _) = pak_file(Endian::Little);
    let h: Header = from_bytes(&file, 0, Endian::Little).unwrap();
    file[h.block1_offset as usize] ^= 0xff;
    let mut table = StringTable::new();
    assert!(matches!(parse_pak(&file, Endian::Little, &mut table), Err(CodecError::BadCompressedBlock)));
}

fn offsets_index(o: Endian) -> lotrc::level::PakIndex {
    let (file, _) = pak_file(o);
    let mut table = StringTable::new();
    parse_pak(&file, o, &mut table).unwrap()
}

#[test]
fn payload_file_rebuilds_with_relocation() {
    for o in [Endian::Little, Endian::Big] {
        let mut idx = offsets_index(o);
        idx.block2_offsets = vec![3, 7];
        let anims = vec![
            CompressedBlock { data: vec![1u8; 300] },
            CompressedBlock { data: vec![] },
        ];
        // The entry offset word of the string key table, at 16 + 20 + 4, points into block 1.
        let mut relocs = lotrc::container::RelocTable::new();
        assert!(relocs.add(40));
        let moved: HashMap<u32, u32> = [(8, 4096 + 8)].into_iter().collect();
        let (bytes, h, frames) = lotrc::level::build_pak(&idx, &anims, &relocs, &moved, o, 6).unwrap();
        assert_eq!(bytes.len() % 4096, 0);
        assert!(h.block1_offset % 4096 == 0 && h.block2_offset % 4096 == 0 && h.strings_offset % 4096 == 0);
        assert!(h.block1_offset < h.block2_offset && h.block2_offset < h.strings_offset);
        assert_eq!(frames.len(), 2);
        assert!(frames[0].0 % 4096 == 0 && frames[0].0 + frames[0].2 <= h.block1_offset);
        let a0 = CompressedBlock::from_data(&bytes, frames[0].1 as usize, frames[0].2 as usize, frames[0].0 as usize).unwrap();
        assert_eq!(a0.data, vec![1u8; 300]);
        let mut table = StringTable::new();
        let back = parse_pak(&bytes, o, &mut table).unwrap();
        let mut expect1 = idx.block1.data.clone();
        match o {
            Endian::Little => expect1[40..44].copy_from_slice(&(4096u32 + 8).to_le_bytes()),
            Endian::Big => expect1[40..44].copy_from_slice(&(4096u32 + 8).to_be_bytes()),
        }
        assert_eq!(back.block1.data, expect1);
        assert_eq!(back.string_keys.vals[0].offset, 4096 + 8);
        assert_eq!(back.block2_offsets, vec![3, 7]);
        assert_eq!(&back.block2.data[..idx.block2.data.len()], &idx.block2.data[..]);
        assert_eq!(back.strings.strings, idx.strings.strings);
    }
}

#[test]
fn payload_rebuild_with_unmapped_slot_is_refused() {
    let idx = offsets_index(Endian::Little);
    let mut relocs = lotrc::container::RelocTable::new();
    assert!(relocs.add(40));
    let moved: HashMap<u32, u32> = HashMap::new();
    let r = lotrc::level::build_pak(&idx, &vec![], &relocs, &moved, Endian::Little, 1);
    assert!(matches!(r, Err(CodecError::MissingRelocation)));
    let mut far = lotrc::container::RelocTable::new();
    assert!(far.add(10_000));
    let r = lotrc::level::build_pak(&idx, &vec![], &far, &moved, Endian::Little, 1);
    assert!(matches!(r, Err(CodecError::OutOfBounds)));
}

#[test]
fn block2_offsets_make_a_relocation_table() {
    let t = lotrc::container::reloc_table_of(&vec![0, 8, 4]).unwrap();
    assert_eq!(t.locs, vec![0, 8, 4]);
    assert!(lotrc::container::reloc_table_of(&vec![0, 2]).is_none());
    let t = lotrc::container::reloc_table_of(&vec![8, 0, 8, 8]).unwrap();
    assert_eq!(t.locs, vec![8, 0]);
}

#[test]
fn info_tables_are_read_from_block1() {
    let mut h: Header = from_bytes(&[0u8; 4096], 0, Endian::Little).unwrap();
    let mut block1 = vec![0u8; 8];
    block1.extend([1, 0, 0, 0, 2, 0, 0, 0, 3, 0, 0, 0]);
    h.illumination_info_offset = 8;
    h.illumination_info_num = 1;
    let table = StringTable::new();
    let t = lotrc::level::read_info_tables(&block1, &h, Endian::Little, &table).unwrap();
    assert_eq!(t.illumination_infos.len(), 1);
    assert_eq!((t.illumination_infos[0].guid, t.illumination_infos[0].num, t.illumination_infos[0].offset), (1, 2, 3));
    assert!(t.mesh_infos.is_empty());
    h.illumination_info_num = 2;
    assert!(matches!(lotrc::level::read_info_tables(&block1, &h, Endian::Little, &table), Err(CodecError::OutOfBounds)));
}

#[test]
fn payload_keys_come_back_with_their_strings() {
    for o in [Endian::Little, Endian::Big] {
        let (file, _) = pak_file(o);
        let mut table = StringTable::new();
        let p = parse_pak(&file, o, &mut table).unwrap();
        // The string key table of block 1 holds the key of "Level", which the
        // payload's own string table names.
        assert_eq!(p.string_keys.vals[0].key.str(), Some("Level"));
    }
}

#[test]
fn info_table_keys_are_resolved() {
    let mut h: Header = from_bytes(&[0u8; 4096], 0, Endian::Little).unwrap();
    let mut block1 = vec![0u8; 4];
    block1.extend(hash_of("rock").to_le_bytes());
    block1.extend([5, 0, 0, 0, 6, 0, 0, 0]);
    block1.extend(0x1234u32.to_le_bytes());
    block1.extend([0u8; 8]);
    h.gfx_block_info_offset = 4;
    h.gfx_block_info_num = 2;
    let mut table = StringTable::new();
    lotrc::types::update_strings(&mut table, &["rock".to_string()]);
    let t = lotrc::level::read_info_tables(&block1, &h, Endian::Little, &table).unwrap();
    assert_eq!(t.gfx_block_infos[0].key.str(), Some("rock"));
    assert_eq!(t.gfx_block_infos[1].key.str(), None);
    assert_eq!(t.gfx_block_infos[1].key.key(), 0x1234);
}

fn hash_of(s: &str) -> u32 {
    lotrc::types::hash_string(s.as_bytes(), None)
}
