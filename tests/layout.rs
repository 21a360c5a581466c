use std::collections::HashMap;
use lotrc::codec::{CodecError, Endian};
use lotrc::container::{relocate, Container, RelocTable};

#[test]
fn append_aligns_and_increases() {
    let mut c = Container::new();
    let a = c.append(&[1, 2, 3], 16);
    let b = c.append(&[4], 16);
    let d = c.append(&[5, 6], 2048);
    let e = c.append(&[7], 4);
    assert_eq!((a, b, d, e), (0, 16, 2048, 2052));
    assert!(a < b && b < d && d < e);
    assert_eq!(c.len(), 2053);
    let buf = c.finish();
    assert_eq!(&buf[0..4], &[1, 2, 3, 0]);
    assert_eq!(buf[16], 4);
    assert!(buf[17..2048].iter().all(|x| *x == 0));
    assert_eq!(&buf[2048..2053], &[5, 6, 0, 0, 7]);
}

#[test]
fn append_page_alignment() {
    let mut c = Container::new();
    c.append(&[9; 10], 1);
    let off = c.append(&[8], 4096);
    assert_eq!(off, 4096);
    assert_eq!(off % 4096, 0);
}

#[test]
fn patch_rewrites_in_place() {
    let mut c = Container::new();
    c.append(&[0; 8], 4);
    c.patch(2, &[7, 7]);
    assert_eq!(c.finish(), vec![0, 0, 7, 7, 0, 0, 0, 0]);
}

#[test]
fn reloc_table_refuses_overlap() {
    let mut t = RelocTable::new();
    assert!(t.add(0));
    assert!(t.add(8));
    assert!(!t.add(2));
    assert!(!t.add(11));
    assert!(t.add(4));
    assert_eq!(t.locs, vec![0, 8, 4]);
    assert!(t.add(8));
    assert_eq!(t.locs, vec![0, 8, 4]);
}

#[test]
fn relocation_after_padding_every_record() {
    // Three records at old offsets 0x10, 0x20, 0x30, each pointed to from the buffer.
    let mut data = vec![0u8; 16];
    data[0..4].copy_from_slice(&0x20u32.to_le_bytes());
    data[4..8].copy_from_slice(&0x10u32.to_le_bytes());
    data[8..12].copy_from_slice(&0x30u32.to_le_bytes());
    data[12..16].copy_from_slice(&[0xaa, 0xbb, 0xcc, 0xdd]);
    let mut t = RelocTable::new();
    for loc in [0usize, 4, 8] {
        assert!(t.add(loc));
    }
    // Rebuilt with every record padded by 0x100 bytes.
    let map: HashMap<u32, u32> = [(0x10, 0x110), (0x20, 0x120), (0x30, 0x130)].into_iter().collect();
    relocate(&mut data, &t, &map, Endian::Little).unwrap();
    assert_eq!(u32::from_le_bytes(data[0..4].try_into().unwrap()), 0x120);
    assert_eq!(u32::from_le_bytes(data[4..8].try_into().unwrap()), 0x110);
    assert_eq!(u32::from_le_bytes(data[8..12].try_into().unwrap()), 0x130);
    assert_eq!(&data[12..16], &[0xaa, 0xbb, 0xcc, 0xdd]);
}

#[test]
fn relocation_big_endian() {
    let mut data = vec![0u8, 0, 0, 5, 1];
    let mut t = RelocTable::new();
    assert!(t.add(0));
    let map: HashMap<u32, u32> = [(5, 0x01020304)].into_iter().collect();
    relocate(&mut data, &t, &map, Endian::Big).unwrap();
    assert_eq!(data, vec![1, 2, 3, 4, 1]);
}

#[test]
fn relocation_with_missing_target_aborts() {
    let mut data = vec![0x10u8, 0, 0, 0, 0x20, 0, 0, 0];
    let before = data.clone();
    let mut t = RelocTable::new();
    assert!(t.add(0));
    assert!(t.add(4));
    let map: HashMap<u32, u32> = [(0x10, 0x50)].into_iter().collect();
    assert!(matches!(relocate(&mut data, &t, &map, Endian::Little), Err(CodecError::MissingRelocation)));
    assert_eq!(data, before);
}

#[test]
fn relocation_outside_buffer_aborts() {
    let mut data = vec![0u8; 6];
    let mut t = RelocTable::new();
    assert!(t.add(4));
    let map: HashMap<u32, u32> = HashMap::new();
    assert!(matches!(relocate(&mut data, &t, &map, Endian::Little), Err(CodecError::OutOfBounds)));
    assert_eq!(data, vec![0u8; 6]);
}
