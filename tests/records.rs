use lotrc::codec::{dump_bytes, dump_bytes_vec, from_bytes, from_bytes_vec, size, CodecError, Endian};
use lotrc::pak::{IBuffInfo, ObjA, VBuffInfo};
use lotrc::types::{Crc, List, StringKeysVal, Weight};

#[test]
fn list_layout_little_and_big() {
    let l = List { num: 0x0102, offset: 0x0304 };
    assert_eq!(dump_bytes(&l, Endian::Little), vec![0x02, 0x01, 0x04, 0x03]);
    assert_eq!(dump_bytes(&l, Endian::Big), vec![0x01, 0x02, 0x03, 0x04]);
    assert_eq!(size::<List>(Endian::Little), 4);
}

#[test]
fn record_round_trip_both_orders() {
    let w = Weight { x: 0xdeadbeef, a: 1, b: 2, c: 3, d: 255 };
    for o in [Endian::Little, Endian::Big] {
        let b = dump_bytes(&w, o);
        assert_eq!(b.len(), 8);
        let r: Weight = from_bytes(&b, 0, o).unwrap();
        assert_eq!(r, w);
    }
}

#[test]
fn crc_field_round_trips_by_key() {
    let v = StringKeysVal { key: Crc::Str("Level".to_string()), offset: 9 };
    let b = dump_bytes(&v, Endian::Big);
    assert_eq!(b, vec![0x7c, 0x29, 0xb7, 0xaf, 0, 0, 0, 9]);
    let r: StringKeysVal = from_bytes(&b, 0, Endian::Big).unwrap();
    assert_eq!(r.key, Crc::Key(0x7c29b7af));
    assert_eq!(r, v);
}

#[test]
fn fixed_little_endian_fields_ignore_order() {
    let a = ObjA { key: Crc::Key(1), unk_1: 2, size: 3, size_comp: 4, unk_4: 5, kind: 6 };
    assert_eq!(dump_bytes(&a, Endian::Big), dump_bytes(&a, Endian::Little));
    assert_eq!(&dump_bytes(&a, Endian::Big)[0..4], &[1, 0, 0, 0]);
}

fn vbuff() -> VBuffInfo {
    VBuffInfo {
        unk_0: 1, size: 2, unk_3: 3, offset: 4, fmt1: 5, fmt2: 6, unk_6: 7, unk_7: 8,
        unk_8: 0, unk_9: 0, unk_10: 0, unk_11: 0, unk_12: 0, unk_13: 0,
    }
}

#[test]
fn swapped_and_skipped_fields() {
    let v = vbuff();
    assert_eq!(size::<VBuffInfo>(Endian::Little), 32);
    assert_eq!(size::<VBuffInfo>(Endian::Big), 56);
    let le = dump_bytes(&v, Endian::Little);
    assert_eq!(&le[16..24], &[5, 0, 0, 0, 6, 0, 0, 0]);
    let be = dump_bytes(&v, Endian::Big);
    assert_eq!(&be[16..24], &[0, 0, 0, 6, 0, 0, 0, 5]);
    for o in [Endian::Little, Endian::Big] {
        let r: VBuffInfo = from_bytes(&dump_bytes(&v, o), 0, o).unwrap();
        assert_eq!(r, v);
    }
}

#[test]
fn fields_absent_in_little_endian_read_as_zero() {
    let mut v = vbuff();
    v.unk_9 = 77;
    let r: VBuffInfo = from_bytes(&dump_bytes(&v, Endian::Little), 0, Endian::Little).unwrap();
    assert_eq!(r.unk_9, 0);
    let r: VBuffInfo = from_bytes(&dump_bytes(&v, Endian::Big), 0, Endian::Big).unwrap();
    assert_eq!(r.unk_9, 77);
    let i = IBuffInfo { unk_0: 1, size: 2, format: 3, unk_3: 4, offset: 5, unk_5: 6, unk_6: 0, unk_7: 0, unk_8: 0, unk_9: 0, unk_10: 0, unk_11: 0, unk_12: 0 };
    assert_eq!(dump_bytes(&i, Endian::Little).len(), 24);
    assert_eq!(dump_bytes(&i, Endian::Big).len(), 52);
}

#[test]
fn read_past_end_is_refused() {
    let b = vec![1u8, 2, 3];
    let r: Result<Weight, CodecError> = from_bytes(&b, 0, Endian::Little);
    assert!(matches!(r, Err(CodecError::OutOfBounds)));
    let r: Result<List, CodecError> = from_bytes(&[0u8; 8], 6, Endian::Little);
    assert!(matches!(r, Err(CodecError::OutOfBounds)));
    let r: Result<List, CodecError> = from_bytes(&[0u8; 8], 4, Endian::Little);
    assert!(r.is_ok());
}

#[test]
fn record_vectors_round_trip() {
    let v = vec![List { num: 1, offset: 2 }, List { num: 3, offset: 4 }, List { num: 5, offset: 6 }];
    let b = dump_bytes_vec(&v, Endian::Big);
    assert_eq!(b, vec![0, 1, 0, 2, 0, 3, 0, 4, 0, 5, 0, 6]);
    let mut padded = vec![9u8, 9];
    padded.extend(b);
    let r: Vec<List> = from_bytes_vec(&padded, 2, 3, Endian::Big).unwrap();
    assert_eq!(r, v);
    let e: Result<Vec<List>, CodecError> = from_bytes_vec(&padded, 2, 4, Endian::Big);
    assert!(matches!(e, Err(CodecError::OutOfBounds)));
}

#[test]
fn signed_fields_round_trip() {
    let v = lotrc::pak::EffectInfo { key: Crc::Key(3), gamemodemask: -1, offset: 7, size: 8 };
    let b = dump_bytes(&v, Endian::Little);
    assert_eq!(&b[4..8], &[0xff, 0xff, 0xff, 0xff]);
    let r: lotrc::pak::EffectInfo = from_bytes(&b, 0, Endian::Little).unwrap();
    assert_eq!(r.gamemodemask, -1);
}

#[test]
fn record_vector_round_trip_both_orders() {
    let v = vec![Weight { x: 1, a: 2, b: 3, c: 4, d: 5 }, Weight { x: 0xffff_ffff, a: 0, b: 0, c: 0, d: 9 }];
    for o in [Endian::Little, Endian::Big] {
        let mut b = dump_bytes_vec(&v, o);
        assert_eq!(b.len(), v.len() * size::<Weight>(o));
        b.extend([7u8; 3]);
        let r: Vec<Weight> = from_bytes_vec(&b, 0, v.len(), o).unwrap();
        assert_eq!(r, v);
    }
}
