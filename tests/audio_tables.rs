use lotrc::audio::{AudioTable, Header, Obj1, Obj2};
use lotrc::codec::{CodecError, Endian};
use lotrc::level::{byte_order_of, AUDIO_VERSION};
use lotrc::types::Crc;

fn e(k: u32, v: u32) -> Obj1 {
    Obj1 { key: Crc::Key(k), val: v }
}

fn table() -> AudioTable {
    AudioTable {
        header: Header { const0x2: 2, n1: 2, n2: 1, n3: 2, n4: 0, n5: 1, n6: 0, n7: 1 },
        obj1s: vec![e(1, 10), e(2, 20)],
        obj2s: vec![(Obj2 { unk_0: 5, unk_1: 6, n: 2 }, vec![e(3, 30), e(4, 40)])],
        obj3s: vec![(Obj2 { unk_0: 7, unk_1: 8, n: 0 }, vec![]), (Obj2 { unk_0: 9, unk_1: 9, n: 1 }, vec![e(5, 50)])],
        obj4s: vec![],
        obj5s: vec![e(6, 60)],
        obj6s: vec![],
        obj7s: vec![e(7, 70)],
        extra: vec![Crc::Key(0xaabbccdd), Crc::Key(1)],
    }
}

#[test]
fn audio_table_round_trip_both_orders() {
    let t = table();
    for o in [Endian::Little, Endian::Big] {
        let mut bytes = t.to_data(o);
        assert_eq!(bytes.len(), 32 + 7 * 8 + 3 * 12 + 2 * 4);
        assert_eq!(byte_order_of(&bytes, AUDIO_VERSION), Ok(o));
        bytes.extend([0u8; 3]);
        let back = AudioTable::from_data(&bytes, o).unwrap();
        assert_eq!(back.header, t.header);
        assert_eq!(back.obj1s, t.obj1s);
        assert_eq!(back.obj2s, t.obj2s);
        assert_eq!(back.obj3s, t.obj3s);
        assert_eq!(back.obj5s, t.obj5s);
        assert_eq!(back.obj7s, t.obj7s);
        assert_eq!(back.extra, t.extra);
    }
}

#[test]
fn truncated_audio_table_is_refused() {
    let bytes = table().to_data(Endian::Little);
    assert!(matches!(AudioTable::from_data(&bytes[..60], Endian::Little), Err(CodecError::OutOfBounds)));
    assert!(matches!(AudioTable::from_data(&bytes[..10], Endian::Little), Err(CodecError::OutOfBounds)));
}
