use lotrc::types::{hash_string, update_strings, Crc, StringTable};

#[test]
fn hash_known_values() {
    assert_eq!(hash_string(b"CRC", None), 0x776c796e);
    assert_eq!(hash_string(b"Level", None), 0x7c29b7af);
    assert_eq!(hash_string(b"Spray", None), 0x0bef4d0e);
    assert_eq!(hash_string(b"English", None), 0xe493d172);
    assert_eq!(hash_string(b"", None), 0);
}

#[test]
fn hash_ignores_ascii_case() {
    assert_eq!(hash_string(b"crc", None), hash_string(b"CRC", None));
}

#[test]
fn hash_is_deterministic() {
    let a = hash_string(b"atlas_1.uv", Some(7));
    let b = hash_string(b"atlas_1.uv", Some(7));
    assert_eq!(a, b);
}

#[test]
fn hash_with_mask_derives_star_key() {
    assert_eq!(hash_string(b"*", Some(0x12345678)), 0x779bb863);
    let base = hash_string(b"tex", None);
    assert_eq!(hash_string(b"*", Some(base)), 0x8f31d820);
    assert_ne!(hash_string(b"*", Some(base)), base);
}

#[test]
fn crc_key_text_round_trip() {
    let k = Crc::Key(0x0bef4d0e);
    assert_eq!(k.to_string(), "0x0BEF4D0E");
    assert_eq!(Crc::from_string("0x0BEF4D0E"), Crc::Key(0x0bef4d0e));
    assert_eq!(Crc::from_string("0xff"), Crc::Key(0xff));
}

#[test]
fn crc_string_equals_its_key() {
    let s = Crc::from_string("Spray");
    assert_eq!(s.key(), 0x0bef4d0e);
    assert_eq!(s, Crc::Key(0x0bef4d0e));
    assert_eq!(s.str(), Some("Spray"));
    assert_eq!(s.to_string(), "Spray");
    assert_eq!(Crc::Key(5).str(), None);
}

#[test]
fn string_table_resolves_interned_keys() {
    let mut t = StringTable::new();
    update_strings(&mut t, &["Level".to_string(), "Spray".to_string()]);
    match Crc::resolve(0x7c29b7af, &t) {
        Crc::Str(s) => assert_eq!(s, "Level"),
        Crc::Key(_) => panic!("interned string not found"),
    }
    assert_eq!(Crc::resolve(1234, &t), Crc::Key(1234));
    assert!(matches!(Crc::resolve(1234, &t), Crc::Key(1234)));
}

#[test]
fn star_keys_differ_for_different_keys() {
    let keys = [0u32, 1, 2, 0x8000_0000, 0xffff_ffff, hash_string(b"rock", None)];
    for a in keys {
        for b in keys {
            if a != b {
                assert_ne!(hash_string(b"*", Some(a)), hash_string(b"*", Some(b)));
            }
        }
    }
}
