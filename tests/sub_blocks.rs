use lotrc::types::{
    hash_string, sub_block_kind, Crc, SubBlockKind, KEY_ATLAS_1, KEY_ATLAS_2, KEY_CROWD, KEY_ENGLISH,
    KEY_FRENCH, KEY_GAME_OBJS, KEY_GERMAN, KEY_ITALIAN, KEY_NORWEGIAN, KEY_PFIELDS, KEY_POLISH,
    KEY_RUSSIAN, KEY_SPANISH, KEY_SPRAY, KEY_SWEDISH,
};

#[test]
fn sub_block_keys_are_hashes_of_their_names() {
    let pairs: [(&[u8], u32); 15] = [
        (b"Polish", KEY_POLISH),
        (b"German", KEY_GERMAN),
        (b"French", KEY_FRENCH),
        (b"Spanish", KEY_SPANISH),
        (b"Russian", KEY_RUSSIAN),
        (b"Swedish", KEY_SWEDISH),
        (b"English", KEY_ENGLISH),
        (b"Italian", KEY_ITALIAN),
        (b"Norwegian", KEY_NORWEGIAN),
        (b"PFields", KEY_PFIELDS),
        (b"Spray", KEY_SPRAY),
        (b"3dCrowd", KEY_CROWD),
        (b"Level", KEY_GAME_OBJS),
        (b"atlas_1.uv", KEY_ATLAS_1),
        (b"atlas_2.uv", KEY_ATLAS_2),
    ];
    for (name, key) in pairs {
        assert_eq!(hash_string(name, None), key);
    }
}

#[test]
fn sub_block_dispatch() {
    let s = |x: &str| Crc::Str(x.to_string());
    assert_eq!(sub_block_kind(&s("English")), SubBlockKind::LangStrings);
    assert_eq!(sub_block_kind(&Crc::Key(KEY_NORWEGIAN)), SubBlockKind::LangStrings);
    assert_eq!(sub_block_kind(&Crc::Key(KEY_SPRAY)), SubBlockKind::Spray);
    assert_eq!(sub_block_kind(&s("3dCrowd")), SubBlockKind::Crowd);
    assert_eq!(sub_block_kind(&s("Level")), SubBlockKind::GameObjs);
    assert_eq!(sub_block_kind(&s("atlas_2.uv")), SubBlockKind::AtlasUV);
    assert_eq!(sub_block_kind(&s("PFields")), SubBlockKind::Data);
    assert_eq!(sub_block_kind(&s("scripts/init.lua")), SubBlockKind::Lua);
    assert_eq!(sub_block_kind(&s("anims.ssa")), SubBlockKind::Ssa);
    assert_eq!(sub_block_kind(&s("table.csv")), SubBlockKind::Data);
    assert_eq!(sub_block_kind(&s("lua")), SubBlockKind::Data);
}

#[test]
fn unknown_sub_block_is_kept_as_data() {
    assert_eq!(sub_block_kind(&Crc::Key(0x1234_5678)), SubBlockKind::Data);
    assert_eq!(sub_block_kind(&Crc::Str("mystery.bin".to_string())), SubBlockKind::Data);
}
