use lotrc::codec::{dump_bytes, from_bytes, CodecError, Endian};
use lotrc::pak::{Foliage, FoliageInfo, Illumination, IlluminationInfo, Mat2, MatBase};
use lotrc::pak_alt::Mat;

fn base() -> MatBase {
    from_bytes(&[0u8; 1024], 0, Endian::Little).unwrap()
}

#[test]
fn material_kind_dispatch() {
    let mut m2: Mat2 = from_bytes(&[0u8; 1024], 0, Endian::Big).unwrap();
    m2.unk_90 = 0x1122;
    let mut bytes = dump_bytes(&m2, Endian::Big);
    bytes[208..212].copy_from_slice(&[0, 0, 0, 2]);
    bytes.extend([0u8; 16]);
    match Mat::from_data(&bytes, 0, Endian::Big).unwrap() {
        Mat::Mat2(m) => assert_eq!(m.unk_90, 0x1122),
        other => panic!("wrong kind {:?}", other),
    }
    bytes[211] = 0;
    assert!(matches!(Mat::from_data(&bytes, 0, Endian::Big), Ok(Mat::Mat1(_))));
    bytes[211] = 9;
    assert!(matches!(Mat::from_data(&bytes, 0, Endian::Big), Err(CodecError::Malformed)));
    assert!(matches!(Mat::from_data(&bytes[..100], 0, Endian::Big), Err(CodecError::OutOfBounds)));
}

#[test]
fn material_base_access() {
    let mut m = Mat::Mat1(base());
    assert_eq!(m.base().unk_0, 0);
    m.base_mut().unk_0 = 5;
    assert_eq!(m.base().unk_0, 5);
    let mut m2: Mat2 = from_bytes(&[0u8; 1024], 0, Endian::Little).unwrap();
    m2.unk_91 = 3;
    let mut m = Mat::Mat2(m2);
    m.base_mut().unk_1 = 7;
    assert_eq!(m.base().unk_1, 7);
    match m {
        Mat::Mat2(x) => assert_eq!(x.unk_91, 3),
        _ => panic!(),
    }
}

#[test]
fn nested_material_round_trip() {
    let mut m2: Mat2 = from_bytes(&[7u8; 1024], 0, Endian::Little).unwrap();
    m2.base.unk_1 = 42;
    for o in [Endian::Little, Endian::Big] {
        let r: Mat2 = from_bytes(&dump_bytes(&m2, o), 0, o).unwrap();
        assert_eq!(r, m2);
    }
}

#[test]
fn illumination_and_foliage_words() {
    let data: Vec<u8> = (0..64u8).collect();
    let info = IlluminationInfo { guid: 1, num: 2, offset: 4 };
    let il = Illumination::from_data(&data, &info, Endian::Little).unwrap();
    assert_eq!(il.vals, vec![0x07060504, 0x0b0a0908]);
    assert_eq!(il.dump(Endian::Little), data[4..12].to_vec());
    let far = IlluminationInfo { guid: 1, num: 20, offset: 4 };
    assert!(matches!(Illumination::from_data(&data, &far, Endian::Little), Err(CodecError::OutOfBounds)));
    let mut f: FoliageInfo = from_bytes(&[0u8; 256], 0, Endian::Little).unwrap();
    f.s1a = 1;
    f.s1b = 3;
    f.s2a = 0;
    f.s2b = 2;
    f.offset = 8;
    let fo = Foliage::from_data(&data, &f, Endian::Big).unwrap();
    assert_eq!(fo.vals.len(), 8);
    assert_eq!(fo.vals[0], 0x08090a0b);
    f.s1b = 0;
    assert!(matches!(Foliage::from_data(&data, &f, Endian::Big), Err(CodecError::Malformed)));
}
