use lotrc::bin::{conv_img, detile_surface, CubeTexture, Radiosity, Tex, Texture};
use lotrc::codec::{from_bytes, CodecError, Endian};
use lotrc::pak::TextureInfo;

fn info(format: u32, width: u16, height: u16, levels: u16) -> TextureInfo {
    let mut i: TextureInfo = from_bytes(&[0u8; 128], 0, Endian::Little).unwrap();
    i.format = format;
    i.width = width;
    i.height = height;
    i.levels = levels;
    i.asset_type = 7;
    i
}

fn bytes(n: usize, seed: usize) -> Vec<u8> {
    (0..n).map(|i| ((i * 31 + seed) % 253) as u8).collect()
}

#[test]
fn pc_levels_follow_each_other() {
    let mut inf = info(3, 8, 8, 2);
    let all = bytes(320, 1);
    let (a, b) = all.split_at(200);
    let t = Texture::from_data(a, b, &mut inf, Endian::Little).unwrap();
    assert_eq!(t.levels.len(), 2);
    assert_eq!(t.levels[0], all[0..256].to_vec());
    assert_eq!(t.levels[1], all[256..320].to_vec());
    assert_eq!((t.format, t.kind), (3, 7));
}

#[test]
fn pc_levels_past_the_end_are_refused() {
    let mut inf = info(3, 8, 8, 2);
    let r = Texture::from_data(&bytes(200, 1), &bytes(100, 2), &mut inf, Endian::Little);
    assert!(matches!(r, Err(CodecError::OutOfBounds)));
}

#[test]
fn unhandled_format_keeps_raw_blocks() {
    let mut inf = info(5, 8, 8, 1);
    let t = Texture::from_data(&[1, 2], &[3], &mut inf, Endian::Big).unwrap();
    assert_eq!(t.levels, vec![vec![1, 2], vec![3]]);
}

#[test]
fn console_single_level_is_detiled() {
    let mut inf = info(10, 64, 64, 1);
    let data = bytes(16384, 3);
    let t = Texture::from_data(&data[..1000], &data[1000..], &mut inf, Endian::Big).unwrap();
    let (img, _, _, _) = conv_img(&data, 64, 64, 10).unwrap();
    assert_eq!(t.levels, vec![img]);
}

#[test]
fn console_small_levels_come_from_the_packed_surface() {
    let mut inf = info(10, 64, 64, 3);
    let data = bytes(3 * 16384, 5);
    let t = Texture::from_data(&data, &[], &mut inf, Endian::Big).unwrap();
    assert_eq!(t.levels.len(), 3);
    assert_eq!(t.levels[0], conv_img(&data[0..16384], 64, 64, 10).unwrap().0);
    assert_eq!(t.levels[1], conv_img(&data[16384..32768], 32, 32, 10).unwrap().0);
    let (packed, d, pw, _) = detile_surface(&data[32768..], 16, 32, 10).unwrap();
    assert_eq!((d, pw), (16, 8));
    let mut expect = vec![];
    for row in 0..4 {
        expect.extend_from_slice(&packed[row * 128 + 64..row * 128 + 128]);
    }
    assert_eq!(t.levels[2], expect);
}

#[test]
fn console_small_level_without_packed_surface_is_flagged() {
    let mut inf = info(10, 8, 8, 2);
    let r = Texture::from_data(&bytes(20000, 1), &[], &mut inf, Endian::Big);
    assert!(matches!(r, Err(CodecError::Malformed)));
}

#[test]
fn alpha_format_is_demoted_to_luminance() {
    let mut inf = info(13, 64, 64, 3);
    let data = bytes(3 * 8192, 9);
    let t = Texture::from_data(&data, &[], &mut inf, Endian::Big).unwrap();
    assert_eq!(t.format, 6);
    assert_eq!(inf.format, 6);
    assert_eq!(t.levels.len(), 3);
    assert_eq!(t.levels[0].len(), 64 * 64);
    assert_eq!(t.levels[1].len(), 32 * 32);
    assert_eq!(t.levels[2].len(), 16 * 16);
    let l0 = &t.levels[0];
    let box0 = (l0[0] as u32 + l0[1] as u32 + l0[64] as u32 + l0[65] as u32 + 2) / 4;
    assert_eq!(t.levels[1][0] as u32, box0);
    let l1 = &t.levels[1];
    let box1 = (l1[2] as u32 + l1[3] as u32 + l1[34] as u32 + l1[35] as u32 + 2) / 4;
    assert_eq!(t.levels[2][1] as u32, box1);
}

#[test]
fn alpha_format_needs_three_levels() {
    let mut inf = info(13, 64, 64, 2);
    let r = Texture::from_data(&bytes(3 * 8192, 9), &[], &mut inf, Endian::Big);
    assert!(matches!(r, Err(CodecError::Malformed)));
    assert_eq!(inf.format, 13);
}

#[test]
fn cube_faces_pc_and_console() {
    let inf = info(6, 4, 4, 1);
    let d1 = bytes(96, 4);
    let c = CubeTexture::from_data(&[], &d1, &inf, Endian::Little).unwrap();
    assert_eq!(c.faces.len(), 6);
    assert_eq!(c.faces[5], d1[80..96].to_vec());
    let inf = info(10, 64, 64, 1);
    let d1 = bytes(6 * 16384, 2);
    let c = CubeTexture::from_data(&[], &d1, &inf, Endian::Big).unwrap();
    assert_eq!(c.faces[2], conv_img(&d1[32768..49152], 64, 64, 10).unwrap().0);
    assert!(matches!(CubeTexture::from_data(&[], &d1[..1000], &inf, Endian::Big), Err(CodecError::OutOfBounds)));
    let inf = info(10, 64, 64, 2);
    assert!(matches!(CubeTexture::from_data(&[], &d1, &inf, Endian::Big), Err(CodecError::Malformed)));
}

#[test]
fn texture_dump_blocks() {
    let t = Texture { levels: vec![vec![1, 2], vec![3], vec![4, 5]], format: 3, kind: 0 };
    assert_eq!(t.dump(Endian::Little), Some((vec![1, 2], vec![3, 4, 5])));
    assert_eq!(t.dump(Endian::Big), Some((vec![], vec![])));
    let t = Texture { levels: vec![vec![1, 2]], format: 10, kind: 0 };
    assert_eq!(t.dump(Endian::Little), Some((vec![], vec![1, 2])));
    let t = Texture { levels: vec![vec![1], vec![2]], format: 5, kind: 0 };
    assert_eq!(t.dump(Endian::Little), Some((vec![1], vec![2])));
    let t = Texture { levels: vec![vec![1]], format: 5, kind: 0 };
    assert_eq!(t.dump(Endian::Little), None);
    let c = Tex::CubeTexture(CubeTexture { faces: vec![vec![1], vec![2, 3]], format: 7, kind: 1 });
    assert_eq!(c.dump(Endian::Little), Some((vec![], vec![1, 2, 3])));
}

#[test]
fn radiosity_words() {
    let r = Radiosity::from_data(&[1, 0, 0, 0, 0, 0, 0, 2, 9], Endian::Little);
    assert_eq!(r.data, vec![1, 0x0200_0000]);
    assert_eq!(r.dump(Endian::Big), vec![0, 0, 0, 1, 2, 0, 0, 0]);
}
