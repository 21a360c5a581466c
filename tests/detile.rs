use lotrc::codec::CodecError;
use lotrc::bin::{bin_mip, conv_img, detile_surface, get_stride_width, xg_address2d_tiled_xy, CubeTexture, Tex, Texture};

#[test]
fn stride_widths() {
    assert_eq!(get_stride_width(10), Some((4, 16)));
    assert_eq!(get_stride_width(0x11), Some((4, 16)));
    assert_eq!(get_stride_width(7), Some((4, 8)));
    assert_eq!(get_stride_width(13), Some((4, 8)));
    assert_eq!(get_stride_width(3), Some((1, 4)));
    assert_eq!(get_stride_width(6), Some((1, 1)));
    assert_eq!(get_stride_width(5), None);
}

#[test]
fn tiled_addresses_of_first_blocks() {
    let got: Vec<(u64, u64)> = (0..8).map(|i| xg_address2d_tiled_xy(i, 32, 16)).collect();
    assert_eq!(got, vec![(0, 0), (0, 1), (1, 0), (1, 1), (8, 0), (8, 1), (9, 0), (9, 1)]);
}

fn retile(lin: &[u8], wc: usize, hc: usize) -> Vec<u8> {
    let d = 16;
    let mut t = vec![0u8; 32 * 32 * d];
    for i in 0..1024usize {
        let (x, y) = xg_address2d_tiled_xy(i as u32, 32, 16);
        let (x, y) = (x as usize, y as usize);
        if x < wc && y < hc {
            let j = y * wc + x;
            t[i * d..(i + 1) * d].copy_from_slice(&lin[j * d..(j + 1) * d]);
        }
    }
    for c in t.chunks_mut(2) {
        c.swap(0, 1);
    }
    t
}

#[test]
fn detile_64x64_then_retile_reproduces() {
    let lin: Vec<u8> = (0..16 * 16 * 16).map(|i| (i * 7 % 251) as u8).collect();
    let tiled = retile(&lin, 16, 16);
    let (out, d, w, h) = conv_img(&tiled, 64, 64, 10).unwrap();
    assert_eq!((d, w, h), (16, 16, 16));
    assert_eq!(out, lin);
    assert_eq!(retile(&out, 16, 16), tiled);
}

#[test]
fn detile_every_tiled_block_lands_once() {
    let tiled: Vec<u8> = (0..32 * 32 * 16).map(|i| ((i / 16) % 256) as u8).collect();
    let (out, _, _, _) = conv_img(&tiled, 128, 128, 0x11).unwrap();
    assert_eq!(out.len(), 32 * 32 * 16);
    let mut seen = vec![false; 1024];
    for b in out.chunks(16) {
        assert!(b.iter().all(|x| *x == b[0]));
    }
    for i in 0..1024usize {
        let (x, y) = xg_address2d_tiled_xy(i as u32, 32, 16);
        let j = y as usize * 32 + x as usize;
        assert!(!seen[j]);
        seen[j] = true;
    }
}

#[test]
fn small_image_below_tile_minimum_is_flagged() {
    let data = vec![0u8; 2 * 2 * 16];
    assert!(matches!(conv_img(&data, 8, 8, 10), Err(CodecError::BelowTileMinimum)));
    let padded = vec![0u8; 32 * 32 * 16];
    assert!(matches!(conv_img(&padded, 8, 8, 10), Err(CodecError::BelowTileMinimum)));
    assert!(matches!(conv_img(&padded, 64, 16, 10), Err(CodecError::BelowTileMinimum)));
    // The whole padded surface can still be detiled as such.
    assert!(detile_surface(&padded, 8, 8, 10).is_some());
    // Uncompressed formats have no tile minimum.
    assert!(conv_img(&[0u8; 4], 1, 1, 3).is_ok());
}

#[test]
fn odd_length_is_flagged() {
    let data = vec![0u8; 32 * 32 * 8 + 1];
    assert!(matches!(conv_img(&data, 128, 128, 7), Err(CodecError::Malformed)));
}

#[test]
fn argb_bytes_are_reversed() {
    // One 32-bit texel per block, uncompressed and unpadded: a 1x1 image.
    let (out, d, w, h) = conv_img(&[1, 2, 3, 4], 1, 1, 3).unwrap();
    assert_eq!((d, w, h), (4, 1, 1));
    assert_eq!(out, vec![4, 3, 2, 1]);
}

#[test]
fn mip_sampling() {
    let arr: Vec<u8> = (0..16).collect();
    assert_eq!(bin_mip(&arr, 4), vec![3, 5, 11, 13]);
    let arr: Vec<u8> = (0..9).collect();
    assert_eq!(bin_mip(&arr, 3), vec![2, 4, 7, 8]);
    assert_eq!(bin_mip(&[255, 255, 255, 254], 2), vec![255]);
    assert_eq!(bin_mip(&[1, 2], 1), vec![2]);
}

#[test]
fn tex_kind_of_both_variants() {
    let t = Tex::Texture(Texture { levels: vec![], format: 3, kind: 7 });
    let c = Tex::CubeTexture(CubeTexture { faces: vec![], format: 3, kind: 9 });
    assert_eq!(t.kind(), 7);
    assert_eq!(c.kind(), 9);
}

#[test]
fn mip_sampling_ragged_last_row() {
    // Two full rows of 4 and a short row of 3: the short row is an even row,
    // so it gives a short output row of two texels.
    let arr: Vec<u8> = vec![0, 4, 8, 12, 4, 8, 12, 16, 100, 100, 40];
    assert_eq!(bin_mip(&arr, 4), vec![4, 12, 100, 40]);
    // A short row at an odd index is covered by the box of the row above,
    // where it exists.
    let arr: Vec<u8> = vec![0, 0, 0, 0, 8, 8];
    assert_eq!(bin_mip(&arr, 4), vec![4, 0]);
}
