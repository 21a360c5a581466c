//! The index (BIN) file's records, and the texture detiler that turns
//! tile-swizzled console pixel data into row-major data.
use vstd::prelude::*;
#[allow(unused_imports)]
use crate::codec::{lemma_i32_bits, Cell, Endian, OrderedData, Prim};
#[allow(unused_imports)]
use crate::types::{crc_resolved, Crc, StringTable};
#[allow(unused_imports)]
use crate::codec::CodecError;
#[allow(unused_imports)]
use crate::pak::TextureInfo;
#[allow(unused_imports)]
use crate::codec::{dump_bytes_vec, from_bytes_vec, spec_dump_seq, spec_read};
#[allow(unused_imports)]
use vstd::slice::{slice_subrange, slice_to_vec};

verus! {

/// Header of the index (BIN) file.
#[derive(Debug, Clone, Copy, PartialEq)]
pub struct Header {
    pub constx06: u32,
    pub version: u32,
    pub strings_offset: u32,
    pub strings_size: u32,
    pub strings_num: u32,
    pub asset_handle_num: u32,
    pub asset_handle_offset: u32,
    pub unk_7: u32,
    pub unk_8: u32,
    pub unk_9: u32,
    pub unk_10: u32,
    pub unk_11: u32,
    pub unk_12: u32,
    pub unk_13: u32,
    pub unk_14: u32,
    pub unk_15: u32,
    pub unk_16: u32,
    pub unk_17: u32,
    pub unk_18: u32,
    pub unk_19: u32,
    pub unk_20: u32,
    pub unk_21: u32,
    pub unk_22: u32,
    pub unk_23: u32,
    pub unk_24: u32,
    pub unk_25: u32,
    pub unk_26: u32,
    pub unk_27: u32,
    pub unk_28: u32,
    pub unk_29: u32,
    pub unk_30: u32,
    pub unk_31: u32,
    pub unk_32: u32,
    pub unk_33: u32,
    pub unk_34: u32,
    pub unk_35: u32,
    pub unk_36: u32,
    pub unk_37: u32,
    pub unk_38: u32,
    pub unk_39: u32,
    pub unk_40: u32,
    pub unk_41: u32,
    pub unk_42: u32,
}

impl OrderedData for Header {
    open spec fn spec_layout(o: Endian) -> Seq<Cell> {
        seq![
            Cell { prim: Prim::U32, endian: o },
            Cell { prim: Prim::U32, endian: o },
            Cell { prim: Prim::U32, endian: o },
            Cell { prim: Prim::U32, endian: o },
            Cell { prim: Prim::U32, endian: o },
            Cell { prim: Prim::U32, endian: o },
            Cell { prim: Prim::U32, endian: o },
            Cell { prim: Prim::U32, endian: o },
            Cell { prim: Prim::U32, endian: o },
            Cell { prim: Prim::U32, endian: o },
            Cell { prim: Prim::U32, endian: o },
            Cell { prim: Prim::U32, endian: o },
            Cell { prim: Prim::U32, endian: o },
            Cell { prim: Prim::U32, endian: o },
            Cell { prim: Prim::U32, endian: o },
            Cell { prim: Prim::U32, endian: o },
            Cell { prim: Prim::U32, endian: o },
            Cell { prim: Prim::U32, endian: o },
            Cell { prim: Prim::U32, endian: o },
            Cell { prim: Prim::U32, endian: o },
            Cell { prim: Prim::U32, endian: o },
            Cell { prim: Prim::U32, endian: o },
            Cell { prim: Prim::U32, endian: o },
            Cell { prim: Prim::U32, endian: o },
            Cell { prim: Prim::U32, endian: o },
            Cell { prim: Prim::U32, endian: o },
            Cell { prim: Prim::U32, endian: o },
            Cell { prim: Prim::U32, endian: o },
            Cell { prim: Prim::U32, endian: o },
            Cell { prim: Prim::U32, endian: o },
            Cell { prim: Prim::U32, endian: o },
            Cell { prim: Prim::U32, endian: o },
            Cell { prim: Prim::U32, endian: o },
            Cell { prim: Prim::U32, endian: o },
            Cell { prim: Prim::U32, endian: o },
            Cell { prim: Prim::U32, endian: o },
            Cell { prim: Prim::U32, endian: o },
            Cell { prim: Prim::U32, endian: o },
            Cell { prim: Prim::U32, endian: o },
            Cell { prim: Prim::U32, endian: o },
            Cell { prim: Prim::U32, endian: o },
            Cell { prim: Prim::U32, endian: o },
            Cell { prim: Prim::U32, endian: o },
        ]
    }

    open spec fn spec_cells(&self, o: Endian) -> Seq<u64> {
        seq![
            self.constx06 as u64,
            self.version as u64,
            self.strings_offset as u64,
            self.strings_size as u64,
            self.strings_num as u64,
            self.asset_handle_num as u64,
            self.asset_handle_offset as u64,
            self.unk_7 as u64,
            self.unk_8 as u64,
            self.unk_9 as u64,
            self.unk_10 as u64,
            self.unk_11 as u64,
            self.unk_12 as u64,
            self.unk_13 as u64,
            self.unk_14 as u64,
            self.unk_15 as u64,
            self.unk_16 as u64,
            self.unk_17 as u64,
            self.unk_18 as u64,
            self.unk_19 as u64,
            self.unk_20 as u64,
            self.unk_21 as u64,
            self.unk_22 as u64,
            self.unk_23 as u64,
            self.unk_24 as u64,
            self.unk_25 as u64,
            self.unk_26 as u64,
            self.unk_27 as u64,
            self.unk_28 as u64,
            self.unk_29 as u64,
            self.unk_30 as u64,
            self.unk_31 as u64,
            self.unk_32 as u64,
            self.unk_33 as u64,
            self.unk_34 as u64,
            self.unk_35 as u64,
            self.unk_36 as u64,
            self.unk_37 as u64,
            self.unk_38 as u64,
            self.unk_39 as u64,
            self.unk_40 as u64,
            self.unk_41 as u64,
            self.unk_42 as u64,
        ]
    }

    open spec fn spec_from_cells(c: Seq<u64>, o: Endian) -> Self {
        Header {
            constx06: c[0] as u32,
            version: c[1] as u32,
            strings_offset: c[2] as u32,
            strings_size: c[3] as u32,
            strings_num: c[4] as u32,
            asset_handle_num: c[5] as u32,
            asset_handle_offset: c[6] as u32,
            unk_7: c[7] as u32,
            unk_8: c[8] as u32,
            unk_9: c[9] as u32,
            unk_10: c[10] as u32,
            unk_11: c[11] as u32,
            unk_12: c[12] as u32,
            unk_13: c[13] as u32,
            unk_14: c[14] as u32,
            unk_15: c[15] as u32,
            unk_16: c[16] as u32,
            unk_17: c[17] as u32,
            unk_18: c[18] as u32,
            unk_19: c[19] as u32,
            unk_20: c[20] as u32,
            unk_21: c[21] as u32,
            unk_22: c[22] as u32,
            unk_23: c[23] as u32,
            unk_24: c[24] as u32,
            unk_25: c[25] as u32,
            unk_26: c[26] as u32,
            unk_27: c[27] as u32,
            unk_28: c[28] as u32,
            unk_29: c[29] as u32,
            unk_30: c[30] as u32,
            unk_31: c[31] as u32,
            unk_32: c[32] as u32,
            unk_33: c[33] as u32,
            unk_34: c[34] as u32,
            unk_35: c[35] as u32,
            unk_36: c[36] as u32,
            unk_37: c[37] as u32,
            unk_38: c[38] as u32,
            unk_39: c[39] as u32,
            unk_40: c[40] as u32,
            unk_41: c[41] as u32,
            unk_42: c[42] as u32,
        }
    }

    open spec fn spec_values(&self) -> Seq<u64> {
        seq![
            self.constx06 as u64,
            self.version as u64,
            self.strings_offset as u64,
            self.strings_size as u64,
            self.strings_num as u64,
            self.asset_handle_num as u64,
            self.asset_handle_offset as u64,
            self.unk_7 as u64,
            self.unk_8 as u64,
            self.unk_9 as u64,
            self.unk_10 as u64,
            self.unk_11 as u64,
            self.unk_12 as u64,
            self.unk_13 as u64,
            self.unk_14 as u64,
            self.unk_15 as u64,
            self.unk_16 as u64,
            self.unk_17 as u64,
            self.unk_18 as u64,
            self.unk_19 as u64,
            self.unk_20 as u64,
            self.unk_21 as u64,
            self.unk_22 as u64,
            self.unk_23 as u64,
            self.unk_24 as u64,
            self.unk_25 as u64,
            self.unk_26 as u64,
            self.unk_27 as u64,
            self.unk_28 as u64,
            self.unk_29 as u64,
            self.unk_30 as u64,
            self.unk_31 as u64,
            self.unk_32 as u64,
            self.unk_33 as u64,
            self.unk_34 as u64,
            self.unk_35 as u64,
            self.unk_36 as u64,
            self.unk_37 as u64,
            self.unk_38 as u64,
            self.unk_39 as u64,
            self.unk_40 as u64,
            self.unk_41 as u64,
            self.unk_42 as u64,
        ]
    }

    open spec fn spec_fits(&self, o: Endian) -> bool {
        true
    }

    fn layout(o: Endian) -> (r: Vec<Cell>) {
        vec![
            Cell { prim: Prim::U32, endian: o },
            Cell { prim: Prim::U32, endian: o },
            Cell { prim: Prim::U32, endian: o },
            Cell { prim: Prim::U32, endian: o },
            Cell { prim: Prim::U32, endian: o },
            Cell { prim: Prim::U32, endian: o },
            Cell { prim: Prim::U32, endian: o },
            Cell { prim: Prim::U32, endian: o },
            Cell { prim: Prim::U32, endian: o },
            Cell { prim: Prim::U32, endian: o },
            Cell { prim: Prim::U32, endian: o },
            Cell { prim: Prim::U32, endian: o },
            Cell { prim: Prim::U32, endian: o },
            Cell { prim: Prim::U32, endian: o },
            Cell { prim: Prim::U32, endian: o },
            Cell { prim: Prim::U32, endian: o },
            Cell { prim: Prim::U32, endian: o },
            Cell { prim: Prim::U32, endian: o },
            Cell { prim: Prim::U32, endian: o },
            Cell { prim: Prim::U32, endian: o },
            Cell { prim: Prim::U32, endian: o },
            Cell { prim: Prim::U32, endian: o },
            Cell { prim: Prim::U32, endian: o },
            Cell { prim: Prim::U32, endian: o },
            Cell { prim: Prim::U32, endian: o },
            Cell { prim: Prim::U32, endian: o },
            Cell { prim: Prim::U32, endian: o },
            Cell { prim: Prim::U32, endian: o },
            Cell { prim: Prim::U32, endian: o },
            Cell { prim: Prim::U32, endian: o },
            Cell { prim: Prim::U32, endian: o },
            Cell { prim: Prim::U32, endian: o },
            Cell { prim: Prim::U32, endian: o },
            Cell { prim: Prim::U32, endian: o },
            Cell { prim: Prim::U32, endian: o },
            Cell { prim: Prim::U32, endian: o },
            Cell { prim: Prim::U32, endian: o },
            Cell { prim: Prim::U32, endian: o },
            Cell { prim: Prim::U32, endian: o },
            Cell { prim: Prim::U32, endian: o },
            Cell { prim: Prim::U32, endian: o },
            Cell { prim: Prim::U32, endian: o },
            Cell { prim: Prim::U32, endian: o },
        ]
    }

    fn to_cells(&self, o: Endian) -> (r: Vec<u64>) {
        vec![
            self.constx06 as u64,
            self.version as u64,
            self.strings_offset as u64,
            self.strings_size as u64,
            self.strings_num as u64,
            self.asset_handle_num as u64,
            self.asset_handle_offset as u64,
            self.unk_7 as u64,
            self.unk_8 as u64,
            self.unk_9 as u64,
            self.unk_10 as u64,
            self.unk_11 as u64,
            self.unk_12 as u64,
            self.unk_13 as u64,
            self.unk_14 as u64,
            self.unk_15 as u64,
            self.unk_16 as u64,
            self.unk_17 as u64,
            self.unk_18 as u64,
            self.unk_19 as u64,
            self.unk_20 as u64,
            self.unk_21 as u64,
            self.unk_22 as u64,
            self.unk_23 as u64,
            self.unk_24 as u64,
            self.unk_25 as u64,
            self.unk_26 as u64,
            self.unk_27 as u64,
            self.unk_28 as u64,
            self.unk_29 as u64,
            self.unk_30 as u64,
            self.unk_31 as u64,
            self.unk_32 as u64,
            self.unk_33 as u64,
            self.unk_34 as u64,
            self.unk_35 as u64,
            self.unk_36 as u64,
            self.unk_37 as u64,
            self.unk_38 as u64,
            self.unk_39 as u64,
            self.unk_40 as u64,
            self.unk_41 as u64,
            self.unk_42 as u64,
        ]
    }

    fn from_cells(c: &Vec<u64>, o: Endian) -> (r: Self) {
        Header {
            constx06: c[0] as u32,
            version: c[1] as u32,
            strings_offset: c[2] as u32,
            strings_size: c[3] as u32,
            strings_num: c[4] as u32,
            asset_handle_num: c[5] as u32,
            asset_handle_offset: c[6] as u32,
            unk_7: c[7] as u32,
            unk_8: c[8] as u32,
            unk_9: c[9] as u32,
            unk_10: c[10] as u32,
            unk_11: c[11] as u32,
            unk_12: c[12] as u32,
            unk_13: c[13] as u32,
            unk_14: c[14] as u32,
            unk_15: c[15] as u32,
            unk_16: c[16] as u32,
            unk_17: c[17] as u32,
            unk_18: c[18] as u32,
            unk_19: c[19] as u32,
            unk_20: c[20] as u32,
            unk_21: c[21] as u32,
            unk_22: c[22] as u32,
            unk_23: c[23] as u32,
            unk_24: c[24] as u32,
            unk_25: c[25] as u32,
            unk_26: c[26] as u32,
            unk_27: c[27] as u32,
            unk_28: c[28] as u32,
            unk_29: c[29] as u32,
            unk_30: c[30] as u32,
            unk_31: c[31] as u32,
            unk_32: c[32] as u32,
            unk_33: c[33] as u32,
            unk_34: c[34] as u32,
            unk_35: c[35] as u32,
            unk_36: c[36] as u32,
            unk_37: c[37] as u32,
            unk_38: c[38] as u32,
            unk_39: c[39] as u32,
            unk_40: c[40] as u32,
            unk_41: c[41] as u32,
            unk_42: c[42] as u32,
        }
    }

    open spec fn spec_keys_resolved(&self, m: Map<u32, Seq<char>>) -> bool {
        true
    }

    #[verifier::rlimit(100)]
    #[verifier::spinoff_prover]
    fn resolved(&self, table: &StringTable) -> (r: Self) {
        *self
    }

    proof fn lemma_layout_small(o: Endian) {
    }

    #[verifier::rlimit(100)]
    #[verifier::spinoff_prover]
    proof fn lemma_cells(&self, o: Endian) {
    }
}

/// Where an asset's compressed block lies in the index file, keyed by symbolic key and kind.
#[derive(Debug, Clone, PartialEq)]
pub struct AssetHandle {
    pub key: Crc,
    pub offset: u32,
    pub size: u32,
    pub size_comp: u32,
    pub kind: u32,
}

impl OrderedData for AssetHandle {
    open spec fn spec_layout(o: Endian) -> Seq<Cell> {
        seq![
            Cell { prim: Prim::U32, endian: o },
            Cell { prim: Prim::U32, endian: o },
            Cell { prim: Prim::U32, endian: o },
            Cell { prim: Prim::U32, endian: o },
            Cell { prim: Prim::U32, endian: o },
        ]
    }

    open spec fn spec_cells(&self, o: Endian) -> Seq<u64> {
        seq![
            self.key.spec_key() as u64,
            self.offset as u64,
            self.size as u64,
            self.size_comp as u64,
            self.kind as u64,
        ]
    }

    open spec fn spec_from_cells(c: Seq<u64>, o: Endian) -> Self {
        AssetHandle {
            key: Crc::Key(c[0] as u32),
            offset: c[1] as u32,
            size: c[2] as u32,
            size_comp: c[3] as u32,
            kind: c[4] as u32,
        }
    }

    open spec fn spec_values(&self) -> Seq<u64> {
        seq![
            self.key.spec_key() as u64,
            self.offset as u64,
            self.size as u64,
            self.size_comp as u64,
            self.kind as u64,
        ]
    }

    open spec fn spec_fits(&self, o: Endian) -> bool {
        true
    }

    fn layout(o: Endian) -> (r: Vec<Cell>) {
        vec![
            Cell { prim: Prim::U32, endian: o },
            Cell { prim: Prim::U32, endian: o },
            Cell { prim: Prim::U32, endian: o },
            Cell { prim: Prim::U32, endian: o },
            Cell { prim: Prim::U32, endian: o },
        ]
    }

    fn to_cells(&self, o: Endian) -> (r: Vec<u64>) {
        vec![
            self.key.key() as u64,
            self.offset as u64,
            self.size as u64,
            self.size_comp as u64,
            self.kind as u64,
        ]
    }

    fn from_cells(c: &Vec<u64>, o: Endian) -> (r: Self) {
        AssetHandle {
            key: Crc::Key(c[0] as u32),
            offset: c[1] as u32,
            size: c[2] as u32,
            size_comp: c[3] as u32,
            kind: c[4] as u32,
        }
    }

    open spec fn spec_keys_resolved(&self, m: Map<u32, Seq<char>>) -> bool {
        crc_resolved(self.key, m)
    }

    fn resolved(&self, table: &StringTable) -> (r: Self) {
        AssetHandle {
            key: Crc::resolve(self.key.key(), table),
            offset: self.offset,
            size: self.size,
            size_comp: self.size_comp,
            kind: self.kind,
        }
    }

    proof fn lemma_layout_small(o: Endian) {
    }

    proof fn lemma_cells(&self, o: Endian) {
    }
}


/// `(texels per block side, bytes per block)` of a texture format that the
/// detiler handles.
pub open spec fn stride_width(format: u32) -> Option<(u32, u32)> {
    if format == 10 || format == 0xb || format == 0xc || format == 0x11 {
        Some((4, 16))
    } else if format == 7 || format == 8 || format == 13 {
        Some((4, 8))
    } else if format == 3 {
        Some((1, 4))
    } else if format == 6 {
        Some((1, 1))
    } else {
        None
    }
}

/// The block geometry of a texture format: `(texels per block side, bytes per
/// block)`, or nothing for a format the detiler does not handle.
pub fn get_stride_width(format: u32) -> (r: Option<(u32, u32)>)
    ensures
        r == stride_width(format),
{
    match format {
        10 | 0xb | 0xc | 0x11 => Some((4, 16)),
        7 | 8 | 13 => Some((4, 8)),
        3 => Some((1, 4)),
        6 => Some((1, 1)),
        _ => None,
    }
}

/// The linear `(x, y)` block coordinates of the block at `offset` in tiled
/// storage of a surface `width` blocks wide, with `texel_pitch` bytes per block.
pub open spec fn tiled_xy(offset: u32, width: u32, texel_pitch: u32) -> (u64, u64) {
    (tiled_x(offset, width, texel_pitch), tiled_y(offset, width, texel_pitch))
}

pub open spec fn log_bpp(texel_pitch: u32) -> u32 {
    ((texel_pitch >> 2u32) + ((texel_pitch >> 1u32) >> (texel_pitch >> 2u32))) as u32
}

/// The offset within the tiled surface once the block offset is turned into
/// bytes and its bank bits are folded.
pub open spec fn tiled_offset_t(offset: u32, texel_pitch: u32) -> u32 {
    let offset_b = offset << log_bpp(texel_pitch);
    (((offset_b & !4095u32) >> 3u32) + ((offset_b & 1792u32) >> 2u32) + (offset_b & 63u32)) as u32
}

/// The x block coordinate of tiled block `offset`.
pub open spec fn tiled_x(offset: u32, width: u32, texel_pitch: u32) -> u64 {
    let aligned_width = ((width + 31) as u32) & !31u32;
    let lb = log_bpp(texel_pitch);
    let offset_b = offset << lb;
    let offset_t = tiled_offset_t(offset, texel_pitch);
    let offset_m = offset_t >> ((7 + lb) as u32);
    let macro_x0 = (offset_m % (aligned_width >> 5u32)) << 2u32;
    let tile_x = ((((offset_t >> ((5 + lb) as u32)) & 2u32) + (offset_b >> 6u32)) as u32) & 3u32;
    let macro_x = ((macro_x0 + tile_x) as u32) << 3u32;
    let micro_x = (((((offset_t >> 1u32) & !15u32) + (offset_t & 15u32)) as u32) & (((texel_pitch
        << 3u32) - 1) as u32)) >> lb;
    (macro_x as u64 + micro_x as u64) as u64
}

/// The y block coordinate of tiled block `offset`.
pub open spec fn tiled_y(offset: u32, width: u32, texel_pitch: u32) -> u64 {
    let aligned_width = ((width + 31) as u32) & !31u32;
    let lb = log_bpp(texel_pitch);
    let offset_b = offset << lb;
    let offset_t = tiled_offset_t(offset, texel_pitch);
    let offset_m = offset_t >> ((7 + lb) as u32);
    let macro_y0 = (offset_m / (aligned_width >> 5u32)) << 2u32;
    let tile_y = (((offset_t >> ((6 + lb) as u32)) & 1u32) + ((offset_b & 2048u32) >> 10u32)) as u32;
    let macro_y = ((macro_y0 + tile_y) as u32) << 3u32;
    let micro_y = ((((offset_t & ((((texel_pitch << 6u32) - 1) as u32) & !31u32)) + ((offset_t
        & 15u32) << 1u32)) as u32) >> ((3 + lb) as u32)) & !1u32;
    (macro_y as u64 + micro_y as u64 + ((offset_t & 16u32) >> 4u32) as u64) as u64
}

/// A block size that the detiler uses: 1, 4, 8 or 16 bytes.
pub open spec fn valid_pitch(texel_pitch: u32) -> bool {
    texel_pitch == 1 || texel_pitch == 4 || texel_pitch == 8 || texel_pitch == 16
}

/// Maps the block at `offset` of tiled storage to its `(x, y)` block
/// coordinates in row-major storage.
pub fn xg_address2d_tiled_xy(offset: u32, width: u32, texel_pitch: u32) -> (r: (u64, u64))
    requires
        1 <= width <= 0xffff_ffe0,
        valid_pitch(texel_pitch),
    ensures
        r == tiled_xy(offset, width, texel_pitch),
{
    let aligned_width = (width + 31) & !31u32;
    assert(aligned_width >> 5u32 >= 1) by (bit_vector)
        requires
            aligned_width == ((width + 31) as u32) & !31u32,
            1 <= width <= 0xffff_ffe0,
    ;
    let quarter = texel_pitch >> 2u32;
    let half = texel_pitch >> 1u32;
    assert(quarter <= 4 && half <= 8) by (bit_vector)
        requires
            quarter == texel_pitch >> 2u32,
            half == texel_pitch >> 1u32,
            texel_pitch == 1 || texel_pitch == 4 || texel_pitch == 8 || texel_pitch == 16,
    ;
    let extra = half >> quarter;
    assert(extra <= 8 && (texel_pitch << 3u32) >= 8 && (texel_pitch << 6u32) >= 64) by (bit_vector)
        requires
            extra == half >> quarter,
            half <= 8,
            texel_pitch == 1 || texel_pitch == 4 || texel_pitch == 8 || texel_pitch == 16,
    ;
    let log_bpp = quarter + extra;
    assert(log_bpp <= 4) by (bit_vector)
        requires
            log_bpp == (texel_pitch >> 2u32) + ((texel_pitch >> 1u32) >> (texel_pitch >> 2u32)),
            texel_pitch == 1 || texel_pitch == 4 || texel_pitch == 8 || texel_pitch == 16,
    ;
    let offset_b = offset << log_bpp;
    let a = (offset_b & !4095u32) >> 3u32;
    let b = (offset_b & 1792u32) >> 2u32;
    let c = offset_b & 63u32;
    assert(a <= 0x2000_0000 && b <= 448 && c <= 63) by (bit_vector)
        requires
            a == (offset_b & !4095u32) >> 3u32,
            b == (offset_b & 1792u32) >> 2u32,
            c == offset_b & 63u32,
    ;
    let offset_t = a + b + c;
    let offset_m = offset_t >> (7 + log_bpp);
    let q = offset_m % (aligned_width >> 5u32);
    let macro_x0 = q << 2u32;
    let t1 = (offset_t >> (5 + log_bpp)) & 2u32;
    let t2 = offset_b >> 6u32;
    assert(t1 <= 2 && macro_x0 <= 0xffff_fffc) by (bit_vector)
        requires
            t1 == (offset_t >> (5 + log_bpp)) & 2u32,
            macro_x0 == q << 2u32,
    ;
    assert(t2 <= 0x0400_0000) by (bit_vector)
        requires
            t2 == offset_b >> 6u32,
    ;
    let tile_x = (t1 + t2) & 3u32;
    assert(tile_x <= 3) by (bit_vector)
        requires
            tile_x == ((t1 + t2) as u32) & 3u32,
    ;
    let macro_x = (macro_x0 + tile_x) << 3u32;
    let m1 = (offset_t >> 1u32) & !15u32;
    let m2 = offset_t & 15u32;
    assert(m1 <= 0x7fff_fff0 && m2 <= 15) by (bit_vector)
        requires
            m1 == (offset_t >> 1u32) & !15u32,
            m2 == offset_t & 15u32,
    ;
    let micro_x = ((m1 + m2) & ((texel_pitch << 3u32) - 1)) >> log_bpp;
    let macro_y0 = (offset_m / (aligned_width >> 5u32)) << 2u32;
    let y1 = (offset_t >> (6 + log_bpp)) & 1u32;
    let y2 = (offset_b & 2048u32) >> 10u32;
    assert(y1 <= 1 && y2 <= 2 && macro_y0 <= 0xffff_fffc) by (bit_vector)
        requires
            y1 == (offset_t >> (6 + log_bpp)) & 1u32,
            y2 == (offset_b & 2048u32) >> 10u32,
            macro_y0 == (offset_m / (aligned_width >> 5u32)) << 2u32,
    ;
    let tile_y = y1 + y2;
    let macro_y = (macro_y0 + tile_y) << 3u32;
    let n1 = offset_t & (((texel_pitch << 6u32) - 1) & !31u32);
    let n2 = (offset_t & 15u32) << 1u32;
    assert(n1 <= 1023 && n2 <= 30) by (bit_vector)
        requires
            n1 == offset_t & ((((texel_pitch << 6u32) - 1) as u32) & !31u32),
            n2 == (offset_t & 15u32) << 1u32,
            texel_pitch == 1 || texel_pitch == 4 || texel_pitch == 8 || texel_pitch == 16,
    ;
    let micro_y = ((n1 + n2) >> (3 + log_bpp)) & !1u32;
    let x = macro_x as u64 + micro_x as u64;
    let y = macro_y as u64 + micro_y as u64 + ((offset_t & 16u32) >> 4u32) as u64;
    (x, y)
}


/// Formats whose console storage swaps the bytes of each 16-bit word.
pub open spec fn swaps_words(f: u32) -> bool {
    f == 10 || f == 0xb || f == 0xc || f == 0x11 || f == 7 || f == 8 || f == 13
}

/// Compressed formats, whose tiled storage is padded to at least 32 blocks a side.
pub open spec fn padded_format(f: u32) -> bool {
    f == 7 || f == 8 || f == 10 || f == 0xb || f == 0xc || f == 0x11
}

/// The size of the groups whose bytes console storage holds in reverse order.
pub open spec fn swap_unit(f: u32) -> nat {
    if swaps_words(f) {
        2
    } else if f == 3 {
        4
    } else {
        1
    }
}

/// Texels per block side of format `f` as the detiler sees it.
pub open spec fn block_side(f: u32) -> nat {
    if swaps_words(f) {
        4
    } else {
        1
    }
}

/// Bytes per block of format `f` as the detiler sees it.
pub open spec fn block_bytes(f: u32) -> nat {
    if f == 10 || f == 0xb || f == 0xc || f == 0x11 {
        16
    } else if f == 7 || f == 8 || f == 13 {
        8
    } else if f == 3 {
        4
    } else {
        1
    }
}

/// The side length of tiled storage for a side of `n` blocks.
pub open spec fn padded_side(f: u32, n: nat) -> nat {
    if padded_format(f) && n < 32 {
        32
    } else {
        n
    }
}

/// `data` with the bytes of each group of `u` reversed.
pub open spec fn swapped(data: Seq<u8>, u: nat) -> Seq<u8> {
    Seq::new(data.len(), |i: int| data[i - i % (u as int) + (u - 1 - i % (u as int))])
}

/// Row-major blocks after the first `n` blocks of tiled storage `src` have been
/// placed: an image `wc` by `hc` blocks of `d` bytes, cut from tiled storage
/// `w` blocks wide. Blocks that land outside the image are dropped.
pub open spec fn detile_upto(src: Seq<u8>, n: nat, wc: nat, hc: nat, w: nat, d: nat) -> Seq<u8>
    decreases n,
{
    if n == 0 {
        Seq::new(wc * hc * d, |q: int| 0u8)
    } else {
        let prev = detile_upto(src, (n - 1) as nat, wc, hc, w, d);
        let xy = tiled_xy((n - 1) as u32, w as u32, d as u32);
        if xy.0 < wc && xy.1 < hc {
            let j = xy.1 * wc + xy.0;
            Seq::new(
                prev.len(),
                |q: int|
                    if j * d <= q < j * d + d {
                        src[(n - 1) * d + (q - j * d)]
                    } else {
                        prev[q]
                    },
            )
        } else {
            prev
        }
    }
}

proof fn lemma_detile_len(src: Seq<u8>, n: nat, wc: nat, hc: nat, w: nat, d: nat)
    ensures
        detile_upto(src, n, wc, hc, w, d).len() == wc * hc * d,
    decreases n,
{
    if n > 0 {
        lemma_detile_len(src, (n - 1) as nat, wc, hc, w, d);
    }
}

/// What `detile_surface` makes of console data `data` of an image `width` by
/// `height` texels in format `f`: the row-major blocks, the bytes per block,
/// and the width and height in blocks; nothing when the buffer does not hold
/// the whole swapped, tiled surface.
pub open spec fn detiled_image(data: Seq<u8>, height: nat, width: nat, f: u32) -> Option<
    (Seq<u8>, nat, nat, nat),
> {
    let s = block_side(f);
    let d = block_bytes(f);
    let wc = width / s;
    let hc = height / s;
    let w = padded_side(f, wc);
    let h = padded_side(f, hc);
    if data.len() % swap_unit(f) == 0 && h * w * d <= usize::MAX && h * w * d <= data.len() && w
        <= 0xffff_ffe0 {
        Some((detile_upto(swapped(data, swap_unit(f)), h * w, wc, hc, w, d), d, wc, hc))
    } else {
        None
    }
}

fn swap_bytes(data: &[u8], unit: usize) -> (r: Vec<u8>)
    requires
        unit == 1 || unit == 2 || unit == 4,
        data@.len() % (unit as nat) == 0,
    ensures
        r@ == swapped(data@, unit as nat),
{
    let mut r: Vec<u8> = Vec::new();
    let mut i: usize = 0;
    let n = data.len();
    while i < n
        invariant
            i <= n,
            n == data@.len(),
            unit == 1 || unit == 2 || unit == 4,
            data@.len() % (unit as nat) == 0,
            r@ =~= swapped(data@, unit as nat).take(i as int),
        decreases n - i,
    {
        let k = i % unit;
        assert(i - k + unit <= n) by {
            if unit == 2 {
                assert(i - i % 2 + 2 <= n);
            } else if unit == 4 {
                assert(i - i % 4 + 4 <= n);
            }
        }
        r.push(data[i - k + (unit - 1 - k)]);
        i = i + 1;
    }
    r
}

proof fn lemma_block_in(j: int, wc: int, hc: int, x: int, y: int, d: int)
    requires
        0 <= x < wc,
        0 <= y < hc,
        j == y * wc + x,
        d >= 0,
    ensures
        0 <= j * d,
        j * d + d <= wc * hc * d,
{
    assert(j <= hc * wc - 1) by (nonlinear_arith)
        requires
            0 <= x < wc,
            0 <= y < hc,
            j == y * wc + x,
    ;
    assert(j * d + d <= wc * hc * d) by (nonlinear_arith)
        requires
            j <= hc * wc - 1,
            d >= 0,
            j >= 0,
    ;
    assert(0 <= j * d) by (nonlinear_arith)
        requires
            j >= 0,
            d >= 0,
    ;
}

/// Detiles a whole tiled surface, whatever the size of the image cut from it:
/// undoes the format's byte swap, then moves each block from its tiled
/// position to its row-major one. Returns the pixels, the bytes per block,
/// and the width and height in blocks. Textures use it for the packed
/// surface of their small mip levels and for each face of a cube, where the
/// surface is known to be padded. Fails when the buffer does not hold the
/// whole tiled surface, which is padded to 32 blocks a side for compressed
/// formats, or when its length is not a whole number of swap groups.
pub fn detile_surface(data: &[u8], height: usize, width: usize, f: u32) -> (r: Option<
    (Vec<u8>, usize, usize, usize),
>)
    ensures
        match r {
            None => detiled_image(data@, height as nat, width as nat, f) is None,
            Some((out, d, w, h)) => detiled_image(data@, height as nat, width as nat, f) == Some(
                (out@, d as nat, w as nat, h as nat),
            ),
        },
{
    let (s, d, unit): (usize, usize, usize) = match f {
        10 | 0xb | 0xc | 0x11 => (4, 16, 2),
        7 | 8 | 13 => (4, 8, 2),
        3 => (1, 4, 4),
        _ => (1, 1, 1),
    };
    if data.len() % unit != 0 {
        return None;
    }
    let hc = height / s;
    let wc = width / s;
    let padded = f == 7 || f == 8 || f == 10 || f == 0xb || f == 0xc || f == 0x11;
    let h = if padded && hc < 32 {
        32
    } else {
        hc
    };
    let w = if padded && wc < 32 {
        32
    } else {
        wc
    };
    let hw = match h.checked_mul(w) {
        Some(v) => v,
        None => {
            assert(h * w * d > usize::MAX) by (nonlinear_arith)
                requires
                    h * w > usize::MAX,
                    d >= 1,
            ;
            return None;
        },
    };
    let total = match hw.checked_mul(d) {
        Some(v) => v,
        None => {
            return None;
        },
    };
    if data.len() < total || w > 0xffff_ffe0 {
        return None;
    }
    let src = swap_bytes(data, unit);
    assert(wc <= w && hc <= h);
    assert(wc * hc * d <= h * w * d) by (nonlinear_arith)
        requires
            wc <= w,
            hc <= h,
            d >= 1,
    ;
    assert(wc * hc <= h * w) by (nonlinear_arith)
        requires
            wc <= w,
            hc <= h,
    ;
    let wh = wc * hc;
    let out_len = wh * d;
    let mut out: Vec<u8> = Vec::new();
    let mut q: usize = 0;
    while q < out_len
        invariant
            q <= out_len,
            out@ =~= Seq::new(q as nat, |k: int| 0u8),
        decreases out_len - q,
    {
        out.push(0);
        q = q + 1;
    }
    let mut i: usize = 0;
    proof {
        lemma_detile_len(src@, 0, wc as nat, hc as nat, w as nat, d as nat);
        assert(out@ =~= detile_upto(src@, 0, wc as nat, hc as nat, w as nat, d as nat));
    }
    while i < hw
        invariant
            i <= hw,
            hw == h * w,
            total == hw * d,
            total <= src@.len(),
            src@.len() == data@.len(),
            w <= 0xffff_ffe0,
            d == 1 || d == 4 || d == 8 || d == 16,
            out_len == wc * hc * d,
            out@ == detile_upto(src@, i as nat, wc as nat, hc as nat, w as nat, d as nat),
            out@.len() == out_len,
        decreases hw - i,
    {
        assert(w >= 1) by (nonlinear_arith)
            requires
                i < hw,
                hw == h * w,
        ;
        assert(i * d + d <= total) by (nonlinear_arith)
            requires
                i < hw,
                total == hw * d,
        ;
        let ghost prev = out@;
        proof {
            lemma_detile_len(src@, (i + 1) as nat, wc as nat, hc as nat, w as nat, d as nat);
        }
        let (x, y) = xg_address2d_tiled_xy(i as u32, w as u32, d as u32);
        if x < wc as u64 && y < hc as u64 {
            proof {
                lemma_block_in(
                    y * wc + x,
                    wc as int,
                    hc as int,
                    x as int,
                    y as int,
                    d as int,
                );
                assert(y * wc + x <= y * wc + x + 0);
                assert(y * wc + x <= wc * hc) by (nonlinear_arith)
                    requires
                        x < wc,
                        y < hc,
                ;
            }
            let j = (y as usize) * wc + (x as usize);
            let base = j * d;
            let from = i * d;
            let mut k: usize = 0;
            while k < d
                invariant
                    k <= d,
                    base + d <= out_len,
                    from + d <= src@.len(),
                    from + d <= total,
                    out@.len() == out_len,
                    prev.len() == out_len,
                    out@ =~= Seq::new(
                        out_len as nat,
                        |q: int|
                            if base <= q < base + k {
                                src@[from + (q - base)]
                            } else {
                                prev[q]
                            },
                    ),
                decreases d - k,
            {
                out.set(base + k, src[from + k]);
                k = k + 1;
            }
        }
        i = i + 1;
    }
    Some((out, d, wc, hc))
}

/// An image of a padded (compressed) format smaller than the 32×32-texel tile
/// minimum: on console such an image shares a tiled surface with others and
/// cannot be detiled on its own.
pub open spec fn below_tile_minimum(height: nat, width: nat, f: u32) -> bool {
    padded_format(f) && (height < 32 || width < 32)
}

/// Detiles the console data of one image: undoes the format's byte swap, then
/// moves each block from its tiled position to its row-major one. Returns the
/// pixels, the bytes per block, and the width and height in blocks. An image
/// of a compressed format below the 32×32-texel tile minimum is flagged with
/// `BelowTileMinimum` and gives no pixels; a buffer that does not hold the
/// whole tiled surface, or is not a whole number of swap groups, is
/// `Malformed`.
pub fn conv_img(data: &[u8], height: usize, width: usize, f: u32) -> (r: Result<
    (Vec<u8>, usize, usize, usize),
    CodecError,
>)
    ensures
        match r {
            Ok((out, d, w, h)) => !below_tile_minimum(height as nat, width as nat, f)
                && detiled_image(data@, height as nat, width as nat, f) == Some(
                (out@, d as nat, w as nat, h as nat),
            ),
            Err(e) => if below_tile_minimum(height as nat, width as nat, f) {
                e == CodecError::BelowTileMinimum
            } else {
                e == CodecError::Malformed && detiled_image(data@, height as nat, width as nat, f) is None
            },
        },
{
    let padded = f == 7 || f == 8 || f == 10 || f == 0xb || f == 0xc || f == 0x11;
    if padded && (height < 32 || width < 32) {
        return Err(CodecError::BelowTileMinimum);
    }
    match detile_surface(data, height, width, f) {
        Some(v) => Ok(v),
        None => Err(CodecError::Malformed),
    }
}


/// The texel at column `xx`, row `yy` of an image `w` texels wide stored in
/// `arr`, whose last row may be short; where it does not exist, the texel in
/// the same column of row `y0`, or failing that the texel `(x0, y0)`.
pub open spec fn corner(arr: Seq<u8>, w: int, xx: int, yy: int, x0: int, y0: int) -> u8 {
    if yy * w + xx < arr.len() {
        arr[yy * w + xx]
    } else if y0 * w + xx < arr.len() {
        arr[y0 * w + xx]
    } else {
        arr[y0 * w + x0]
    }
}

/// The mean, rounded to nearest, of the 2×2 box of texels whose top-left
/// texel is column `2x`, row `2y`; at the right or bottom edge, and along a
/// short last row, the box is cut to the texels that exist.
pub open spec fn box_texel(arr: Seq<u8>, w: int, x: int, y: int) -> u8 {
    let x0 = 2 * x;
    let y0 = 2 * y;
    let x1 = if x0 + 1 < w {
        x0 + 1
    } else {
        x0
    };
    let y1 = y0 + 1;
    ((corner(arr, w, x0, y0, x0, y0) + corner(arr, w, x1, y0, x0, y0) + corner(arr, w, x0, y1, x0, y0)
        + corner(arr, w, x1, y1, x0, y0) + 2) / 4) as u8
}

/// The next smaller mip level of a one-byte-per-texel image `w` texels wide
/// whose last row may be short: each texel the 2×2 box mean of the texels it
/// covers, every second row and every second column, a short last row giving
/// a short last row.
pub open spec fn mip_sample(arr: Seq<u8>, w: nat) -> Seq<u8> {
    let hw = (w + 1) / 2;
    let full = arr.len() / w;
    let rem = arr.len() % w;
    let fr = (full + 1) / 2;
    let tail: nat = if full % 2 == 0 && rem > 0 {
        (rem + 1) / 2
    } else {
        0
    };
    Seq::new(
        fr * hw + tail,
        |q: int|
            if q < fr * hw {
                box_texel(arr, w as int, q % (hw as int), q / (hw as int))
            } else {
                box_texel(arr, w as int, q - fr * hw, fr as int)
            },
    )
}

fn box_at(arr: &[u8], w: usize, x: usize, y: usize) -> (r: u8)
    requires
        w > 0,
        2 * x < w,
        (2 * y) * w + 2 * x < arr@.len(),
    ensures
        r == box_texel(arr@, w as int, x as int, y as int),
{
    let n = arr.len();
    let x0 = 2 * x;
    assert(2 * y <= (2 * y) * w) by (nonlinear_arith)
        requires
            w > 0,
    ;
    let y0 = 2 * y;
    assert(y0 * w + x0 < n);
    let x1 = if x0 + 1 < w {
        x0 + 1
    } else {
        x0
    };
    assert(y0 * w <= y0 * w + x0);
    let row0 = y0 * w;
    let a = arr[row0 + x0] as u32;
    let b = if row0 + x1 < n {
        arr[row0 + x1]
    } else {
        arr[row0 + x0]
    } as u32;
    assert((y0 + 1) * w == y0 * w + w) by (nonlinear_arith);
    let left = n - row0;
    let c = if left > w && x0 < left - w {
        arr[row0 + w + x0]
    } else {
        arr[row0 + x0]
    } as u32;
    let d = if left > w && x1 < left - w {
        arr[row0 + w + x1]
    } else if row0 + x1 < n {
        arr[row0 + x1]
    } else {
        arr[row0 + x0]
    } as u32;
    ((a + b + c + d + 2) / 4) as u8
}

/// Builds the next smaller mip level of a one-byte-per-texel image `w` texels
/// wide, whose last row may be short, by 2×2 box sampling.
pub fn bin_mip(arr: &[u8], w: usize) -> (r: Vec<u8>)
    requires
        w > 0,
    ensures
        r@ == mip_sample(arr@, w as nat),
{
    let n = arr.len();
    let hw = w / 2 + w % 2;
    let full = n / w;
    let rem = n % w;
    let fr = full / 2 + full % 2;
    assert(hw == (w + 1) / 2 && fr == (full + 1) / 2);
    assert(full * w + rem == n) by {
        vstd::arithmetic::div_mod::lemma_fundamental_div_mod(n as int, w as int);
        assert(full * w == w * full) by (nonlinear_arith);
    }
    let mut r: Vec<u8> = Vec::new();
    let mut y: usize = 0;
    while y < fr
        invariant
            y <= fr,
            hw == (w + 1) / 2,
            fr == (full + 1) / 2,
            full * w + rem == n,
            rem < w,
            n == arr@.len(),
            w > 0,
            r@.len() == y * hw,
            forall|q: int|
                0 <= q < y * hw ==> #[trigger] r@[q] == box_texel(
                    arr@,
                    w as int,
                    q % (hw as int),
                    q / (hw as int),
                ),
        decreases fr - y,
    {
        let mut x: usize = 0;
        while x < hw
            invariant
                x <= hw,
                y < fr,
                hw == (w + 1) / 2,
                fr == (full + 1) / 2,
                full * w + rem == n,
                n == arr@.len(),
                w > 0,
                r@.len() == y * hw + x,
                forall|q: int|
                    0 <= q < y * hw + x ==> #[trigger] r@[q] == box_texel(
                        arr@,
                        w as int,
                        q % (hw as int),
                        q / (hw as int),
                    ),
            decreases hw - x,
        {
            assert(2 * y < full && 2 * x < w);
            assert((2 * y) * w + 2 * x < n) by (nonlinear_arith)
                requires
                    2 * y < full,
                    2 * x < w,
                    full * w + rem == n,
            ;
            let v = box_at(arr, w, x, y);
            r.push(v);
            proof {
                let q = y * hw + x;
                vstd::arithmetic::div_mod::lemma_fundamental_div_mod_converse(
                    q as int,
                    hw as int,
                    y as int,
                    x as int,
                );
            }
            x = x + 1;
        }
        assert((y + 1) * hw == y * hw + hw) by (nonlinear_arith);
        y = y + 1;
    }
    let ghost base = r@.len();
    if full % 2 == 0 && rem > 0 {
        let tl = rem / 2 + rem % 2;
        let mut x: usize = 0;
        while x < tl
            invariant
                x <= tl,
                tl == (rem + 1) / 2,
                fr == (full + 1) / 2,
                full % 2 == 0,
                full * w + rem == n,
                rem < w,
                n == arr@.len(),
                w > 0,
                base == fr * hw,
                r@.len() == base + x,
                forall|q: int|
                    0 <= q < base ==> #[trigger] r@[q] == box_texel(
                        arr@,
                        w as int,
                        q % (hw as int),
                        q / (hw as int),
                    ),
                forall|q: int|
                    base <= q < base + x ==> #[trigger] r@[q] == box_texel(
                        arr@,
                        w as int,
                        q - base,
                        fr as int,
                    ),
            decreases tl - x,
        {
            assert(2 * fr == full);
            assert((2 * fr) * w + 2 * x < n) by (nonlinear_arith)
                requires
                    2 * fr == full,
                    2 * x < rem,
                    full * w + rem == n,
            ;
            let v = box_at(arr, w, x, fr);
            r.push(v);
            x = x + 1;
        }
    }
    assert(r@ =~= mip_sample(arr@, w as nat));
    r
}

/// A texture's pixel data, one buffer per mip level.
#[derive(Debug, Clone)]
pub struct Texture {
    pub levels: Vec<Vec<u8>>,
    pub format: u32,
    pub kind: u32,
}

/// A cube texture's pixel data, one buffer per face.
#[derive(Debug, Clone)]
pub struct CubeTexture {
    pub faces: Vec<Vec<u8>>,
    pub format: u32,
    pub kind: u32,
}

/// A texture asset: plain or cube.
#[derive(Debug, Clone)]
pub enum Tex {
    Texture(Texture),
    CubeTexture(CubeTexture),
}

impl Tex {
    /// The asset kind of the texture, whichever variant it is.
    pub fn kind(&self) -> (r: u32)
        ensures
            r == match self {
                Tex::Texture(t) => t.kind,
                Tex::CubeTexture(t) => t.kind,
            },
    {
        match self {
            Tex::Texture(val) => val.kind,
            Tex::CubeTexture(val) => val.kind,
        }
    }
}


/// The tiled position of block `(x, y)` in a surface 32 blocks wide with
/// 16-byte blocks: the inverse of `tiled_xy` there.
pub open spec fn tiled_index32(x: u64, y: u64) -> u64 {
    (y & 1) | ((x & 1) << 1u64) | (((x >> 3u64) & 1) << 2u64) | ((((x >> 4u64) ^ (y >> 3u64)) & 1)
        << 3u64) | (((x >> 1u64) & 1) << 4u64) | (((x >> 2u64) & 1) << 5u64) | (((y >> 1u64) & 1)
        << 6u64) | (((y >> 4u64) & 1) << 7u64) | (((y >> 2u64) & 1) << 8u64) | (((y >> 3u64) & 1)
        << 9u64)
}

proof fn lemma_tile32_forward(i: u32)
    requires
        i < 1024,
    ensures
        tiled_x(i, 32, 16) < 32,
        tiled_y(i, 32, 16) < 32,
        tiled_index32(tiled_x(i, 32, 16), tiled_y(i, 32, 16)) == i as u64,
{
    assert(tiled_x(i, 32, 16) < 32 && tiled_y(i, 32, 16) < 32 && tiled_index32(
        tiled_x(i, 32, 16),
        tiled_y(i, 32, 16),
    ) == i as u64) by (bit_vector)
        requires
            i < 1024,
    ;
}

proof fn lemma_tile32_back(x: u64, y: u64)
    requires
        x < 32,
        y < 32,
    ensures
        tiled_index32(x, y) < 1024,
        tiled_x(tiled_index32(x, y) as u32, 32, 16) == x,
        tiled_y(tiled_index32(x, y) as u32, 32, 16) == y,
{
    assert(tiled_index32(x, y) < 1024 && tiled_x(tiled_index32(x, y) as u32, 32, 16) == x
        && tiled_y(tiled_index32(x, y) as u32, 32, 16) == y) by (bit_vector)
        requires
            x < 32,
            y < 32,
    ;
}


/// Tiled storage of a 32-by-32-block surface of 16-byte blocks, before the
/// byte swap, holding the row-major image `lin` of `wc` by `hc` blocks; the
/// blocks outside the image are zero.
pub open spec fn tile_raw(lin: Seq<u8>, wc: nat, hc: nat) -> Seq<u8> {
    Seq::new(
        16384,
        |q: int|
            {
                let i = (q / 16) as u32;
                let x = tiled_x(i, 32, 16);
                let y = tiled_y(i, 32, 16);
                if x < wc && y < hc {
                    lin[(y * wc + x) * 16 + q % 16]
                } else {
                    0u8
                }
            },
    )
}

/// Console storage of the row-major image `lin` of `wc` by `hc` blocks of a
/// 16-byte-block compressed format: tiled, then word-swapped.
pub open spec fn retiled(lin: Seq<u8>, wc: nat, hc: nat) -> Seq<u8> {
    swapped(tile_raw(lin, wc, hc), 2)
}

/// A 16-byte-block compressed format.
pub open spec fn wide_block_format(f: u32) -> bool {
    f == 10 || f == 0xb || f == 0xc || f == 0x11
}

proof fn lemma_swap_twice(s: Seq<u8>)
    requires
        s.len() % 2 == 0,
    ensures
        swapped(swapped(s, 2), 2) == s,
{
    assert(swapped(swapped(s, 2), 2) =~= s);
}

proof fn lemma_block_coords(p: int, wc: int)
    requires
        wc > 0,
        p >= 0,
    ensures
        p == (p / wc) * wc + p % wc,
        0 <= p % wc < wc,
{
    vstd::arithmetic::div_mod::lemma_fundamental_div_mod(p, wc);
    assert(wc * (p / wc) == (p / wc) * wc) by (nonlinear_arith);
}

#[verifier::rlimit(40)]
proof fn lemma_detile32(src: Seq<u8>, n: nat, wc: nat, hc: nat)
    requires
        n <= 1024,
        1 <= wc <= 32,
        1 <= hc <= 32,
        src.len() >= 16384,
    ensures
        detile_upto(src, n, wc, hc, 32, 16).len() == wc * hc * 16,
        forall|q: int|
            0 <= q < wc * hc * 16 ==> #[trigger] detile_upto(src, n, wc, hc, 32, 16)[q] == {
                let p = q / 16;
                let i = tiled_index32((p % (wc as int)) as u64, (p / (wc as int)) as u64);
                if i < n {
                    src[i * 16 + q % 16]
                } else {
                    0u8
                }
            },
    decreases n,
{
    lemma_detile_len(src, n, wc, hc, 32, 16);
    if n > 0 {
        let m = (n - 1) as nat;
        lemma_detile32(src, m, wc, hc);
        lemma_tile32_forward(m as u32);
        let tx = tiled_x(m as u32, 32, 16);
        let ty = tiled_y(m as u32, 32, 16);
        assert(tiled_xy(m as u32, 32, 16) == (tx, ty));
        assert forall|q: int| 0 <= q < wc * hc * 16 implies #[trigger] detile_upto(
            src,
            n,
            wc,
            hc,
            32,
            16,
        )[q] == {
            let p = q / 16;
            let i = tiled_index32((p % (wc as int)) as u64, (p / (wc as int)) as u64);
            if i < n {
                src[i * 16 + q % 16]
            } else {
                0u8
            }
        } by {
            let p = q / 16;
            lemma_block_coords(p, wc as int);
            let x = p % (wc as int);
            let y = p / (wc as int);
            assert(y < hc) by (nonlinear_arith)
                requires
                    p == y * wc + x,
                    0 <= x,
                    p < wc * hc,
                    wc > 0,
            ;
            assert(p < wc * hc) by (nonlinear_arith)
                requires
                    q < wc * hc * 16,
                    p == q / 16,
            ;
            lemma_tile32_back(x as u64, y as u64);
            let i = tiled_index32(x as u64, y as u64);
            if tx < wc && ty < hc {
                let j = ty * wc + tx;
                if j * 16 <= q < j * 16 + 16 {
                    assert(p == j);
                    vstd::arithmetic::div_mod::lemma_fundamental_div_mod_converse(
                        j as int,
                        wc as int,
                        ty as int,
                        tx as int,
                    );
                    assert(x == tx && y == ty);
                    assert(i == m);
                } else {
                    assert(p != j);
                    if i == m {
                        assert(x == tx && y == ty);
                        assert(false);
                    }
                }
            } else {
                if i == m {
                    assert(x == tx && y == ty);
                    assert(false);
                }
            }
        }
    }
}

/// Detiling undoes tiling for every image that fits one 32-by-32-block tile of
/// a 16-byte-block compressed format, such as a 64×64 texture: tiling the
/// row-major image `lin`, word-swapping, and detiling as `detile_surface` does gives
/// `lin` back.
#[verifier::rlimit(90)]
pub proof fn lemma_detile_after_retile(f: u32, wc: nat, hc: nat, lin: Seq<u8>)
    requires
        wide_block_format(f),
        1 <= wc <= 32,
        1 <= hc <= 32,
        lin.len() == wc * hc * 16,
    ensures
        detile_upto(
            swapped(retiled(lin, wc, hc), swap_unit(f)),
            padded_side(f, hc) * padded_side(f, wc),
            wc,
            hc,
            padded_side(f, wc),
            block_bytes(f),
        ) == lin,
{
    let t = tile_raw(lin, wc, hc);
    lemma_swap_twice(t);
    assert(padded_side(f, hc) * padded_side(f, wc) == 1024);
    lemma_detile32(t, 1024, wc, hc);
    let d = detile_upto(t, 1024, wc, hc, 32, 16);
    assert forall|q: int| 0 <= q < lin.len() implies #[trigger] d[q] == lin[q] by {
        let p = q / 16;
        lemma_block_coords(p, wc as int);
        let x = p % (wc as int);
        let y = p / (wc as int);
        assert(p < wc * hc) by (nonlinear_arith)
            requires
                q < wc * hc * 16,
                p == q / 16,
        ;
        assert(y < hc) by (nonlinear_arith)
            requires
                p == y * wc + x,
                0 <= x,
                p < wc * hc,
                wc > 0,
        ;
        lemma_tile32_back(x as u64, y as u64);
        let i = tiled_index32(x as u64, y as u64);
        assert((i * 16 + q % 16) / 16 == i);
        assert((i * 16 + q % 16) % 16 == q % 16);
        assert(t[i * 16 + q % 16] == lin[(y * wc + x) * 16 + q % 16]);
    }
    assert(d =~= lin);
}

/// Tiling undoes detiling for every console surface of one 32-by-32-block tile
/// of a 16-byte-block compressed format, such as a 64×64 texture, whose blocks
/// outside the image are zero: detiling as `detile_surface` does, then tiling and
/// word-swapping, gives the same bytes back.
#[verifier::rlimit(40)]
pub proof fn lemma_retile_after_detile(f: u32, wc: nat, hc: nat, t: Seq<u8>)
    requires
        wide_block_format(f),
        1 <= wc <= 32,
        1 <= hc <= 32,
        t.len() == 16384,
        forall|q: int|
            0 <= q < 16384 && !(tiled_x((q / 16) as u32, 32, 16) < wc && tiled_y(
                (q / 16) as u32,
                32,
                16,
            ) < hc) ==> #[trigger] t[q] == 0,
    ensures
        retiled(
            detile_upto(
                swapped(t, swap_unit(f)),
                padded_side(f, hc) * padded_side(f, wc),
                wc,
                hc,
                padded_side(f, wc),
                block_bytes(f),
            ),
            wc,
            hc,
        ) == t,
{
    let s = swapped(t, 2);
    assert(padded_side(f, hc) * padded_side(f, wc) == 1024);
    lemma_detile32(s, 1024, wc, hc);
    let d = detile_upto(s, 1024, wc, hc, 32, 16);
    let r = tile_raw(d, wc, hc);
    assert forall|q: int| 0 <= q < 16384 implies #[trigger] r[q] == s[q] by {
        let i = q / 16;
        lemma_tile32_forward(i as u32);
        let x = tiled_x(i as u32, 32, 16);
        let y = tiled_y(i as u32, 32, 16);
        if x < wc && y < hc {
            let p = y * wc + x;
            let q2 = p * 16 + q % 16;
            assert(p < wc * hc) by (nonlinear_arith)
                requires
                    p == y * wc + x,
                    x < wc,
                    y < hc,
            ;
            assert(q2 < wc * hc * 16) by (nonlinear_arith)
                requires
                    q2 == p * 16 + q % 16,
                    p < wc * hc,
                    0 <= q % 16 < 16,
            ;
            assert(q2 / 16 == p);
            vstd::arithmetic::div_mod::lemma_fundamental_div_mod_converse(
                p as int,
                wc as int,
                y as int,
                x as int,
            );
            assert(tiled_index32(x, y) == i);
        } else {
            let qq = q - q % 2 + (1 - q % 2);
            assert(qq / 16 == q / 16);
            assert(s[q] == t[qq]);
        }
    }
    assert(r =~= s);
    lemma_swap_twice(t);
}


/// `rows` rows of `len` bytes cut from `src`, whose rows are `rb` bytes long,
/// from row `skip` on and from byte `col` of each row; nothing when the cut
/// does not lie inside `src`.
pub open spec fn window(src: Seq<u8>, rb: nat, skip: nat, rows: nat, col: nat, len: nat) -> Option<
    Seq<u8>,
> {
    if rb > 0 && col + len <= rb && (skip + rows) * rb <= src.len() {
        Some(
            Seq::new(
                rows * len,
                |q: int| src[(skip + q / (len as int)) * (rb as int) + col + q % (len as int)],
            ),
        )
    } else {
        None
    }
}

/// Cuts a window out of an image stored row by row.
pub fn cut_window(src: &[u8], rb: usize, skip: usize, rows: usize, col: usize, len: usize) -> (r:
    Option<Vec<u8>>)
    ensures
        match r {
            Some(v) => window(src@, rb as nat, skip as nat, rows as nat, col as nat, len as nat)
                == Some(v@),
            None => window(src@, rb as nat, skip as nat, rows as nat, col as nat, len as nat) is None,
        },
{
    let n = src.len();
    if rb == 0 || col > rb || len > rb - col {
        return None;
    }
    let end_row = match skip.checked_add(rows) {
        Some(v) => v,
        None => {
            assert((skip + rows) * rb > src@.len()) by (nonlinear_arith)
                requires
                    skip + rows > usize::MAX,
                    rb >= 1,
                    src@.len() <= usize::MAX,
            ;
            return None;
        },
    };
    let total = match end_row.checked_mul(rb) {
        Some(v) => v,
        None => {
            assert(n == src@.len());
            return None;
        },
    };
    if total > src.len() {
        return None;
    }
    let mut out: Vec<u8> = Vec::new();
    let mut y: usize = 0;
    while y < rows
        invariant
            y <= rows,
            rb > 0,
            col + len <= rb,
            (skip + rows) * rb <= src@.len(),
            total == (skip + rows) * rb,
            end_row == skip + rows,
            out@.len() == y * len,
            forall|q: int|
                0 <= q < y * len ==> #[trigger] out@[q] == src@[(skip + q / (len as int)) * (
                rb as int) + col + q % (len as int)],
        decreases rows - y,
    {
        let mut x: usize = 0;
        assert((skip + y) * rb + rb <= total) by (nonlinear_arith)
            requires
                y < rows,
                total == (skip + rows) * rb,
        ;
        while x < len
            invariant
                x <= len,
                y < rows,
                rb > 0,
                col + len <= rb,
                (skip + y) * rb + rb <= total,
                end_row == skip + rows,
                total <= src@.len(),
                out@.len() == y * len + x,
                forall|q: int|
                    0 <= q < y * len + x ==> #[trigger] out@[q] == src@[(skip + q / (len as int)) * (
                    rb as int) + col + q % (len as int)],
            decreases len - x,
        {
            assert(skip + y < end_row);
            assert((skip + y) * rb + col + x < total);
            let v = src[(skip + y) * rb + col + x];
            out.push(v);
            proof {
                let q = y * len + x;
                vstd::arithmetic::div_mod::lemma_fundamental_div_mod_converse(
                    q as int,
                    len as int,
                    y as int,
                    x as int,
                );
            }
            x = x + 1;
        }
        assert((y + 1) * len == y * len + len) by (nonlinear_arith);
        y = y + 1;
    }
    assert(out@ =~= window(src@, rb as nat, skip as nat, rows as nat, col as nat, len as nat)->Some_0);
    Some(out)
}


/// `n` halved `i` times: the side of mip level `i` of a texture whose base
/// side is `n`.
pub open spec fn halve(n: nat, i: nat) -> nat
    decreases i,
{
    if i == 0 {
        n
    } else {
        halve(n, (i - 1) as nat) / 2
    }
}

/// Blocks along a side of `n` texels, at least one.
pub open spec fn blocks_of(n: nat, s: nat) -> nat {
    if n / s == 0 {
        1
    } else {
        n / s
    }
}

pub open spec fn at_least32(n: nat) -> nat {
    if n < 32 {
        32
    } else {
        n
    }
}

pub open spec fn nat_min(a: nat, b: nat) -> nat {
    if a < b {
        a
    } else {
        b
    }
}

pub open spec fn nat_max(a: nat, b: nat) -> nat {
    if a < b {
        b
    } else {
        a
    }
}

/// Bytes of a level `w` by `h` texels stored linearly.
pub open spec fn level_bytes(w: nat, h: nat, s: nat, d: nat) -> nat {
    blocks_of(w, s) * blocks_of(h, s) * d
}

/// Bytes of a level `w` by `h` texels stored tiled, padded to 32 blocks a side.
pub open spec fn tiled_level_bytes(w: nat, h: nat, s: nat, d: nat) -> nat {
    at_least32(blocks_of(w, s)) * at_least32(blocks_of(h, s)) * d
}

/// Where level `i` starts in linear storage: the levels follow each other.
pub open spec fn le_offset(bw: nat, bh: nat, s: nat, d: nat, i: nat) -> nat
    decreases i,
{
    if i == 0 {
        0
    } else {
        le_offset(bw, bh, s, d, (i - 1) as nat) + level_bytes(
            halve(bw, (i - 1) as nat),
            halve(bh, (i - 1) as nat),
            s,
            d,
        )
    }
}

/// The shorter side of level `i`.
pub open spec fn min_side(bw: nat, bh: nat, i: nat) -> nat {
    nat_min(halve(bw, i), halve(bh, i))
}

/// Where level `i` starts in tiled storage: only the levels whose shorter side
/// exceeds 16 texels are stored one by one; the smaller ones share one packed
/// surface.
pub open spec fn be_offset(bw: nat, bh: nat, s: nat, d: nat, i: nat) -> nat
    decreases i,
{
    if i == 0 {
        0
    } else {
        be_offset(bw, bh, s, d, (i - 1) as nat) + if min_side(bw, bh, (i - 1) as nat) > 16 {
            tiled_level_bytes(halve(bw, (i - 1) as nat), halve(bh, (i - 1) as nat), s, d)
        } else {
            0
        }
    }
}

/// The latest level up to `i` whose shorter side is 16 texels: the one whose
/// storage holds the packed small levels.
pub open spec fn last16(bw: nat, bh: nat, i: nat) -> Option<nat>
    decreases i,
{
    if min_side(bw, bh, i) == 16 {
        Some(i)
    } else if i == 0 {
        None
    } else {
        last16(bw, bh, (i - 1) as nat)
    }
}

/// The packed surface of the small levels, detiled: twice as tall as level
/// `p` for a texture wider than tall, else twice as wide.
pub open spec fn packed_image(data: Seq<u8>, bw: nat, bh: nat, f: u32, p: nat) -> Option<
    (Seq<u8>, nat, nat, nat),
> {
    let sd = stride_width(f)->Some_0;
    let off = be_offset(bw, bh, sd.0 as nat, sd.1 as nat, p);
    if off > data.len() {
        None
    } else if bw > bh {
        detiled_image(data.skip(off as int), halve(bh, p) * 2, halve(bw, p), f)
    } else {
        detiled_image(data.skip(off as int), halve(bh, p), halve(bw, p) * 2, f)
    }
}

/// The window of the packed surface `img`, `pw` blocks of `pd` bytes wide,
/// that holds a small level `bx` by `by` blocks whose shorter side is `m`
/// texels and longer side `big` texels. Where it lies depends on `m` and on
/// whether the texture is wider than tall.
pub open spec fn small_window(img: Seq<u8>, pw: nat, pd: nat, m: nat, big: nat, bx: nat, by: nat, wide: bool) -> Option<
    Seq<u8>,
> {
    if m >= 4 {
        let off = m / 4;
        if wide {
            window(img, pw * pd, off, by, 0, bx * pd)
        } else {
            window(img, pw * pd, 0, by, off * pd, bx * pd)
        }
    } else {
        let off = big;
        if wide {
            window(img, pw * pd, 0, by, off * pd, bx * pd)
        } else {
            window(img, pw * pd, off, by, 0, bx * pd)
        }
    }
}

/// Small level `i` cut out of the packed surface `img`.
pub open spec fn small_level(img: Seq<u8>, pw: nat, pd: nat, bw: nat, bh: nat, s: nat, i: nat) -> Option<
    Seq<u8>,
> {
    small_window(
        img,
        pw,
        pd,
        min_side(bw, bh, i),
        nat_max(halve(bw, i), halve(bh, i)),
        blocks_of(halve(bw, i), s),
        blocks_of(halve(bh, i), s),
        bw > bh,
    )
}

/// Level `i` of a multi-level texture in console storage.
#[verifier::opaque]
pub open spec fn be_level(data: Seq<u8>, bw: nat, bh: nat, f: u32, i: nat) -> Option<Seq<u8>> {
    let sd = stride_width(f)->Some_0;
    let s = sd.0 as nat;
    let d = sd.1 as nat;
    if min_side(bw, bh, i) > 16 {
        let off = be_offset(bw, bh, s, d, i);
        let n = tiled_level_bytes(halve(bw, i), halve(bh, i), s, d);
        if off + n > data.len() {
            None
        } else {
            match detiled_image(data.subrange(off as int, (off + n) as int), halve(bh, i), halve(bw, i), f) {
                Some(img) => Some(img.0),
                None => None,
            }
        }
    } else {
        match last16(bw, bh, i) {
            None => None,
            Some(p) => match packed_image(data, bw, bh, f, p) {
                None => None,
                Some(img) => small_level(img.0, img.2, img.1, bw, bh, s, i),
            },
        }
    }
}

/// Level `i` of a texture in PC storage.
pub open spec fn le_level(data: Seq<u8>, bw: nat, bh: nat, f: u32, i: nat) -> Seq<u8> {
    let sd = stride_width(f)->Some_0;
    let off = le_offset(bw, bh, sd.0 as nat, sd.1 as nat, i);
    data.subrange(
        off as int,
        (off + level_bytes(halve(bw, i), halve(bh, i), sd.0 as nat, sd.1 as nat)) as int,
    )
}

/// The levels of a texture `bw` by `bh` texels with `n` levels of handled format
/// `f`, stored as `data` in byte order `o`, before any depth demotion.
#[verifier::opaque]
pub open spec fn texture_levels(data: Seq<u8>, bw: nat, bh: nat, n: nat, f: u32, o: Endian) -> Option<
    Seq<Seq<u8>>,
> {
    let sd = stride_width(f)->Some_0;
    if o == Endian::Little {
        if le_offset(bw, bh, sd.0 as nat, sd.1 as nat, n) <= data.len() {
            Some(Seq::new(n, |i: int| le_level(data, bw, bh, f, i as nat)))
        } else {
            None
        }
    } else if n == 1 {
        match detiled_image(data, bh, bw, f) {
            Some(img) => Some(seq![img.0]),
            None => None,
        }
    } else if forall|i: nat| i < n ==> (#[trigger] be_level(data, bw, bh, f, i)) is Some {
        Some(Seq::new(n, |i: int| be_level(data, bw, bh, f, i as nat)->Some_0))
    } else {
        None
    }
}

/// What the BC4 decoder makes of one level, as luminance bytes.
pub uninterp spec fn bc4_luminance(src: Seq<u8>, w: nat, h: nat) -> Seq<u8>;

/// Relies on bcndecode's `decode` with BC4 encoding and luminance output: a
/// `w` by `h` image comes back as `w * h` bytes, and only a zero dimension fails.
#[verifier::external_body]
fn decomp_bc4(arr: &[u8], w: usize, h: usize) -> (r: Option<Vec<u8>>)
    requires
        4 * w * h <= usize::MAX,
    ensures
        match r {
            Some(v) => w > 0 && h > 0 && v@ == bc4_luminance(arr@, w as nat, h as nat) && v@.len()
                == w * h,
            None => w == 0 || h == 0,
        },
{
    bcndecode::decode(arr, w, h, bcndecode::BcnEncoding::Bc4, bcndecode::BcnDecoderFormat::LUM).ok()
}

/// The single-channel alpha format demoted to 8-bit luminance: every level
/// decoded, and the two smallest levels rebuilt by 2×2 sampling from the
/// level above, since detiling does not keep them intact.
pub open spec fn demoted_levels(lv: Seq<Seq<u8>>, bw: nat, bh: nat) -> Option<Seq<Seq<u8>>> {
    let n = lv.len();
    let dec = Seq::new(
        n,
        |i: int| bc4_luminance(lv[i], nat_max(halve(bw, i as nat), 4), nat_max(halve(bh, i as nat), 4)),
    );
    if n < 3 || !(forall|i: nat|
        i < n ==> 4 * nat_max(halve(bw, i), 4) * nat_max(halve(bh, i), 4) <= usize::MAX) {
        None
    } else {
        let w3 = halve(bw, (n - 3) as nat);
        let w2 = halve(bw, (n - 2) as nat);
        if w3 == 0 {
            None
        } else {
            let a = mip_sample(dec[n - 3], w3);
            if w2 == 0 {
                None
            } else {
                Some(dec.update(n - 2, a).update(n - 1, mip_sample(a, w2)))
            }
        }
    }
}


proof fn lemma_le_offset_grows(bw: nat, bh: nat, s: nat, d: nat, i: nat, n: nat)
    requires
        i <= n,
    ensures
        le_offset(bw, bh, s, d, i) <= le_offset(bw, bh, s, d, n),
    decreases n - i,
{
    if i < n {
        lemma_le_offset_grows(bw, bh, s, d, i + 1, n);
    }
}

proof fn lemma_halve_small(n: nat, i: nat)
    requires
        n <= 0xffff,
    ensures
        halve(n, i) <= 0xffff,
    decreases i,
{
    if i > 0 {
        lemma_halve_small(n, (i - 1) as nat);
    }
}

fn concat_bytes(a: &[u8], b: &[u8]) -> (r: Vec<u8>)
    ensures
        r@ == a@ + b@,
{
    let mut r = slice_to_vec(a);
    let mut i: usize = 0;
    while i < b.len()
        invariant
            i <= b@.len(),
            r@ == a@ + b@.take(i as int),
        decreases b@.len() - i,
    {
        r.push(b[i]);
        i = i + 1;
        assert(r@ =~= a@ + b@.take(i as int));
    }
    assert(b@.take(i as int) =~= b@);
    r
}

/// The contents of each of `levels`.
pub open spec fn level_views(levels: Seq<Vec<u8>>) -> Seq<Seq<u8>> {
    levels.map_values(|v: Vec<u8>| v@)
}

#[verifier::rlimit(80)]
#[verifier::spinoff_prover]
fn le_texture_levels(data: &Vec<u8>, bw: u16, bh: u16, n: usize, f: u32, s: u32, d: u32) -> (r:
    Option<Vec<Vec<u8>>>)
    requires
        stride_width(f) == Some((s, d)),
        n <= 32,
    ensures
        match r {
            Some(v) => texture_levels(data@, bw as nat, bh as nat, n as nat, f, Endian::Little)
                == Some(level_views(v@)),
            None => texture_levels(data@, bw as nat, bh as nat, n as nat, f, Endian::Little) is None,
        },
{
    reveal(texture_levels);
    let ghost gw = bw as nat;
    let ghost gh = bh as nat;
    let len = data.len();
    let mut levels: Vec<Vec<u8>> = Vec::new();
    let mut sw: u64 = bw as u64;
    let mut sh: u64 = bh as u64;
    let mut off: u64 = 0;
    let mut i: usize = 0;
    assert(s == 1 || s == 4);
    assert(d == 1 || d == 4 || d == 8 || d == 16);
    while i < n
        invariant
            i <= n,
            n <= 32,
            len == data@.len(),
            stride_width(f) == Some((s, d)),
            s == 1 || s == 4,
            d == 1 || d == 4 || d == 8 || d == 16,
            gw == bw as nat,
            gh == bh as nat,
            sw == halve(gw, i as nat),
            sh == halve(gh, i as nat),
            sw <= 0xffff,
            sh <= 0xffff,
            off == le_offset(gw, gh, s as nat, d as nat, i as nat),
            off <= len,
            levels@.len() == i,
            forall|k: int| 0 <= k < i ==> #[trigger] levels@[k]@ == le_level(data@, gw, gh, f, k as nat),
        decreases n - i,
    {
        let bx: u64 = if sw / (s as u64) == 0 {
            1
        } else {
            sw / (s as u64)
        };
        let by: u64 = if sh / (s as u64) == 0 {
            1
        } else {
            sh / (s as u64)
        };
        assert(bx <= 0xffff && by <= 0xffff);
        assert(bx * by <= 0xffff * 0xffff) by (nonlinear_arith)
            requires
                bx <= 0xffff,
                by <= 0xffff,
        ;
        assert(bx * by * d <= 0xffff * 0xffff * 16) by (nonlinear_arith)
            requires
                bx * by <= 0xffff * 0xffff,
                d <= 16,
        ;
        let size = bx * by * (d as u64);
        assert(size == level_bytes(sw as nat, sh as nat, s as nat, d as nat));
        assert(le_offset(gw, gh, s as nat, d as nat, (i + 1) as nat) == off + size);
        if size > (len as u64) - off {
            proof {
                lemma_le_offset_grows(gw, gh, s as nat, d as nat, (i + 1) as nat, n as nat);
                reveal(texture_levels);
            }
            return None;
        }
        let lv = slice_to_vec(slice_subrange(data.as_slice(), off as usize, (off + size) as usize));
        levels.push(lv);
        proof {
            lemma_halve_small(gw, (i + 1) as nat);
            lemma_halve_small(gh, (i + 1) as nat);
        }
        off = off + size;
        sw = sw / 2;
        sh = sh / 2;
        i = i + 1;
    }
    assert(level_views(levels@) =~= Seq::new(
        n as nat,
        |k: int| le_level(data@, gw, gh, f, k as nat),
    ));
    Some(levels)
}


fn cut_small_level(img: &Vec<u8>, pd: usize, pw: usize, m: u64, big: u64, bx: u64, by: u64, wide: bool) -> (r: Option<Vec<u8>>)
    requires
        m <= 0xffff,
        big <= 0xffff,
        1 <= bx <= 0xffff,
        1 <= by <= 0xffff,
    ensures
        match r {
            Some(v) => small_window(img@, pw as nat, pd as nat, m as nat, big as nat, bx as nat, by as nat, wide) == Some(v@),
            None => small_window(img@, pw as nat, pd as nat, m as nat, big as nat, bx as nat, by as nat, wide) is None,
        },
{
    let len = img.len();
    let rb = match pw.checked_mul(pd) {
        Some(v) => v,
        None => {
            assert(pw * pd > len) by (nonlinear_arith)
                requires
                    pw * pd > usize::MAX,
                    len <= usize::MAX,
            ;
            assert(forall|k: nat| k >= 1 ==> #[trigger] (k * (pw * pd)) >= pw * pd) by {
                assert forall|k: nat| k >= 1 implies #[trigger] (k * (pw * pd)) >= pw * pd by {
                    vstd::arithmetic::mul::lemma_mul_increases(k as int, (pw * pd) as int);
                }
            }
            return None;
        },
    };
    let row_len = match (bx as usize).checked_mul(pd) {
        Some(v) => v,
        None => {
            return None;
        },
    };
    if m >= 4 {
        let o = (m / 4) as usize;
        if wide {
            cut_window(img.as_slice(), rb, o, by as usize, 0, row_len)
        } else {
            match o.checked_mul(pd) {
                Some(c) => cut_window(img.as_slice(), rb, 0, by as usize, c, row_len),
                None => None,
            }
        }
    } else {
        let o = big as usize;
        if wide {
            match o.checked_mul(pd) {
                Some(c) => cut_window(img.as_slice(), rb, 0, by as usize, c, row_len),
                None => None,
            }
        } else {
            cut_window(img.as_slice(), rb, o, by as usize, 0, row_len)
        }
    }
}

/// The packed surface held while reading level `i` on matches the latest
/// 16-texel level before `i`.
#[verifier::opaque]
pub open spec fn packed_ok(data: Seq<u8>, bw: nat, bh: nat, f: u32, i: nat, packed: Option<
    (Vec<u8>, usize, usize),
>) -> bool {
    if i == 0 {
        packed is None
    } else {
        match last16(bw, bh, (i - 1) as nat) {
            None => packed is None,
            Some(p) => match packed {
                None => false,
                Some(pk) => packed_image(data, bw, bh, f, p) matches Some(img) && img.0 == pk.0@
                    && img.1 == pk.1 && img.2 == pk.2,
            },
        }
    }
}

fn be_big_level(data: &Vec<u8>, bw: u16, bh: u16, f: u32, s: u32, d: u32, i: usize, sw: u64, sh: u64, off: u64) -> (r: Option<(Vec<u8>, u64)>)
    requires
        stride_width(f) == Some((s, d)),
        s == 1 || s == 4,
        d == 1 || d == 4 || d == 8 || d == 16,
        sw == halve(bw as nat, i as nat),
        sh == halve(bh as nat, i as nat),
        sw <= 0xffff,
        sh <= 0xffff,
        off == be_offset(bw as nat, bh as nat, s as nat, d as nat, i as nat),
        min_side(bw as nat, bh as nat, i as nat) > 16,
    ensures
        match r {
            Some((v, size)) => be_level(data@, bw as nat, bh as nat, f, i as nat) == Some(v@)
                && be_offset(bw as nat, bh as nat, s as nat, d as nat, (i + 1) as nat) == off + size
                && off + size <= data@.len(),
            None => be_level(data@, bw as nat, bh as nat, f, i as nat) is None,
        },
{
    reveal(be_level);
    let len = data.len();
    let bx: u64 = if sw / (s as u64) == 0 {
        1
    } else {
        sw / (s as u64)
    };
    let by: u64 = if sh / (s as u64) == 0 {
        1
    } else {
        sh / (s as u64)
    };
    let tx: u64 = if bx < 32 {
        32
    } else {
        bx
    };
    let ty: u64 = if by < 32 {
        32
    } else {
        by
    };
    assert(tx * ty <= 0xffff * 0xffff) by (nonlinear_arith)
        requires
            tx <= 0xffff,
            ty <= 0xffff,
    ;
    assert(tx * ty * d <= 0xffff * 0xffff * 16) by (nonlinear_arith)
        requires
            tx * ty <= 0xffff * 0xffff,
            d <= 16,
    ;
    let size = tx * ty * (d as u64);
    assert(size == tiled_level_bytes(sw as nat, sh as nat, s as nat, d as nat));
    if off > len as u64 || size > (len as u64) - off {
        return None;
    }
    let sub = slice_subrange(data.as_slice(), off as usize, (off + size) as usize);
    match detile_surface(sub, sh as usize, sw as usize, f) {
        Some((img, _, _, _)) => Some((img, size)),
        None => None,
    }
}

#[verifier::rlimit(100)]
fn be_small_level(data: &Vec<u8>, bw: u16, bh: u16, f: u32, s: u32, d: u32, i: usize, sw: u64, sh: u64, off: u64, packed: &mut Option<(Vec<u8>, usize, usize)>) -> (r: Option<Vec<u8>>)
    requires
        stride_width(f) == Some((s, d)),
        s == 1 || s == 4,
        d == 1 || d == 4 || d == 8 || d == 16,
        sw == halve(bw as nat, i as nat),
        sh == halve(bh as nat, i as nat),
        sw <= 0xffff,
        sh <= 0xffff,
        off == be_offset(bw as nat, bh as nat, s as nat, d as nat, i as nat),
        min_side(bw as nat, bh as nat, i as nat) <= 16,
        packed_ok(data@, bw as nat, bh as nat, f, i as nat, *old(packed)),
    ensures
        match r {
            Some(v) => be_level(data@, bw as nat, bh as nat, f, i as nat) == Some(v@) && packed_ok(
                data@,
                bw as nat,
                bh as nat,
                f,
                (i + 1) as nat,
                *final(packed),
            ),
            None => be_level(data@, bw as nat, bh as nat, f, i as nat) is None,
        },
        be_offset(bw as nat, bh as nat, s as nat, d as nat, (i + 1) as nat) == off,
{
    reveal(be_level);
    reveal(packed_ok);
    assert(be_offset(bw as nat, bh as nat, s as nat, d as nat, (i + 1) as nat) == off);
    let len = data.len();
    let wide = bw > bh;
    let m = if sw < sh {
        sw
    } else {
        sh
    };
    let big = if sw < sh {
        sh
    } else {
        sw
    };
    let bx: u64 = if sw / (s as u64) == 0 {
        1
    } else {
        sw / (s as u64)
    };
    let by: u64 = if sh / (s as u64) == 0 {
        1
    } else {
        sh / (s as u64)
    };
    if m == 16 {
        if off > len as u64 {
            return None;
        }
        let rest = slice_subrange(data.as_slice(), off as usize, len);
        assert(rest@ =~= data@.skip(off as int));
        let (ph, pw) = if wide {
            (sh * 2, sw)
        } else {
            (sh, sw * 2)
        };
        match detile_surface(rest, ph as usize, pw as usize, f) {
            Some((img, pd, pwb, _)) => {
                *packed = Some((img, pd, pwb));
            },
            None => {
                return None;
            },
        }
    }
    match &*packed {
        None => None,
        Some((img, pd, pw)) => cut_small_level(img, *pd, *pw, m, big, bx, by, wide),
    }
}

#[verifier::rlimit(100)]
fn be_texture_levels(data: &Vec<u8>, bw: u16, bh: u16, n: usize, f: u32, s: u32, d: u32) -> (r:
    Option<Vec<Vec<u8>>>)
    requires
        stride_width(f) == Some((s, d)),
        n <= 32,
        n != 1,
    ensures
        match r {
            Some(v) => texture_levels(data@, bw as nat, bh as nat, n as nat, f, Endian::Big)
                == Some(level_views(v@)),
            None => texture_levels(data@, bw as nat, bh as nat, n as nat, f, Endian::Big) is None,
        },
{
    let ghost gw = bw as nat;
    let ghost gh = bh as nat;
    let len = data.len();
    let mut levels: Vec<Vec<u8>> = Vec::new();
    let mut packed: Option<(Vec<u8>, usize, usize)> = None;
    proof {
        reveal(packed_ok);
    }
    let mut sw: u64 = bw as u64;
    let mut sh: u64 = bh as u64;
    let mut off: u64 = 0;
    let mut i: usize = 0;
    assert(s == 1 || s == 4);
    assert(d == 1 || d == 4 || d == 8 || d == 16);
    while i < n
        invariant
            i <= n,
            n <= 32,
            n != 1,
            stride_width(f) == Some((s, d)),
            s == 1 || s == 4,
            d == 1 || d == 4 || d == 8 || d == 16,
            gw == bw as nat,
            gh == bh as nat,
            sw == halve(gw, i as nat),
            sh == halve(gh, i as nat),
            sw <= 0xffff,
            sh <= 0xffff,
            off == be_offset(gw, gh, s as nat, d as nat, i as nat),
            off <= data@.len(),
            len == data@.len(),
            levels@.len() == i,
            forall|k: int|
                0 <= k < i ==> #[trigger] be_level(data@, gw, gh, f, k as nat) == Some(
                    levels@[k]@,
                ),
            packed_ok(data@, gw, gh, f, i as nat, packed),
        decreases n - i,
    {
        proof {
            lemma_halve_small(gw, (i + 1) as nat);
            lemma_halve_small(gh, (i + 1) as nat);
        }
        let m = if sw < sh {
            sw
        } else {
            sh
        };
        if m > 16 {
            match be_big_level(data, bw, bh, f, s, d, i, sw, sh, off) {
                Some((v, size)) => {
                    levels.push(v);
                    assert(off + size <= data@.len());
                    assert(data@.len() <= usize::MAX);
                    assert(usize::MAX <= u64::MAX);
                    off = off + size;
                    proof {
                        reveal(packed_ok);
                    }
                },
                None => {
                    proof {
                        reveal(texture_levels);
                    }
                    return None;
                },
            }
        } else {
            match be_small_level(data, bw, bh, f, s, d, i, sw, sh, off, &mut packed) {
                Some(v) => {
                    levels.push(v);
                },
                None => {
                    proof {
                        reveal(texture_levels);
                    }
                    return None;
                },
            }
        }
        sw = sw / 2;
        sh = sh / 2;
        i = i + 1;
    }
    reveal(texture_levels);
    assert forall|k: nat| k < n implies (#[trigger] be_level(data@, gw, gh, f, k)) is Some by {
        let kk = k as int;
        assert(0 <= kk < i);
        assert(be_level(data@, gw, gh, f, kk as nat) == Some(levels@[kk]@));
    }
    assert(level_views(levels@) =~= Seq::new(
        n as nat,
        |k: int| be_level(data@, gw, gh, f, k as nat)->Some_0,
    ));
    Some(levels)
}


fn halve_exec(n: u64, i: usize) -> (r: u64)
    ensures
        r == halve(n as nat, i as nat),
{
    let mut r = n;
    let mut k: usize = 0;
    while k < i
        invariant
            k <= i,
            r == halve(n as nat, k as nat),
        decreases i - k,
    {
        r = r / 2;
        k = k + 1;
    }
    r
}

fn demote_levels(levels: &Vec<Vec<u8>>, bw: u16, bh: u16) -> (r: Option<Vec<Vec<u8>>>)
    ensures
        match r {
            Some(v) => demoted_levels(level_views(levels@), bw as nat, bh as nat) == Some(
                level_views(v@),
            ),
            None => demoted_levels(level_views(levels@), bw as nat, bh as nat) is None,
        },
{
    let n = levels.len();
    let ghost lv = level_views(levels@);
    let ghost dec_spec = Seq::new(
        n as nat,
        |i: int|
            bc4_luminance(
                lv[i],
                nat_max(halve(bw as nat, i as nat), 4),
                nat_max(halve(bh as nat, i as nat), 4),
            ),
    );
    if n < 3 {
        return None;
    }
    let mut dec: Vec<Vec<u8>> = Vec::new();
    let mut i: usize = 0;
    while i < n
        invariant
            i <= n,
            n == levels@.len(),
            n >= 3,
            lv == level_views(levels@),
            dec_spec.len() == n,
            dec@.len() == i,
            forall|k: int| 0 <= k < i ==> #[trigger] dec@[k]@ == dec_spec[k],
            forall|k: nat|
                k < i ==> 4 * nat_max(halve(bw as nat, k), 4) * nat_max(halve(bh as nat, k), 4)
                    <= usize::MAX,
            dec_spec == Seq::new(
                n as nat,
                |i: int|
                    bc4_luminance(
                        lv[i],
                        nat_max(halve(bw as nat, i as nat), 4),
                        nat_max(halve(bh as nat, i as nat), 4),
                    ),
            ),
        decreases n - i,
    {
        let sw = halve_exec(bw as u64, i);
        let sh = halve_exec(bh as u64, i);
        proof {
            lemma_halve_small(bw as nat, i as nat);
            lemma_halve_small(bh as nat, i as nat);
        }
        let w: usize = if sw < 4 {
            4
        } else {
            sw as usize
        };
        let h: usize = if sh < 4 {
            4
        } else {
            sh as usize
        };
        let ok = match w.checked_mul(h) {
            Some(wh) => match wh.checked_mul(4) {
                Some(_) => true,
                None => false,
            },
            None => false,
        };
        if !ok {
            assert(4 * w * h > usize::MAX) by (nonlinear_arith)
                requires
                    w * h > usize::MAX || (w * h) * 4 > usize::MAX,
                    w >= 4,
                    h >= 4,
            ;
            return None;
        }
        assert(4 * w * h <= usize::MAX) by (nonlinear_arith)
            requires
                (w * h) * 4 <= usize::MAX,
        ;
        match decomp_bc4(levels[i].as_slice(), w, h) {
            Some(v) => {
                dec.push(v);
            },
            None => {
                return None;
            },
        }
        i = i + 1;
    }
    let w3 = halve_exec(bw as u64, n - 3);
    let w2 = halve_exec(bw as u64, n - 2);
    proof {
        lemma_halve_small(bw as nat, (n - 3) as nat);
        lemma_halve_small(bw as nat, (n - 2) as nat);
    }
    let w3 = w3 as usize;
    let w2 = w2 as usize;
    if w3 == 0 {
        return None;
    }
    let a = bin_mip(dec[n - 3].as_slice(), w3);
    if w2 == 0 {
        return None;
    }
    let b = bin_mip(a.as_slice(), w2);
    let ghost a_spec = a@;
    dec.set(n - 2, a);
    dec.set(n - 1, b);
    assert(level_views(dec@) =~= dec_spec.update(n - 2, a_spec).update(
        n - 1,
        mip_sample(a_spec, w2 as nat),
    ));
    Some(dec)
}

/// What `Texture::from_data` makes of a texture's two asset blocks: its levels
/// and its format, or the failure.
pub open spec fn texture_of(data0: Seq<u8>, data1: Seq<u8>, info: TextureInfo, o: Endian) -> Result<
    (Seq<Seq<u8>>, u32),
    CodecError,
> {
    let f = info.format;
    let n = info.levels as nat;
    let bw = info.width as nat;
    let bh = info.height as nat;
    if stride_width(f) is None {
        Ok((seq![data0, data1], f))
    } else if n > 32 {
        Err(CodecError::Malformed)
    } else {
        match texture_levels(data0 + data1, bw, bh, n, f, o) {
            None => Err(
                if o == Endian::Little {
                    CodecError::OutOfBounds
                } else {
                    CodecError::Malformed
                },
            ),
            Some(lv) => if f == 13 && o == Endian::Big && n != 1 {
                match demoted_levels(lv, bw, bh) {
                    Some(dl) => Ok((dl, 6u32)),
                    None => Err(CodecError::Malformed),
                }
            } else {
                Ok((lv, f))
            },
        }
    }
}

impl Texture {
    /// Reads a texture from its two asset blocks as described by `info`.
    /// PC storage holds the levels one after the other; console storage holds
    /// the large levels tiled one by one and the small ones packed into one
    /// surface. The single-channel alpha format is demoted to 8-bit
    /// luminance, and `info` is updated to say so. A format the detiler does
    /// not handle is kept as the two raw blocks.
    pub fn from_data(data0: &[u8], data1: &[u8], info: &mut TextureInfo, o: Endian) -> (r: Result<
        Texture,
        CodecError,
    >)
        ensures
            match r {
                Ok(t) => {
                    &&& texture_of(data0@, data1@, *old(info), o) == Ok::<
                        (Seq<Seq<u8>>, u32),
                        CodecError,
                    >((level_views(t.levels@), t.format))
                    &&& t.kind == old(info).asset_type
                    &&& *final(info) == (TextureInfo { format: t.format, ..*old(info) })
                },
                Err(e) => texture_of(data0@, data1@, *old(info), o) == Err::<
                    (Seq<Seq<u8>>, u32),
                    CodecError,
                >(e) && *final(info) == *old(info),
            },
    {
        let format = info.format;
        let kind = info.asset_type;
        let n = info.levels as usize;
        let (s, d) = match get_stride_width(format) {
            Some(v) => v,
            None => {
                let mut levels: Vec<Vec<u8>> = Vec::new();
                levels.push(slice_to_vec(data0));
                levels.push(slice_to_vec(data1));
                assert(level_views(levels@) =~= seq![data0@, data1@]);
                return Ok(Texture { levels, format, kind });
            },
        };
        if n > 32 {
            return Err(CodecError::Malformed);
        }
        let data = concat_bytes(data0, data1);
        let levels = match o {
            Endian::Little => {
                match le_texture_levels(&data, info.width, info.height, n, format, s, d) {
                    Some(v) => v,
                    None => {
                        return Err(CodecError::OutOfBounds);
                    },
                }
            },
            Endian::Big => {
                if n == 1 {
                    proof {
                        reveal(texture_levels);
                    }
                    match detile_surface(data.as_slice(), info.height as usize, info.width as usize, format) {
                        Some((img, _, _, _)) => {
                            let mut v: Vec<Vec<u8>> = Vec::new();
                            v.push(img);
                            assert(level_views(v@) =~= seq![v@[0]@]);
                            v
                        },
                        None => {
                            return Err(CodecError::Malformed);
                        },
                    }
                } else {
                    match be_texture_levels(&data, info.width, info.height, n, format, s, d) {
                        Some(v) => v,
                        None => {
                            return Err(CodecError::Malformed);
                        },
                    }
                }
            },
        };
        if format == 13 && o == Endian::Big && n != 1 {
            match demote_levels(&levels, info.width, info.height) {
                Some(v) => {
                    info.format = 6;
                    Ok(Texture { levels: v, format: 6, kind })
                },
                None => Err(CodecError::Malformed),
            }
        } else {
            Ok(Texture { levels, format, kind })
        }
    }
}


/// The bytes of one face of a cube texture: linear in PC storage, padded to
/// 32 blocks a side in console storage.
pub open spec fn face_bytes(info: TextureInfo, o: Endian) -> nat {
    let sd = stride_width(info.format)->Some_0;
    let bx = info.width as nat / sd.0 as nat;
    let by = info.height as nat / sd.0 as nat;
    if o == Endian::Little {
        bx * by * sd.1 as nat
    } else {
        at_least32(bx) * at_least32(by) * sd.1 as nat
    }
}

/// The six faces of a cube texture from its asset block `data1`, as
/// `CubeTexture::from_data` reads them, or the failure.
pub open spec fn cube_faces(data0: Seq<u8>, data1: Seq<u8>, info: TextureInfo, o: Endian) -> Result<
    Seq<Seq<u8>>,
    CodecError,
> {
    let f = info.format;
    if info.levels > 1 {
        Err(CodecError::Malformed)
    } else if stride_width(f) is None {
        Ok(seq![data0, data1])
    } else {
        let ds = face_bytes(info, o);
        if 6 * ds > data1.len() {
            Err(CodecError::OutOfBounds)
        } else if o == Endian::Little {
            Ok(Seq::new(6, |i: int| data1.subrange((ds * i) as int, (ds * i + ds) as int)))
        } else if forall|i: nat|
            i < 6 ==> (#[trigger] detiled_image(
                data1.subrange((ds * i) as int, (ds * i + ds) as int),
                info.height as nat,
                info.width as nat,
                f,
            )) is Some {
            Ok(
                Seq::new(
                    6,
                    |i: int|
                        detiled_image(
                            data1.subrange((ds * i) as int, (ds * i + ds) as int),
                            info.height as nat,
                            info.width as nat,
                            f,
                        )->Some_0.0,
                ),
            )
        } else {
            Err(CodecError::Malformed)
        }
    }
}

impl CubeTexture {
    /// Reads the six faces of a single-level cube texture. Faces follow each
    /// other in the second asset block; on console each is tiled and padded to
    /// 32 blocks a side. Cube textures with more than one level are refused.
    pub fn from_data(data0: &[u8], data1: &[u8], info: &TextureInfo, o: Endian) -> (r: Result<
        CubeTexture,
        CodecError,
    >)
        ensures
            match r {
                Ok(t) => cube_faces(data0@, data1@, *info, o) == Ok::<Seq<Seq<u8>>, CodecError>(
                    level_views(t.faces@),
                ) && t.format == info.format && t.kind == info.asset_type,
                Err(e) => cube_faces(data0@, data1@, *info, o) == Err::<Seq<Seq<u8>>, CodecError>(e),
            },
    {
        let format = info.format;
        let kind = info.asset_type;
        if info.levels > 1 {
            return Err(CodecError::Malformed);
        }
        let (s, d) = match get_stride_width(format) {
            Some(v) => v,
            None => {
                let mut faces: Vec<Vec<u8>> = Vec::new();
                faces.push(slice_to_vec(data0));
                faces.push(slice_to_vec(data1));
                assert(level_views(faces@) =~= seq![data0@, data1@]);
                return Ok(CubeTexture { faces, format, kind });
            },
        };
        let bx = (info.width as u64) / (s as u64);
        let by = (info.height as u64) / (s as u64);
        assert(bx <= 0xffff && by <= 0xffff);
        let ds: u64 = if o == Endian::Little {
            assert(bx * by <= 0xffff * 0xffff) by (nonlinear_arith)
                requires
                    bx <= 0xffff,
                    by <= 0xffff,
            ;
            assert(bx * by * d <= 0xffff * 0xffff * 16) by (nonlinear_arith)
                requires
                    bx * by <= 0xffff * 0xffff,
                    d <= 16,
            ;
            let bxy = bx * by;
            bxy * (d as u64)
        } else {
            let tx: u64 = if bx < 32 {
                32
            } else {
                bx
            };
            let ty: u64 = if by < 32 {
                32
            } else {
                by
            };
            assert(tx * ty <= 0xffff * 0xffff) by (nonlinear_arith)
                requires
                    tx <= 0xffff,
                    ty <= 0xffff,
            ;
            assert(tx * ty * d <= 0xffff * 0xffff * 16) by (nonlinear_arith)
                requires
                    tx * ty <= 0xffff * 0xffff,
                    d <= 16,
            ;
            let txy = tx * ty;
            txy * (d as u64)
        };
        let len = data1.len();
        if 6 * ds > len as u64 {
            return Err(CodecError::OutOfBounds);
        }
        let mut faces: Vec<Vec<u8>> = Vec::new();
        let mut i: u64 = 0;
        while i < 6
            invariant
                i <= 6,
                6 * ds <= len,
                len == data1@.len(),
                faces@.len() == i,
                info.levels <= 1,
                stride_width(format) == Some((s, d)),
                format == info.format,
                ds == face_bytes(*info, o),
                forall|k: int|
                    0 <= k < i ==> #[trigger] faces@[k]@ == if o == Endian::Little {
                        data1@.subrange(ds * k, ds * k + ds)
                    } else {
                        detiled_image(
                            data1@.subrange(ds * k, ds * k + ds),
                            info.height as nat,
                            info.width as nat,
                            format,
                        )->Some_0.0
                    },
                o == Endian::Big ==> forall|k: nat|
                    k < i ==> (#[trigger] detiled_image(
                        data1@.subrange(ds * k, ds * k + ds),
                        info.height as nat,
                        info.width as nat,
                        format,
                    )) is Some,
            decreases 6 - i,
        {
            assert(ds * i + ds <= 6 * ds) by (nonlinear_arith)
                requires
                    i < 6,
            ;
            let sub = slice_subrange(data1, (ds * i) as usize, (ds * i + ds) as usize);
            if o == Endian::Little {
                faces.push(slice_to_vec(sub));
            } else {
                match detile_surface(sub, info.height as usize, info.width as usize, format) {
                    Some((img, _, _, _)) => {
                        faces.push(img);
                    },
                    None => {
                        proof {
                            let kk = i as nat;
                            let dsn = face_bytes(*info, o);
                            assert(dsn == ds);
                            assert(detiled_image(
                                data1@.subrange((dsn * kk) as int, (dsn * kk + dsn) as int),
                                info.height as nat,
                                info.width as nat,
                                format,
                            ) is None);
                        }
                        return Err(CodecError::Malformed);
                    },
                }
            }
            i = i + 1;
        }
        assert(level_views(faces@) =~= cube_faces(data0@, data1@, *info, o)->Ok_0);
        Ok(CubeTexture { faces, format, kind })
    }
}

/// The bytes of `s`, one after the other.
pub open spec fn concat_all(s: Seq<Seq<u8>>) -> Seq<u8>
    decreases s.len(),
{
    if s.len() == 0 {
        seq![]
    } else {
        concat_all(s.drop_last()) + s.last()
    }
}

fn concat_levels(v: &Vec<Vec<u8>>, from: usize) -> (r: Vec<u8>)
    requires
        from <= v@.len(),
    ensures
        r@ == concat_all(level_views(v@).skip(from as int)),
{
    let mut r: Vec<u8> = Vec::new();
    let mut i: usize = from;
    let ghost lv = level_views(v@).skip(from as int);
    while i < v.len()
        invariant
            from <= i <= v@.len(),
            lv == level_views(v@).skip(from as int),
            r@ == concat_all(lv.take(i - from)),
        decreases v@.len() - i,
    {
        assert(lv.take(i - from + 1).drop_last() =~= lv.take(i - from));
        let ghost before = r@;
        let mut k: usize = 0;
        while k < v[i].len()
            invariant
                k <= v@[i as int]@.len(),
                i < v@.len(),
                r@ == before + v@[i as int]@.take(k as int),
            decreases v@[i as int]@.len() - k,
        {
            r.push(v[i][k]);
            k = k + 1;
            assert(r@ =~= before + v@[i as int]@.take(k as int));
        }
        assert(v@[i as int]@.take(k as int) =~= v@[i as int]@);
        i = i + 1;
    }
    assert(lv.take(i - from) =~= lv);
    r
}

/// Formats whose levels are written as the base level and then all the
/// smaller ones together.
pub open spec fn mipped_format(f: u32) -> bool {
    f == 3 || f == 6 || f == 7 || f == 8 || f == 10 || f == 0xb || f == 0xc || f == 0x11
}

/// The two asset blocks a texture is written as in PC storage; console
/// storage is not written, and gives two empty blocks.
pub open spec fn texture_blocks(levels: Seq<Seq<u8>>, f: u32, o: Endian) -> Option<(Seq<u8>, Seq<u8>)> {
    if o == Endian::Big {
        Some((seq![], seq![]))
    } else if mipped_format(f) {
        if levels.len() > 1 {
            Some((levels[0], concat_all(levels.skip(1))))
        } else if levels.len() == 1 {
            Some((seq![], levels[0]))
        } else {
            None
        }
    } else if levels.len() >= 2 {
        Some((levels[0], levels[1]))
    } else {
        None
    }
}

impl Texture {
    /// The two asset blocks the texture is written as; nothing when it lacks
    /// the levels its format needs.
    pub fn dump(&self, o: Endian) -> (r: Option<(Vec<u8>, Vec<u8>)>)
        ensures
            match r {
                Some((a, b)) => texture_blocks(level_views(self.levels@), self.format, o) == Some(
                    (a@, b@),
                ),
                None => texture_blocks(level_views(self.levels@), self.format, o) is None,
            },
    {
        if o == Endian::Big {
            return Some((Vec::new(), Vec::new()));
        }
        let f = self.format;
        let n = self.levels.len();
        if f == 3 || f == 6 || f == 7 || f == 8 || f == 10 || f == 0xb || f == 0xc || f == 0x11 {
            if n > 1 {
                Some((self.levels[0].clone(), concat_levels(&self.levels, 1)))
            } else if n == 1 {
                Some((Vec::new(), self.levels[0].clone()))
            } else {
                None
            }
        } else if n >= 2 {
            Some((self.levels[0].clone(), self.levels[1].clone()))
        } else {
            None
        }
    }
}


/// Formats whose cube faces are written together in the second asset block.
pub open spec fn packed_face_format(f: u32) -> bool {
    f == 3 || f == 7 || f == 8 || f == 10 || f == 0xb || f == 0xc || f == 0x11
}

/// The two asset blocks a cube texture is written as in PC storage; console
/// storage is not written, and gives two empty blocks.
pub open spec fn cube_blocks(faces: Seq<Seq<u8>>, f: u32, o: Endian) -> Option<(Seq<u8>, Seq<u8>)> {
    if o == Endian::Big {
        Some((seq![], seq![]))
    } else if packed_face_format(f) {
        Some((seq![], concat_all(faces)))
    } else if faces.len() >= 2 {
        Some((faces[0], faces[1]))
    } else {
        None
    }
}

impl CubeTexture {
    /// The two asset blocks the cube texture is written as; nothing when it
    /// lacks the faces its format needs.
    pub fn dump(&self, o: Endian) -> (r: Option<(Vec<u8>, Vec<u8>)>)
        ensures
            match r {
                Some((a, b)) => cube_blocks(level_views(self.faces@), self.format, o) == Some(
                    (a@, b@),
                ),
                None => cube_blocks(level_views(self.faces@), self.format, o) is None,
            },
    {
        if o == Endian::Big {
            return Some((Vec::new(), Vec::new()));
        }
        let f = self.format;
        if f == 3 || f == 7 || f == 8 || f == 10 || f == 0xb || f == 0xc || f == 0x11 {
            let all = concat_levels(&self.faces, 0);
            assert(level_views(self.faces@).skip(0) =~= level_views(self.faces@));
            Some((Vec::new(), all))
        } else if self.faces.len() >= 2 {
            Some((self.faces[0].clone(), self.faces[1].clone()))
        } else {
            None
        }
    }
}

impl Tex {
    /// The two asset blocks the texture is written as.
    pub fn dump(&self, o: Endian) -> (r: Option<(Vec<u8>, Vec<u8>)>)
        ensures
            match self {
                Tex::Texture(t) => match r {
                    Some((a, b)) => texture_blocks(level_views(t.levels@), t.format, o) == Some(
                        (a@, b@),
                    ),
                    None => texture_blocks(level_views(t.levels@), t.format, o) is None,
                },
                Tex::CubeTexture(t) => match r {
                    Some((a, b)) => cube_blocks(level_views(t.faces@), t.format, o) == Some(
                        (a@, b@),
                    ),
                    None => cube_blocks(level_views(t.faces@), t.format, o) is None,
                },
            },
    {
        match self {
            Tex::Texture(val) => val.dump(o),
            Tex::CubeTexture(val) => val.dump(o),
        }
    }
}


/// Radiosity data of a level: a table of words.
#[derive(Debug, Clone)]
pub struct Radiosity {
    pub data: Vec<u32>,
}

impl Radiosity {
    /// Reads the whole words of `data` in byte order `o`; trailing bytes that
    /// do not make a whole word are left out.
    pub fn from_data(data: &[u8], o: Endian) -> (r: Radiosity)
        ensures
            r.data@.len() == data@.len() / 4,
            forall|i: int|
                0 <= i < r.data@.len() ==> #[trigger] r.data@[i] == spec_read::<u32>(
                    data@.skip(i * 4),
                    o,
                ),
    {
        let n = data.len() / 4;
        proof {
            reveal_with_fuel(crate::codec::layout_size, 2);
            assert(crate::codec::spec_size::<u32>(o) == 4);
        }
        match from_bytes_vec::<u32>(data, 0, n, o) {
            Ok(v) => Radiosity { data: v },
            Err(_) => {
                assert(n * 4 <= data@.len());
                Radiosity { data: Vec::new() }
            },
        }
    }

    /// The words in byte order `o`.
    pub fn dump(&self, o: Endian) -> (r: Vec<u8>)
        ensures
            r@ == spec_dump_seq(self.data@, o),
    {
        dump_bytes_vec(&self.data, o)
    }
}

} // verus!
