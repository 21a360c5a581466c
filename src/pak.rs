//! Index records of the payload (PAK) file: the header and the fixed-size
//! info tables that point at variable-size data.
pub mod animation;
pub mod mesh;
pub mod shape;

use vstd::prelude::*;
#[allow(unused_imports)]
use crate::codec::{lemma_i32_bits, Cell, Endian, OrderedData, Prim};
#[allow(unused_imports)]
use crate::codec::{extend_from, head_cells, lemma_concat_fits, lemma_head_fits};
#[allow(unused_imports)]
use crate::types::{crc_resolved, Crc, StringTable};
use crate::codec::{dump_bytes_vec, from_bytes_vec, lemma_word_size, spec_dump_seq, spec_read, CodecError};

verus! {

/// Header of the payload file.
#[derive(Debug, Clone, Copy, PartialEq)]
pub struct Header {
    pub block_a_num: u32,
    pub block_a_offset: u32,
    pub constx13: u32,
    pub version: u32,
    pub strings_offset: u32,
    pub strings_size: u32,
    pub strings_num: u32,
    pub block1_offset: u32,
    pub block1_size: u32,
    pub block1_size_comp: u32,
    pub sub_blocks1_offset: u32,
    pub block2_offset: u32,
    pub block2_size: u32,
    pub block2_size_comp: u32,
    pub sub_blocks2_offset: u32,
    pub string_keys_offset: u32,
    pub unk_16: u32,
    pub unk_17: u32,
    pub unk_18: u32,
    pub unk_19: u32,
    pub unk_20: u32,
    pub unk_21: u32,
    pub unk_22: u32,
    pub unk_23: u32,
    pub unk_24: u32,
    pub unk_25: u32,
    pub unk_26: u32,
    pub unk_27: u32,
    pub unk_28: u32,
    pub unk_29: u32,
    pub unk_30: u32,
    pub unk_31: u32,
    pub unk_32: u32,
    pub unk_33: u32,
    pub unk_34: u32,
    pub unk_35: u32,
    pub unk_36: u32,
    pub unk_37: u32,
    pub unk_38: u32,
    pub unk_39: u32,
    pub unk_40: u32,
    pub unk_41: u32,
    pub obja_num: u32,
    pub obj0_num: u32,
    pub mesh_info_num: u32,
    pub buffer_info_num: u32,
    pub mat1_num: u32,
    pub mat2_num: u32,
    pub mat3_num: u32,
    pub mat4_num: u32,
    pub mat_extra_num: u32,
    pub unk_51: u32,
    pub shape_info_num: u32,
    pub hk_shape_info_num: u32,
    pub hk_constraint_data_num: u32,
    pub vbuff_info_num: u32,
    pub ibuff_info_num: u32,
    pub texture_info_num: u32,
    pub animation_info_num: u32,
    pub hk_constraint_info_num: u32,
    pub effect_info_num: u32,
    pub pfield_info_num: u32,
    pub gfx_block_info_num: u32,
    pub animation_block_info_num: u32,
    pub foliage_info_num: u32,
    pub illumination_info_num: u32,
    pub unk_66: u32,
    pub obja_offset: u32,
    pub obj0_offset: u32,
    pub mesh_info_offset: u32,
    pub buffer_info_offset: u32,
    pub mat1_offset: u32,
    pub mat2_offset: u32,
    pub mat3_offset: u32,
    pub mat4_offset: u32,
    pub mat_extra_offset: u32,
    pub unk_76: u32,
    pub shape_info_offset: u32,
    pub hk_shape_info_offset: u32,
    pub hk_constraint_data_offset: u32,
    pub vbuff_info_offset: u32,
    pub ibuff_info_offset: u32,
    pub texture_info_offset: u32,
    pub animation_info_offset: u32,
    pub hk_constraint_info_offset: u32,
    pub effect_info_offset: u32,
    pub pfield_info_offset: u32,
    pub gfx_block_info_offset: u32,
    pub animation_block_info_offset: u32,
    pub foliage_info_offset: u32,
    pub illumination_info_offset: u32,
    pub unk_91: u32,
    pub unk_92: u32,
    pub unk_93: u32,
    pub unk_94: u32,
    pub unk_95: u32,
    pub unk_96: u32,
    pub unk_97: u32,
    pub unk_98: u32,
    pub unk_99: u32,
    pub unk_100: u32,
    pub unk_101: u32,
    pub unk_102: u32,
    pub unk_103: u32,
    pub unk_104: u32,
    pub unk_105: u32,
    pub unk_106: u32,
    pub unk_107: u32,
    pub unk_108: u32,
    pub unk_109: u32,
    pub unk_110: u32,
    pub unk_111: u32,
    pub unk_112: u32,
    pub unk_113: u32,
    pub unk_114: u32,
    pub unk_115: u32,
    pub block2_offsets_num: u32,
    pub block2_offsets_offset: u32,
}

impl OrderedData for Header {
    open spec fn spec_layout(o: Endian) -> Seq<Cell> {
        seq![
            Cell { prim: Prim::U32, endian: Endian::Little },
            Cell { prim: Prim::U32, endian: Endian::Little },
            Cell { prim: Prim::U32, endian: o },
            Cell { prim: Prim::U32, endian: o },
            Cell { prim: Prim::U32, endian: o },
            Cell { prim: Prim::U32, endian: o },
            Cell { prim: Prim::U32, endian: o },
            Cell { prim: Prim::U32, endian: o },
            Cell { prim: Prim::U32, endian: o },
            Cell { prim: Prim::U32, endian: o },
            Cell { prim: Prim::U32, endian: o },
            Cell { prim: Prim::U32, endian: o },
            Cell { prim: Prim::U32, endian: o },
            Cell { prim: Prim::U32, endian: o },
            Cell { prim: Prim::U32, endian: o },
            Cell { prim: Prim::U32, endian: o },
            Cell { prim: Prim::U32, endian: o },
            Cell { prim: Prim::U32, endian: o },
            Cell { prim: Prim::U32, endian: o },
            Cell { prim: Prim::U32, endian: o },
            Cell { prim: Prim::U32, endian: o },
            Cell { prim: Prim::U32, endian: o },
            Cell { prim: Prim::U32, endian: o },
            Cell { prim: Prim::U32, endian: o },
            Cell { prim: Prim::U32, endian: o },
            Cell { prim: Prim::U32, endian: o },
            Cell { prim: Prim::U32, endian: o },
            Cell { prim: Prim::U32, endian: o },
            Cell { prim: Prim::U32, endian: o },
            Cell { prim: Prim::U32, endian: o },
            Cell { prim: Prim::U32, endian: o },
            Cell { prim: Prim::U32, endian: o },
            Cell { prim: Prim::U32, endian: o },
            Cell { prim: Prim::U32, endian: o },
            Cell { prim: Prim::U32, endian: o },
            Cell { prim: Prim::U32, endian: o },
            Cell { prim: Prim::U32, endian: o },
            Cell { prim: Prim::U32, endian: o },
            Cell { prim: Prim::U32, endian: o },
            Cell { prim: Prim::U32, endian: o },
            Cell { prim: Prim::U32, endian: o },
            Cell { prim: Prim::U32, endian: o },
            Cell { prim: Prim::U32, endian: o },
            Cell { prim: Prim::U32, endian: o },
            Cell { prim: Prim::U32, endian: o },
            Cell { prim: Prim::U32, endian: o },
            Cell { prim: Prim::U32, endian: o },
            Cell { prim: Prim::U32, endian: o },
            Cell { prim: Prim::U32, endian: o },
            Cell { prim: Prim::U32, endian: o },
            Cell { prim: Prim::U32, endian: o },
            Cell { prim: Prim::U32, endian: o },
            Cell { prim: Prim::U32, endian: o },
            Cell { prim: Prim::U32, endian: o },
            Cell { prim: Prim::U32, endian: o },
            Cell { prim: Prim::U32, endian: o },
            Cell { prim: Prim::U32, endian: o },
            Cell { prim: Prim::U32, endian: o },
            Cell { prim: Prim::U32, endian: o },
            Cell { prim: Prim::U32, endian: o },
            Cell { prim: Prim::U32, endian: o },
            Cell { prim: Prim::U32, endian: o },
            Cell { prim: Prim::U32, endian: o },
            Cell { prim: Prim::U32, endian: o },
            Cell { prim: Prim::U32, endian: o },
            Cell { prim: Prim::U32, endian: o },
            Cell { prim: Prim::U32, endian: o },
            Cell { prim: Prim::U32, endian: o },
            Cell { prim: Prim::U32, endian: o },
            Cell { prim: Prim::U32, endian: o },
            Cell { prim: Prim::U32, endian: o },
            Cell { prim: Prim::U32, endian: o },
            Cell { prim: Prim::U32, endian: o },
            Cell { prim: Prim::U32, endian: o },
            Cell { prim: Prim::U32, endian: o },
            Cell { prim: Prim::U32, endian: o },
            Cell { prim: Prim::U32, endian: o },
            Cell { prim: Prim::U32, endian: o },
            Cell { prim: Prim::U32, endian: o },
            Cell { prim: Prim::U32, endian: o },
            Cell { prim: Prim::U32, endian: o },
            Cell { prim: Prim::U32, endian: o },
            Cell { prim: Prim::U32, endian: o },
            Cell { prim: Prim::U32, endian: o },
            Cell { prim: Prim::U32, endian: o },
            Cell { prim: Prim::U32, endian: o },
            Cell { prim: Prim::U32, endian: o },
            Cell { prim: Prim::U32, endian: o },
            Cell { prim: Prim::U32, endian: o },
            Cell { prim: Prim::U32, endian: o },
            Cell { prim: Prim::U32, endian: o },
            Cell { prim: Prim::U32, endian: o },
            Cell { prim: Prim::U32, endian: o },
            Cell { prim: Prim::U32, endian: o },
            Cell { prim: Prim::U32, endian: o },
            Cell { prim: Prim::U32, endian: o },
            Cell { prim: Prim::U32, endian: o },
            Cell { prim: Prim::U32, endian: o },
            Cell { prim: Prim::U32, endian: o },
            Cell { prim: Prim::U32, endian: o },
            Cell { prim: Prim::U32, endian: o },
            Cell { prim: Prim::U32, endian: o },
            Cell { prim: Prim::U32, endian: o },
            Cell { prim: Prim::U32, endian: o },
            Cell { prim: Prim::U32, endian: o },
            Cell { prim: Prim::U32, endian: o },
            Cell { prim: Prim::U32, endian: o },
            Cell { prim: Prim::U32, endian: o },
            Cell { prim: Prim::U32, endian: o },
            Cell { prim: Prim::U32, endian: o },
            Cell { prim: Prim::U32, endian: o },
            Cell { prim: Prim::U32, endian: o },
            Cell { prim: Prim::U32, endian: o },
            Cell { prim: Prim::U32, endian: o },
            Cell { prim: Prim::U32, endian: o },
            Cell { prim: Prim::U32, endian: o },
            Cell { prim: Prim::U32, endian: o },
            Cell { prim: Prim::U32, endian: o },
        ]
    }

    open spec fn spec_cells(&self, o: Endian) -> Seq<u64> {
        seq![
            self.block_a_num as u64,
            self.block_a_offset as u64,
            self.constx13 as u64,
            self.version as u64,
            self.strings_offset as u64,
            self.strings_size as u64,
            self.strings_num as u64,
            self.block1_offset as u64,
            self.block1_size as u64,
            self.block1_size_comp as u64,
            self.sub_blocks1_offset as u64,
            self.block2_offset as u64,
            self.block2_size as u64,
            self.block2_size_comp as u64,
            self.sub_blocks2_offset as u64,
            self.string_keys_offset as u64,
            self.unk_16 as u64,
            self.unk_17 as u64,
            self.unk_18 as u64,
            self.unk_19 as u64,
            self.unk_20 as u64,
            self.unk_21 as u64,
            self.unk_22 as u64,
            self.unk_23 as u64,
            self.unk_24 as u64,
            self.unk_25 as u64,
            self.unk_26 as u64,
            self.unk_27 as u64,
            self.unk_28 as u64,
            self.unk_29 as u64,
            self.unk_30 as u64,
            self.unk_31 as u64,
            self.unk_32 as u64,
            self.unk_33 as u64,
            self.unk_34 as u64,
            self.unk_35 as u64,
            self.unk_36 as u64,
            self.unk_37 as u64,
            self.unk_38 as u64,
            self.unk_39 as u64,
            self.unk_40 as u64,
            self.unk_41 as u64,
            self.obja_num as u64,
            self.obj0_num as u64,
            self.mesh_info_num as u64,
            self.buffer_info_num as u64,
            self.mat1_num as u64,
            self.mat2_num as u64,
            self.mat3_num as u64,
            self.mat4_num as u64,
            self.mat_extra_num as u64,
            self.unk_51 as u64,
            self.shape_info_num as u64,
            self.hk_shape_info_num as u64,
            self.hk_constraint_data_num as u64,
            self.vbuff_info_num as u64,
            self.ibuff_info_num as u64,
            self.texture_info_num as u64,
            self.animation_info_num as u64,
            self.hk_constraint_info_num as u64,
            self.effect_info_num as u64,
            self.pfield_info_num as u64,
            self.gfx_block_info_num as u64,
            self.animation_block_info_num as u64,
            self.foliage_info_num as u64,
            self.illumination_info_num as u64,
            self.unk_66 as u64,
            self.obja_offset as u64,
            self.obj0_offset as u64,
            self.mesh_info_offset as u64,
            self.buffer_info_offset as u64,
            self.mat1_offset as u64,
            self.mat2_offset as u64,
            self.mat3_offset as u64,
            self.mat4_offset as u64,
            self.mat_extra_offset as u64,
            self.unk_76 as u64,
            self.shape_info_offset as u64,
            self.hk_shape_info_offset as u64,
            self.hk_constraint_data_offset as u64,
            self.vbuff_info_offset as u64,
            self.ibuff_info_offset as u64,
            self.texture_info_offset as u64,
            self.animation_info_offset as u64,
            self.hk_constraint_info_offset as u64,
            self.effect_info_offset as u64,
            self.pfield_info_offset as u64,
            self.gfx_block_info_offset as u64,
            self.animation_block_info_offset as u64,
            self.foliage_info_offset as u64,
            self.illumination_info_offset as u64,
            self.unk_91 as u64,
            self.unk_92 as u64,
            self.unk_93 as u64,
            self.unk_94 as u64,
            self.unk_95 as u64,
            self.unk_96 as u64,
            self.unk_97 as u64,
            self.unk_98 as u64,
            self.unk_99 as u64,
            self.unk_100 as u64,
            self.unk_101 as u64,
            self.unk_102 as u64,
            self.unk_103 as u64,
            self.unk_104 as u64,
            self.unk_105 as u64,
            self.unk_106 as u64,
            self.unk_107 as u64,
            self.unk_108 as u64,
            self.unk_109 as u64,
            self.unk_110 as u64,
            self.unk_111 as u64,
            self.unk_112 as u64,
            self.unk_113 as u64,
            self.unk_114 as u64,
            self.unk_115 as u64,
            self.block2_offsets_num as u64,
            self.block2_offsets_offset as u64,
        ]
    }

    open spec fn spec_from_cells(c: Seq<u64>, o: Endian) -> Self {
        Header {
            block_a_num: c[0] as u32,
            block_a_offset: c[1] as u32,
            constx13: c[2] as u32,
            version: c[3] as u32,
            strings_offset: c[4] as u32,
            strings_size: c[5] as u32,
            strings_num: c[6] as u32,
            block1_offset: c[7] as u32,
            block1_size: c[8] as u32,
            block1_size_comp: c[9] as u32,
            sub_blocks1_offset: c[10] as u32,
            block2_offset: c[11] as u32,
            block2_size: c[12] as u32,
            block2_size_comp: c[13] as u32,
            sub_blocks2_offset: c[14] as u32,
            string_keys_offset: c[15] as u32,
            unk_16: c[16] as u32,
            unk_17: c[17] as u32,
            unk_18: c[18] as u32,
            unk_19: c[19] as u32,
            unk_20: c[20] as u32,
            unk_21: c[21] as u32,
            unk_22: c[22] as u32,
            unk_23: c[23] as u32,
            unk_24: c[24] as u32,
            unk_25: c[25] as u32,
            unk_26: c[26] as u32,
            unk_27: c[27] as u32,
            unk_28: c[28] as u32,
            unk_29: c[29] as u32,
            unk_30: c[30] as u32,
            unk_31: c[31] as u32,
            unk_32: c[32] as u32,
            unk_33: c[33] as u32,
            unk_34: c[34] as u32,
            unk_35: c[35] as u32,
            unk_36: c[36] as u32,
            unk_37: c[37] as u32,
            unk_38: c[38] as u32,
            unk_39: c[39] as u32,
            unk_40: c[40] as u32,
            unk_41: c[41] as u32,
            obja_num: c[42] as u32,
            obj0_num: c[43] as u32,
            mesh_info_num: c[44] as u32,
            buffer_info_num: c[45] as u32,
            mat1_num: c[46] as u32,
            mat2_num: c[47] as u32,
            mat3_num: c[48] as u32,
            mat4_num: c[49] as u32,
            mat_extra_num: c[50] as u32,
            unk_51: c[51] as u32,
            shape_info_num: c[52] as u32,
            hk_shape_info_num: c[53] as u32,
            hk_constraint_data_num: c[54] as u32,
            vbuff_info_num: c[55] as u32,
            ibuff_info_num: c[56] as u32,
            texture_info_num: c[57] as u32,
            animation_info_num: c[58] as u32,
            hk_constraint_info_num: c[59] as u32,
            effect_info_num: c[60] as u32,
            pfield_info_num: c[61] as u32,
            gfx_block_info_num: c[62] as u32,
            animation_block_info_num: c[63] as u32,
            foliage_info_num: c[64] as u32,
            illumination_info_num: c[65] as u32,
            unk_66: c[66] as u32,
            obja_offset: c[67] as u32,
            obj0_offset: c[68] as u32,
            mesh_info_offset: c[69] as u32,
            buffer_info_offset: c[70] as u32,
            mat1_offset: c[71] as u32,
            mat2_offset: c[72] as u32,
            mat3_offset: c[73] as u32,
            mat4_offset: c[74] as u32,
            mat_extra_offset: c[75] as u32,
            unk_76: c[76] as u32,
            shape_info_offset: c[77] as u32,
            hk_shape_info_offset: c[78] as u32,
            hk_constraint_data_offset: c[79] as u32,
            vbuff_info_offset: c[80] as u32,
            ibuff_info_offset: c[81] as u32,
            texture_info_offset: c[82] as u32,
            animation_info_offset: c[83] as u32,
            hk_constraint_info_offset: c[84] as u32,
            effect_info_offset: c[85] as u32,
            pfield_info_offset: c[86] as u32,
            gfx_block_info_offset: c[87] as u32,
            animation_block_info_offset: c[88] as u32,
            foliage_info_offset: c[89] as u32,
            illumination_info_offset: c[90] as u32,
            unk_91: c[91] as u32,
            unk_92: c[92] as u32,
            unk_93: c[93] as u32,
            unk_94: c[94] as u32,
            unk_95: c[95] as u32,
            unk_96: c[96] as u32,
            unk_97: c[97] as u32,
            unk_98: c[98] as u32,
            unk_99: c[99] as u32,
            unk_100: c[100] as u32,
            unk_101: c[101] as u32,
            unk_102: c[102] as u32,
            unk_103: c[103] as u32,
            unk_104: c[104] as u32,
            unk_105: c[105] as u32,
            unk_106: c[106] as u32,
            unk_107: c[107] as u32,
            unk_108: c[108] as u32,
            unk_109: c[109] as u32,
            unk_110: c[110] as u32,
            unk_111: c[111] as u32,
            unk_112: c[112] as u32,
            unk_113: c[113] as u32,
            unk_114: c[114] as u32,
            unk_115: c[115] as u32,
            block2_offsets_num: c[116] as u32,
            block2_offsets_offset: c[117] as u32,
        }
    }

    open spec fn spec_values(&self) -> Seq<u64> {
        seq![
            self.block_a_num as u64,
            self.block_a_offset as u64,
            self.constx13 as u64,
            self.version as u64,
            self.strings_offset as u64,
            self.strings_size as u64,
            self.strings_num as u64,
            self.block1_offset as u64,
            self.block1_size as u64,
            self.block1_size_comp as u64,
            self.sub_blocks1_offset as u64,
            self.block2_offset as u64,
            self.block2_size as u64,
            self.block2_size_comp as u64,
            self.sub_blocks2_offset as u64,
            self.string_keys_offset as u64,
            self.unk_16 as u64,
            self.unk_17 as u64,
            self.unk_18 as u64,
            self.unk_19 as u64,
            self.unk_20 as u64,
            self.unk_21 as u64,
            self.unk_22 as u64,
            self.unk_23 as u64,
            self.unk_24 as u64,
            self.unk_25 as u64,
            self.unk_26 as u64,
            self.unk_27 as u64,
            self.unk_28 as u64,
            self.unk_29 as u64,
            self.unk_30 as u64,
            self.unk_31 as u64,
            self.unk_32 as u64,
            self.unk_33 as u64,
            self.unk_34 as u64,
            self.unk_35 as u64,
            self.unk_36 as u64,
            self.unk_37 as u64,
            self.unk_38 as u64,
            self.unk_39 as u64,
            self.unk_40 as u64,
            self.unk_41 as u64,
            self.obja_num as u64,
            self.obj0_num as u64,
            self.mesh_info_num as u64,
            self.buffer_info_num as u64,
            self.mat1_num as u64,
            self.mat2_num as u64,
            self.mat3_num as u64,
            self.mat4_num as u64,
            self.mat_extra_num as u64,
            self.unk_51 as u64,
            self.shape_info_num as u64,
            self.hk_shape_info_num as u64,
            self.hk_constraint_data_num as u64,
            self.vbuff_info_num as u64,
            self.ibuff_info_num as u64,
            self.texture_info_num as u64,
            self.animation_info_num as u64,
            self.hk_constraint_info_num as u64,
            self.effect_info_num as u64,
            self.pfield_info_num as u64,
            self.gfx_block_info_num as u64,
            self.animation_block_info_num as u64,
            self.foliage_info_num as u64,
            self.illumination_info_num as u64,
            self.unk_66 as u64,
            self.obja_offset as u64,
            self.obj0_offset as u64,
            self.mesh_info_offset as u64,
            self.buffer_info_offset as u64,
            self.mat1_offset as u64,
            self.mat2_offset as u64,
            self.mat3_offset as u64,
            self.mat4_offset as u64,
            self.mat_extra_offset as u64,
            self.unk_76 as u64,
            self.shape_info_offset as u64,
            self.hk_shape_info_offset as u64,
            self.hk_constraint_data_offset as u64,
            self.vbuff_info_offset as u64,
            self.ibuff_info_offset as u64,
            self.texture_info_offset as u64,
            self.animation_info_offset as u64,
            self.hk_constraint_info_offset as u64,
            self.effect_info_offset as u64,
            self.pfield_info_offset as u64,
            self.gfx_block_info_offset as u64,
            self.animation_block_info_offset as u64,
            self.foliage_info_offset as u64,
            self.illumination_info_offset as u64,
            self.unk_91 as u64,
            self.unk_92 as u64,
            self.unk_93 as u64,
            self.unk_94 as u64,
            self.unk_95 as u64,
            self.unk_96 as u64,
            self.unk_97 as u64,
            self.unk_98 as u64,
            self.unk_99 as u64,
            self.unk_100 as u64,
            self.unk_101 as u64,
            self.unk_102 as u64,
            self.unk_103 as u64,
            self.unk_104 as u64,
            self.unk_105 as u64,
            self.unk_106 as u64,
            self.unk_107 as u64,
            self.unk_108 as u64,
            self.unk_109 as u64,
            self.unk_110 as u64,
            self.unk_111 as u64,
            self.unk_112 as u64,
            self.unk_113 as u64,
            self.unk_114 as u64,
            self.unk_115 as u64,
            self.block2_offsets_num as u64,
            self.block2_offsets_offset as u64,
        ]
    }

    open spec fn spec_fits(&self, o: Endian) -> bool {
        true
    }

    fn layout(o: Endian) -> (r: Vec<Cell>) {
        vec![
            Cell { prim: Prim::U32, endian: Endian::Little },
            Cell { prim: Prim::U32, endian: Endian::Little },
            Cell { prim: Prim::U32, endian: o },
            Cell { prim: Prim::U32, endian: o },
            Cell { prim: Prim::U32, endian: o },
            Cell { prim: Prim::U32, endian: o },
            Cell { prim: Prim::U32, endian: o },
            Cell { prim: Prim::U32, endian: o },
            Cell { prim: Prim::U32, endian: o },
            Cell { prim: Prim::U32, endian: o },
            Cell { prim: Prim::U32, endian: o },
            Cell { prim: Prim::U32, endian: o },
            Cell { prim: Prim::U32, endian: o },
            Cell { prim: Prim::U32, endian: o },
            Cell { prim: Prim::U32, endian: o },
            Cell { prim: Prim::U32, endian: o },
            Cell { prim: Prim::U32, endian: o },
            Cell { prim: Prim::U32, endian: o },
            Cell { prim: Prim::U32, endian: o },
            Cell { prim: Prim::U32, endian: o },
            Cell { prim: Prim::U32, endian: o },
            Cell { prim: Prim::U32, endian: o },
            Cell { prim: Prim::U32, endian: o },
            Cell { prim: Prim::U32, endian: o },
            Cell { prim: Prim::U32, endian: o },
            Cell { prim: Prim::U32, endian: o },
            Cell { prim: Prim::U32, endian: o },
            Cell { prim: Prim::U32, endian: o },
            Cell { prim: Prim::U32, endian: o },
            Cell { prim: Prim::U32, endian: o },
            Cell { prim: Prim::U32, endian: o },
            Cell { prim: Prim::U32, endian: o },
            Cell { prim: Prim::U32, endian: o },
            Cell { prim: Prim::U32, endian: o },
            Cell { prim: Prim::U32, endian: o },
            Cell { prim: Prim::U32, endian: o },
            Cell { prim: Prim::U32, endian: o },
            Cell { prim: Prim::U32, endian: o },
            Cell { prim: Prim::U32, endian: o },
            Cell { prim: Prim::U32, endian: o },
            Cell { prim: Prim::U32, endian: o },
            Cell { prim: Prim::U32, endian: o },
            Cell { prim: Prim::U32, endian: o },
            Cell { prim: Prim::U32, endian: o },
            Cell { prim: Prim::U32, endian: o },
            Cell { prim: Prim::U32, endian: o },
            Cell { prim: Prim::U32, endian: o },
            Cell { prim: Prim::U32, endian: o },
            Cell { prim: Prim::U32, endian: o },
            Cell { prim: Prim::U32, endian: o },
            Cell { prim: Prim::U32, endian: o },
            Cell { prim: Prim::U32, endian: o },
            Cell { prim: Prim::U32, endian: o },
            Cell { prim: Prim::U32, endian: o },
            Cell { prim: Prim::U32, endian: o },
            Cell { prim: Prim::U32, endian: o },
            Cell { prim: Prim::U32, endian: o },
            Cell { prim: Prim::U32, endian: o },
            Cell { prim: Prim::U32, endian: o },
            Cell { prim: Prim::U32, endian: o },
            Cell { prim: Prim::U32, endian: o },
            Cell { prim: Prim::U32, endian: o },
            Cell { prim: Prim::U32, endian: o },
            Cell { prim: Prim::U32, endian: o },
            Cell { prim: Prim::U32, endian: o },
            Cell { prim: Prim::U32, endian: o },
            Cell { prim: Prim::U32, endian: o },
            Cell { prim: Prim::U32, endian: o },
            Cell { prim: Prim::U32, endian: o },
            Cell { prim: Prim::U32, endian: o },
            Cell { prim: Prim::U32, endian: o },
            Cell { prim: Prim::U32, endian: o },
            Cell { prim: Prim::U32, endian: o },
            Cell { prim: Prim::U32, endian: o },
            Cell { prim: Prim::U32, endian: o },
            Cell { prim: Prim::U32, endian: o },
            Cell { prim: Prim::U32, endian: o },
            Cell { prim: Prim::U32, endian: o },
            Cell { prim: Prim::U32, endian: o },
            Cell { prim: Prim::U32, endian: o },
            Cell { prim: Prim::U32, endian: o },
            Cell { prim: Prim::U32, endian: o },
            Cell { prim: Prim::U32, endian: o },
            Cell { prim: Prim::U32, endian: o },
            Cell { prim: Prim::U32, endian: o },
            Cell { prim: Prim::U32, endian: o },
            Cell { prim: Prim::U32, endian: o },
            Cell { prim: Prim::U32, endian: o },
            Cell { prim: Prim::U32, endian: o },
            Cell { prim: Prim::U32, endian: o },
            Cell { prim: Prim::U32, endian: o },
            Cell { prim: Prim::U32, endian: o },
            Cell { prim: Prim::U32, endian: o },
            Cell { prim: Prim::U32, endian: o },
            Cell { prim: Prim::U32, endian: o },
            Cell { prim: Prim::U32, endian: o },
            Cell { prim: Prim::U32, endian: o },
            Cell { prim: Prim::U32, endian: o },
            Cell { prim: Prim::U32, endian: o },
            Cell { prim: Prim::U32, endian: o },
            Cell { prim: Prim::U32, endian: o },
            Cell { prim: Prim::U32, endian: o },
            Cell { prim: Prim::U32, endian: o },
            Cell { prim: Prim::U32, endian: o },
            Cell { prim: Prim::U32, endian: o },
            Cell { prim: Prim::U32, endian: o },
            Cell { prim: Prim::U32, endian: o },
            Cell { prim: Prim::U32, endian: o },
            Cell { prim: Prim::U32, endian: o },
            Cell { prim: Prim::U32, endian: o },
            Cell { prim: Prim::U32, endian: o },
            Cell { prim: Prim::U32, endian: o },
            Cell { prim: Prim::U32, endian: o },
            Cell { prim: Prim::U32, endian: o },
            Cell { prim: Prim::U32, endian: o },
            Cell { prim: Prim::U32, endian: o },
            Cell { prim: Prim::U32, endian: o },
            Cell { prim: Prim::U32, endian: o },
        ]
    }

    fn to_cells(&self, o: Endian) -> (r: Vec<u64>) {
        vec![
            self.block_a_num as u64,
            self.block_a_offset as u64,
            self.constx13 as u64,
            self.version as u64,
            self.strings_offset as u64,
            self.strings_size as u64,
            self.strings_num as u64,
            self.block1_offset as u64,
            self.block1_size as u64,
            self.block1_size_comp as u64,
            self.sub_blocks1_offset as u64,
            self.block2_offset as u64,
            self.block2_size as u64,
            self.block2_size_comp as u64,
            self.sub_blocks2_offset as u64,
            self.string_keys_offset as u64,
            self.unk_16 as u64,
            self.unk_17 as u64,
            self.unk_18 as u64,
            self.unk_19 as u64,
            self.unk_20 as u64,
            self.unk_21 as u64,
            self.unk_22 as u64,
            self.unk_23 as u64,
            self.unk_24 as u64,
            self.unk_25 as u64,
            self.unk_26 as u64,
            self.unk_27 as u64,
            self.unk_28 as u64,
            self.unk_29 as u64,
            self.unk_30 as u64,
            self.unk_31 as u64,
            self.unk_32 as u64,
            self.unk_33 as u64,
            self.unk_34 as u64,
            self.unk_35 as u64,
            self.unk_36 as u64,
            self.unk_37 as u64,
            self.unk_38 as u64,
            self.unk_39 as u64,
            self.unk_40 as u64,
            self.unk_41 as u64,
            self.obja_num as u64,
            self.obj0_num as u64,
            self.mesh_info_num as u64,
            self.buffer_info_num as u64,
            self.mat1_num as u64,
            self.mat2_num as u64,
            self.mat3_num as u64,
            self.mat4_num as u64,
            self.mat_extra_num as u64,
            self.unk_51 as u64,
            self.shape_info_num as u64,
            self.hk_shape_info_num as u64,
            self.hk_constraint_data_num as u64,
            self.vbuff_info_num as u64,
            self.ibuff_info_num as u64,
            self.texture_info_num as u64,
            self.animation_info_num as u64,
            self.hk_constraint_info_num as u64,
            self.effect_info_num as u64,
            self.pfield_info_num as u64,
            self.gfx_block_info_num as u64,
            self.animation_block_info_num as u64,
            self.foliage_info_num as u64,
            self.illumination_info_num as u64,
            self.unk_66 as u64,
            self.obja_offset as u64,
            self.obj0_offset as u64,
            self.mesh_info_offset as u64,
            self.buffer_info_offset as u64,
            self.mat1_offset as u64,
            self.mat2_offset as u64,
            self.mat3_offset as u64,
            self.mat4_offset as u64,
            self.mat_extra_offset as u64,
            self.unk_76 as u64,
            self.shape_info_offset as u64,
            self.hk_shape_info_offset as u64,
            self.hk_constraint_data_offset as u64,
            self.vbuff_info_offset as u64,
            self.ibuff_info_offset as u64,
            self.texture_info_offset as u64,
            self.animation_info_offset as u64,
            self.hk_constraint_info_offset as u64,
            self.effect_info_offset as u64,
            self.pfield_info_offset as u64,
            self.gfx_block_info_offset as u64,
            self.animation_block_info_offset as u64,
            self.foliage_info_offset as u64,
            self.illumination_info_offset as u64,
            self.unk_91 as u64,
            self.unk_92 as u64,
            self.unk_93 as u64,
            self.unk_94 as u64,
            self.unk_95 as u64,
            self.unk_96 as u64,
            self.unk_97 as u64,
            self.unk_98 as u64,
            self.unk_99 as u64,
            self.unk_100 as u64,
            self.unk_101 as u64,
            self.unk_102 as u64,
            self.unk_103 as u64,
            self.unk_104 as u64,
            self.unk_105 as u64,
            self.unk_106 as u64,
            self.unk_107 as u64,
            self.unk_108 as u64,
            self.unk_109 as u64,
            self.unk_110 as u64,
            self.unk_111 as u64,
            self.unk_112 as u64,
            self.unk_113 as u64,
            self.unk_114 as u64,
            self.unk_115 as u64,
            self.block2_offsets_num as u64,
            self.block2_offsets_offset as u64,
        ]
    }

    fn from_cells(c: &Vec<u64>, o: Endian) -> (r: Self) {
        Header {
            block_a_num: c[0] as u32,
            block_a_offset: c[1] as u32,
            constx13: c[2] as u32,
            version: c[3] as u32,
            strings_offset: c[4] as u32,
            strings_size: c[5] as u32,
            strings_num: c[6] as u32,
            block1_offset: c[7] as u32,
            block1_size: c[8] as u32,
            block1_size_comp: c[9] as u32,
            sub_blocks1_offset: c[10] as u32,
            block2_offset: c[11] as u32,
            block2_size: c[12] as u32,
            block2_size_comp: c[13] as u32,
            sub_blocks2_offset: c[14] as u32,
            string_keys_offset: c[15] as u32,
            unk_16: c[16] as u32,
            unk_17: c[17] as u32,
            unk_18: c[18] as u32,
            unk_19: c[19] as u32,
            unk_20: c[20] as u32,
            unk_21: c[21] as u32,
            unk_22: c[22] as u32,
            unk_23: c[23] as u32,
            unk_24: c[24] as u32,
            unk_25: c[25] as u32,
            unk_26: c[26] as u32,
            unk_27: c[27] as u32,
            unk_28: c[28] as u32,
            unk_29: c[29] as u32,
            unk_30: c[30] as u32,
            unk_31: c[31] as u32,
            unk_32: c[32] as u32,
            unk_33: c[33] as u32,
            unk_34: c[34] as u32,
            unk_35: c[35] as u32,
            unk_36: c[36] as u32,
            unk_37: c[37] as u32,
            unk_38: c[38] as u32,
            unk_39: c[39] as u32,
            unk_40: c[40] as u32,
            unk_41: c[41] as u32,
            obja_num: c[42] as u32,
            obj0_num: c[43] as u32,
            mesh_info_num: c[44] as u32,
            buffer_info_num: c[45] as u32,
            mat1_num: c[46] as u32,
            mat2_num: c[47] as u32,
            mat3_num: c[48] as u32,
            mat4_num: c[49] as u32,
            mat_extra_num: c[50] as u32,
            unk_51: c[51] as u32,
            shape_info_num: c[52] as u32,
            hk_shape_info_num: c[53] as u32,
            hk_constraint_data_num: c[54] as u32,
            vbuff_info_num: c[55] as u32,
            ibuff_info_num: c[56] as u32,
            texture_info_num: c[57] as u32,
            animation_info_num: c[58] as u32,
            hk_constraint_info_num: c[59] as u32,
            effect_info_num: c[60] as u32,
            pfield_info_num: c[61] as u32,
            gfx_block_info_num: c[62] as u32,
            animation_block_info_num: c[63] as u32,
            foliage_info_num: c[64] as u32,
            illumination_info_num: c[65] as u32,
            unk_66: c[66] as u32,
            obja_offset: c[67] as u32,
            obj0_offset: c[68] as u32,
            mesh_info_offset: c[69] as u32,
            buffer_info_offset: c[70] as u32,
            mat1_offset: c[71] as u32,
            mat2_offset: c[72] as u32,
            mat3_offset: c[73] as u32,
            mat4_offset: c[74] as u32,
            mat_extra_offset: c[75] as u32,
            unk_76: c[76] as u32,
            shape_info_offset: c[77] as u32,
            hk_shape_info_offset: c[78] as u32,
            hk_constraint_data_offset: c[79] as u32,
            vbuff_info_offset: c[80] as u32,
            ibuff_info_offset: c[81] as u32,
            texture_info_offset: c[82] as u32,
            animation_info_offset: c[83] as u32,
            hk_constraint_info_offset: c[84] as u32,
            effect_info_offset: c[85] as u32,
            pfield_info_offset: c[86] as u32,
            gfx_block_info_offset: c[87] as u32,
            animation_block_info_offset: c[88] as u32,
            foliage_info_offset: c[89] as u32,
            illumination_info_offset: c[90] as u32,
            unk_91: c[91] as u32,
            unk_92: c[92] as u32,
            unk_93: c[93] as u32,
            unk_94: c[94] as u32,
            unk_95: c[95] as u32,
            unk_96: c[96] as u32,
            unk_97: c[97] as u32,
            unk_98: c[98] as u32,
            unk_99: c[99] as u32,
            unk_100: c[100] as u32,
            unk_101: c[101] as u32,
            unk_102: c[102] as u32,
            unk_103: c[103] as u32,
            unk_104: c[104] as u32,
            unk_105: c[105] as u32,
            unk_106: c[106] as u32,
            unk_107: c[107] as u32,
            unk_108: c[108] as u32,
            unk_109: c[109] as u32,
            unk_110: c[110] as u32,
            unk_111: c[111] as u32,
            unk_112: c[112] as u32,
            unk_113: c[113] as u32,
            unk_114: c[114] as u32,
            unk_115: c[115] as u32,
            block2_offsets_num: c[116] as u32,
            block2_offsets_offset: c[117] as u32,
        }
    }

    open spec fn spec_keys_resolved(&self, m: Map<u32, Seq<char>>) -> bool {
        true
    }

    #[verifier::rlimit(100)]
    #[verifier::spinoff_prover]
    fn resolved(&self, table: &StringTable) -> (r: Self) {
        *self
    }

    proof fn lemma_layout_small(o: Endian) {
    }

    #[verifier::rlimit(100)]
    #[verifier::spinoff_prover]
    proof fn lemma_cells(&self, o: Endian) {
    }
}

/// An entry of the payload file's first table.
#[derive(Debug, Clone, PartialEq)]
pub struct ObjA {
    pub key: Crc,
    pub unk_1: u32,
    pub size: u32,
    pub size_comp: u32,
    pub unk_4: u32,
    pub kind: u32,
}

impl OrderedData for ObjA {
    open spec fn spec_layout(o: Endian) -> Seq<Cell> {
        seq![
            Cell { prim: Prim::U32, endian: Endian::Little },
            Cell { prim: Prim::U32, endian: Endian::Little },
            Cell { prim: Prim::U32, endian: Endian::Little },
            Cell { prim: Prim::U32, endian: Endian::Little },
            Cell { prim: Prim::U32, endian: Endian::Little },
            Cell { prim: Prim::U32, endian: Endian::Little },
        ]
    }

    open spec fn spec_cells(&self, o: Endian) -> Seq<u64> {
        seq![
            self.key.spec_key() as u64,
            self.unk_1 as u64,
            self.size as u64,
            self.size_comp as u64,
            self.unk_4 as u64,
            self.kind as u64,
        ]
    }

    open spec fn spec_from_cells(c: Seq<u64>, o: Endian) -> Self {
        ObjA {
            key: Crc::Key(c[0] as u32),
            unk_1: c[1] as u32,
            size: c[2] as u32,
            size_comp: c[3] as u32,
            unk_4: c[4] as u32,
            kind: c[5] as u32,
        }
    }

    open spec fn spec_values(&self) -> Seq<u64> {
        seq![
            self.key.spec_key() as u64,
            self.unk_1 as u64,
            self.size as u64,
            self.size_comp as u64,
            self.unk_4 as u64,
            self.kind as u64,
        ]
    }

    open spec fn spec_fits(&self, o: Endian) -> bool {
        true
    }

    fn layout(o: Endian) -> (r: Vec<Cell>) {
        vec![
            Cell { prim: Prim::U32, endian: Endian::Little },
            Cell { prim: Prim::U32, endian: Endian::Little },
            Cell { prim: Prim::U32, endian: Endian::Little },
            Cell { prim: Prim::U32, endian: Endian::Little },
            Cell { prim: Prim::U32, endian: Endian::Little },
            Cell { prim: Prim::U32, endian: Endian::Little },
        ]
    }

    fn to_cells(&self, o: Endian) -> (r: Vec<u64>) {
        vec![
            self.key.key() as u64,
            self.unk_1 as u64,
            self.size as u64,
            self.size_comp as u64,
            self.unk_4 as u64,
            self.kind as u64,
        ]
    }

    fn from_cells(c: &Vec<u64>, o: Endian) -> (r: Self) {
        ObjA {
            key: Crc::Key(c[0] as u32),
            unk_1: c[1] as u32,
            size: c[2] as u32,
            size_comp: c[3] as u32,
            unk_4: c[4] as u32,
            kind: c[5] as u32,
        }
    }

    open spec fn spec_keys_resolved(&self, m: Map<u32, Seq<char>>) -> bool {
        crc_resolved(self.key, m)
    }

    fn resolved(&self, table: &StringTable) -> (r: Self) {
        ObjA {
            key: Crc::resolve(self.key.key(), table),
            unk_1: self.unk_1,
            size: self.size,
            size_comp: self.size_comp,
            unk_4: self.unk_4,
            kind: self.kind,
        }
    }

    proof fn lemma_layout_small(o: Endian) {
    }

    proof fn lemma_cells(&self, o: Endian) {
    }
}

/// A keyed entry of the payload file's second table.
#[derive(Debug, Clone, PartialEq)]
pub struct Obj0 {
    pub unk_0: u32,
    pub key: Crc,
}

impl OrderedData for Obj0 {
    open spec fn spec_layout(o: Endian) -> Seq<Cell> {
        seq![
            Cell { prim: Prim::U32, endian: Endian::Little },
            Cell { prim: Prim::U32, endian: Endian::Little },
        ]
    }

    open spec fn spec_cells(&self, o: Endian) -> Seq<u64> {
        seq![
            self.unk_0 as u64,
            self.key.spec_key() as u64,
        ]
    }

    open spec fn spec_from_cells(c: Seq<u64>, o: Endian) -> Self {
        Obj0 {
            unk_0: c[0] as u32,
            key: Crc::Key(c[1] as u32),
        }
    }

    open spec fn spec_values(&self) -> Seq<u64> {
        seq![
            self.unk_0 as u64,
            self.key.spec_key() as u64,
        ]
    }

    open spec fn spec_fits(&self, o: Endian) -> bool {
        true
    }

    fn layout(o: Endian) -> (r: Vec<Cell>) {
        vec![
            Cell { prim: Prim::U32, endian: Endian::Little },
            Cell { prim: Prim::U32, endian: Endian::Little },
        ]
    }

    fn to_cells(&self, o: Endian) -> (r: Vec<u64>) {
        vec![
            self.unk_0 as u64,
            self.key.key() as u64,
        ]
    }

    fn from_cells(c: &Vec<u64>, o: Endian) -> (r: Self) {
        Obj0 {
            unk_0: c[0] as u32,
            key: Crc::Key(c[1] as u32),
        }
    }

    open spec fn spec_keys_resolved(&self, m: Map<u32, Seq<char>>) -> bool {
        crc_resolved(self.key, m)
    }

    fn resolved(&self, table: &StringTable) -> (r: Self) {
        Obj0 {
            unk_0: self.unk_0,
            key: Crc::resolve(self.key.key(), table),
        }
    }

    proof fn lemma_layout_small(o: Endian) {
    }

    proof fn lemma_cells(&self, o: Endian) {
    }
}

/// Index record of a mesh.
#[derive(Debug, Clone, PartialEq)]
pub struct MeshInfo {
    pub key: Crc,
    pub gamemodemask: i32,
    pub mat_offset: u32,
    pub buffer_info_offset: u32,
    pub unk_4: u32,
    pub unk_5: u32,
    pub unk_6: u32,
    pub unk_7: u32,
    pub unk_8: u32,
    pub unk_9: u32,
    pub unk_10: u32,
    pub unk_11: u32,
    pub vals_c_offset: u32,
    pub unk_13: u32,
    pub unk_14: u32,
    pub block_start: u32,
    pub block_end: u32,
    pub unk_17: u32,
    pub unk_18: u32,
    pub unk_19: u32,
    pub unk_20: u32,
    pub unk_21: u32,
    pub unk_22: u32,
    pub unk_23: u32,
    pub unk_24: u32,
    pub unk_25: u32,
    pub unk_26: u32,
    pub unk_27: u32,
    pub unk_28: u32,
    pub unk_29: u32,
    pub unk_30: u32,
    pub unk_31: u32,
    pub vals_c_num: u32,
    pub mat_num: u32,
    pub keys_offset: u32,
    pub indices_offset: u32,
    pub matrices_offset: u32,
    pub keys_num: u32,
    pub vals_g_offset: u32,
    pub vals_g_num: u32,
    pub vals_i_offset: u32,
    pub vbuff_offset: u32,
    pub vbuff_num: u32,
    pub ibuff_offset: u32,
    pub ibuff_num: u32,
    pub vals_d_offset: u32,
    pub unk_46: u32,
    pub unk_47: u32,
    pub vals_j_num: u32,
    pub vals_j_offset: u32,
    pub block_offset: u32,
    pub vals_k_offset: u32,
    pub asset_key: Crc,
    pub asset_type: u32,
    pub unk_54: u32,
    pub unk_55: u32,
    pub shape_offset: u32,
    pub shape_num: u32,
    pub hk_constraint_data_offset: u32,
    pub hk_constraint_data_num: u32,
    pub hk_constraint_offset: u32,
    pub keys2_offset: u32,
    pub keys2_order_offset: u32,
    pub vals_a_offset: u32,
}

impl OrderedData for MeshInfo {
    open spec fn spec_layout(o: Endian) -> Seq<Cell> {
        seq![
            Cell { prim: Prim::U32, endian: o },
            Cell { prim: Prim::U32, endian: o },
            Cell { prim: Prim::U32, endian: o },
            Cell { prim: Prim::U32, endian: o },
            Cell { prim: Prim::U32, endian: o },
            Cell { prim: Prim::U32, endian: o },
            Cell { prim: Prim::U32, endian: o },
            Cell { prim: Prim::U32, endian: o },
            Cell { prim: Prim::U32, endian: o },
            Cell { prim: Prim::U32, endian: o },
            Cell { prim: Prim::U32, endian: o },
            Cell { prim: Prim::U32, endian: o },
            Cell { prim: Prim::U32, endian: o },
            Cell { prim: Prim::U32, endian: o },
            Cell { prim: Prim::U32, endian: o },
            Cell { prim: Prim::U32, endian: o },
            Cell { prim: Prim::U32, endian: o },
            Cell { prim: Prim::U32, endian: o },
            Cell { prim: Prim::U32, endian: o },
            Cell { prim: Prim::U32, endian: o },
            Cell { prim: Prim::U32, endian: o },
            Cell { prim: Prim::U32, endian: o },
            Cell { prim: Prim::U32, endian: o },
            Cell { prim: Prim::U32, endian: o },
            Cell { prim: Prim::U32, endian: o },
            Cell { prim: Prim::U32, endian: o },
            Cell { prim: Prim::U32, endian: o },
            Cell { prim: Prim::U32, endian: o },
            Cell { prim: Prim::U32, endian: o },
            Cell { prim: Prim::U32, endian: o },
            Cell { prim: Prim::U32, endian: o },
            Cell { prim: Prim::U32, endian: o },
            Cell { prim: Prim::U32, endian: o },
            Cell { prim: Prim::U32, endian: o },
            Cell { prim: Prim::U32, endian: o },
            Cell { prim: Prim::U32, endian: o },
            Cell { prim: Prim::U32, endian: o },
            Cell { prim: Prim::U32, endian: o },
            Cell { prim: Prim::U32, endian: o },
            Cell { prim: Prim::U32, endian: o },
            Cell { prim: Prim::U32, endian: o },
            Cell { prim: Prim::U32, endian: o },
            Cell { prim: Prim::U32, endian: o },
            Cell { prim: Prim::U32, endian: o },
            Cell { prim: Prim::U32, endian: o },
            Cell { prim: Prim::U32, endian: o },
            Cell { prim: Prim::U32, endian: o },
            Cell { prim: Prim::U32, endian: o },
            Cell { prim: Prim::U32, endian: o },
            Cell { prim: Prim::U32, endian: o },
            Cell { prim: Prim::U32, endian: o },
            Cell { prim: Prim::U32, endian: o },
            Cell { prim: Prim::U32, endian: o },
            Cell { prim: Prim::U32, endian: o },
            Cell { prim: Prim::U32, endian: o },
            Cell { prim: Prim::U32, endian: o },
            Cell { prim: Prim::U32, endian: o },
            Cell { prim: Prim::U32, endian: o },
            Cell { prim: Prim::U32, endian: o },
            Cell { prim: Prim::U32, endian: o },
            Cell { prim: Prim::U32, endian: o },
            Cell { prim: Prim::U32, endian: o },
            Cell { prim: Prim::U32, endian: o },
            Cell { prim: Prim::U32, endian: o },
        ]
    }

    open spec fn spec_cells(&self, o: Endian) -> Seq<u64> {
        seq![
            self.key.spec_key() as u64,
            (self.gamemodemask as u32) as u64,
            self.mat_offset as u64,
            self.buffer_info_offset as u64,
            self.unk_4 as u64,
            self.unk_5 as u64,
            self.unk_6 as u64,
            self.unk_7 as u64,
            self.unk_8 as u64,
            self.unk_9 as u64,
            self.unk_10 as u64,
            self.unk_11 as u64,
            self.vals_c_offset as u64,
            self.unk_13 as u64,
            self.unk_14 as u64,
            self.block_start as u64,
            self.block_end as u64,
            self.unk_17 as u64,
            self.unk_18 as u64,
            self.unk_19 as u64,
            self.unk_20 as u64,
            self.unk_21 as u64,
            self.unk_22 as u64,
            self.unk_23 as u64,
            self.unk_24 as u64,
            self.unk_25 as u64,
            self.unk_26 as u64,
            self.unk_27 as u64,
            self.unk_28 as u64,
            self.unk_29 as u64,
            self.unk_30 as u64,
            self.unk_31 as u64,
            self.vals_c_num as u64,
            self.mat_num as u64,
            self.keys_offset as u64,
            self.indices_offset as u64,
            self.matrices_offset as u64,
            self.keys_num as u64,
            self.vals_g_offset as u64,
            self.vals_g_num as u64,
            self.vals_i_offset as u64,
            self.vbuff_offset as u64,
            self.vbuff_num as u64,
            self.ibuff_offset as u64,
            self.ibuff_num as u64,
            self.vals_d_offset as u64,
            self.unk_46 as u64,
            self.unk_47 as u64,
            self.vals_j_num as u64,
            self.vals_j_offset as u64,
            self.block_offset as u64,
            self.vals_k_offset as u64,
            self.asset_key.spec_key() as u64,
            self.asset_type as u64,
            self.unk_54 as u64,
            self.unk_55 as u64,
            self.shape_offset as u64,
            self.shape_num as u64,
            self.hk_constraint_data_offset as u64,
            self.hk_constraint_data_num as u64,
            self.hk_constraint_offset as u64,
            self.keys2_offset as u64,
            self.keys2_order_offset as u64,
            self.vals_a_offset as u64,
        ]
    }

    open spec fn spec_from_cells(c: Seq<u64>, o: Endian) -> Self {
        MeshInfo {
            key: Crc::Key(c[0] as u32),
            gamemodemask: (c[1] as u32) as i32,
            mat_offset: c[2] as u32,
            buffer_info_offset: c[3] as u32,
            unk_4: c[4] as u32,
            unk_5: c[5] as u32,
            unk_6: c[6] as u32,
            unk_7: c[7] as u32,
            unk_8: c[8] as u32,
            unk_9: c[9] as u32,
            unk_10: c[10] as u32,
            unk_11: c[11] as u32,
            vals_c_offset: c[12] as u32,
            unk_13: c[13] as u32,
            unk_14: c[14] as u32,
            block_start: c[15] as u32,
            block_end: c[16] as u32,
            unk_17: c[17] as u32,
            unk_18: c[18] as u32,
            unk_19: c[19] as u32,
            unk_20: c[20] as u32,
            unk_21: c[21] as u32,
            unk_22: c[22] as u32,
            unk_23: c[23] as u32,
            unk_24: c[24] as u32,
            unk_25: c[25] as u32,
            unk_26: c[26] as u32,
            unk_27: c[27] as u32,
            unk_28: c[28] as u32,
            unk_29: c[29] as u32,
            unk_30: c[30] as u32,
            unk_31: c[31] as u32,
            vals_c_num: c[32] as u32,
            mat_num: c[33] as u32,
            keys_offset: c[34] as u32,
            indices_offset: c[35] as u32,
            matrices_offset: c[36] as u32,
            keys_num: c[37] as u32,
            vals_g_offset: c[38] as u32,
            vals_g_num: c[39] as u32,
            vals_i_offset: c[40] as u32,
            vbuff_offset: c[41] as u32,
            vbuff_num: c[42] as u32,
            ibuff_offset: c[43] as u32,
            ibuff_num: c[44] as u32,
            vals_d_offset: c[45] as u32,
            unk_46: c[46] as u32,
            unk_47: c[47] as u32,
            vals_j_num: c[48] as u32,
            vals_j_offset: c[49] as u32,
            block_offset: c[50] as u32,
            vals_k_offset: c[51] as u32,
            asset_key: Crc::Key(c[52] as u32),
            asset_type: c[53] as u32,
            unk_54: c[54] as u32,
            unk_55: c[55] as u32,
            shape_offset: c[56] as u32,
            shape_num: c[57] as u32,
            hk_constraint_data_offset: c[58] as u32,
            hk_constraint_data_num: c[59] as u32,
            hk_constraint_offset: c[60] as u32,
            keys2_offset: c[61] as u32,
            keys2_order_offset: c[62] as u32,
            vals_a_offset: c[63] as u32,
        }
    }

    open spec fn spec_values(&self) -> Seq<u64> {
        seq![
            self.key.spec_key() as u64,
            (self.gamemodemask as u32) as u64,
            self.mat_offset as u64,
            self.buffer_info_offset as u64,
            self.unk_4 as u64,
            self.unk_5 as u64,
            self.unk_6 as u64,
            self.unk_7 as u64,
            self.unk_8 as u64,
            self.unk_9 as u64,
            self.unk_10 as u64,
            self.unk_11 as u64,
            self.vals_c_offset as u64,
            self.unk_13 as u64,
            self.unk_14 as u64,
            self.block_start as u64,
            self.block_end as u64,
            self.unk_17 as u64,
            self.unk_18 as u64,
            self.unk_19 as u64,
            self.unk_20 as u64,
            self.unk_21 as u64,
            self.unk_22 as u64,
            self.unk_23 as u64,
            self.unk_24 as u64,
            self.unk_25 as u64,
            self.unk_26 as u64,
            self.unk_27 as u64,
            self.unk_28 as u64,
            self.unk_29 as u64,
            self.unk_30 as u64,
            self.unk_31 as u64,
            self.vals_c_num as u64,
            self.mat_num as u64,
            self.keys_offset as u64,
            self.indices_offset as u64,
            self.matrices_offset as u64,
            self.keys_num as u64,
            self.vals_g_offset as u64,
            self.vals_g_num as u64,
            self.vals_i_offset as u64,
            self.vbuff_offset as u64,
            self.vbuff_num as u64,
            self.ibuff_offset as u64,
            self.ibuff_num as u64,
            self.vals_d_offset as u64,
            self.unk_46 as u64,
            self.unk_47 as u64,
            self.vals_j_num as u64,
            self.vals_j_offset as u64,
            self.block_offset as u64,
            self.vals_k_offset as u64,
            self.asset_key.spec_key() as u64,
            self.asset_type as u64,
            self.unk_54 as u64,
            self.unk_55 as u64,
            self.shape_offset as u64,
            self.shape_num as u64,
            self.hk_constraint_data_offset as u64,
            self.hk_constraint_data_num as u64,
            self.hk_constraint_offset as u64,
            self.keys2_offset as u64,
            self.keys2_order_offset as u64,
            self.vals_a_offset as u64,
        ]
    }

    open spec fn spec_fits(&self, o: Endian) -> bool {
        true
    }

    fn layout(o: Endian) -> (r: Vec<Cell>) {
        vec![
            Cell { prim: Prim::U32, endian: o },
            Cell { prim: Prim::U32, endian: o },
            Cell { prim: Prim::U32, endian: o },
            Cell { prim: Prim::U32, endian: o },
            Cell { prim: Prim::U32, endian: o },
            Cell { prim: Prim::U32, endian: o },
            Cell { prim: Prim::U32, endian: o },
            Cell { prim: Prim::U32, endian: o },
            Cell { prim: Prim::U32, endian: o },
            Cell { prim: Prim::U32, endian: o },
            Cell { prim: Prim::U32, endian: o },
            Cell { prim: Prim::U32, endian: o },
            Cell { prim: Prim::U32, endian: o },
            Cell { prim: Prim::U32, endian: o },
            Cell { prim: Prim::U32, endian: o },
            Cell { prim: Prim::U32, endian: o },
            Cell { prim: Prim::U32, endian: o },
            Cell { prim: Prim::U32, endian: o },
            Cell { prim: Prim::U32, endian: o },
            Cell { prim: Prim::U32, endian: o },
            Cell { prim: Prim::U32, endian: o },
            Cell { prim: Prim::U32, endian: o },
            Cell { prim: Prim::U32, endian: o },
            Cell { prim: Prim::U32, endian: o },
            Cell { prim: Prim::U32, endian: o },
            Cell { prim: Prim::U32, endian: o },
            Cell { prim: Prim::U32, endian: o },
            Cell { prim: Prim::U32, endian: o },
            Cell { prim: Prim::U32, endian: o },
            Cell { prim: Prim::U32, endian: o },
            Cell { prim: Prim::U32, endian: o },
            Cell { prim: Prim::U32, endian: o },
            Cell { prim: Prim::U32, endian: o },
            Cell { prim: Prim::U32, endian: o },
            Cell { prim: Prim::U32, endian: o },
            Cell { prim: Prim::U32, endian: o },
            Cell { prim: Prim::U32, endian: o },
            Cell { prim: Prim::U32, endian: o },
            Cell { prim: Prim::U32, endian: o },
            Cell { prim: Prim::U32, endian: o },
            Cell { prim: Prim::U32, endian: o },
            Cell { prim: Prim::U32, endian: o },
            Cell { prim: Prim::U32, endian: o },
            Cell { prim: Prim::U32, endian: o },
            Cell { prim: Prim::U32, endian: o },
            Cell { prim: Prim::U32, endian: o },
            Cell { prim: Prim::U32, endian: o },
            Cell { prim: Prim::U32, endian: o },
            Cell { prim: Prim::U32, endian: o },
            Cell { prim: Prim::U32, endian: o },
            Cell { prim: Prim::U32, endian: o },
            Cell { prim: Prim::U32, endian: o },
            Cell { prim: Prim::U32, endian: o },
            Cell { prim: Prim::U32, endian: o },
            Cell { prim: Prim::U32, endian: o },
            Cell { prim: Prim::U32, endian: o },
            Cell { prim: Prim::U32, endian: o },
            Cell { prim: Prim::U32, endian: o },
            Cell { prim: Prim::U32, endian: o },
            Cell { prim: Prim::U32, endian: o },
            Cell { prim: Prim::U32, endian: o },
            Cell { prim: Prim::U32, endian: o },
            Cell { prim: Prim::U32, endian: o },
            Cell { prim: Prim::U32, endian: o },
        ]
    }

    fn to_cells(&self, o: Endian) -> (r: Vec<u64>) {
        vec![
            self.key.key() as u64,
            (self.gamemodemask as u32) as u64,
            self.mat_offset as u64,
            self.buffer_info_offset as u64,
            self.unk_4 as u64,
            self.unk_5 as u64,
            self.unk_6 as u64,
            self.unk_7 as u64,
            self.unk_8 as u64,
            self.unk_9 as u64,
            self.unk_10 as u64,
            self.unk_11 as u64,
            self.vals_c_offset as u64,
            self.unk_13 as u64,
            self.unk_14 as u64,
            self.block_start as u64,
            self.block_end as u64,
            self.unk_17 as u64,
            self.unk_18 as u64,
            self.unk_19 as u64,
            self.unk_20 as u64,
            self.unk_21 as u64,
            self.unk_22 as u64,
            self.unk_23 as u64,
            self.unk_24 as u64,
            self.unk_25 as u64,
            self.unk_26 as u64,
            self.unk_27 as u64,
            self.unk_28 as u64,
            self.unk_29 as u64,
            self.unk_30 as u64,
            self.unk_31 as u64,
            self.vals_c_num as u64,
            self.mat_num as u64,
            self.keys_offset as u64,
            self.indices_offset as u64,
            self.matrices_offset as u64,
            self.keys_num as u64,
            self.vals_g_offset as u64,
            self.vals_g_num as u64,
            self.vals_i_offset as u64,
            self.vbuff_offset as u64,
            self.vbuff_num as u64,
            self.ibuff_offset as u64,
            self.ibuff_num as u64,
            self.vals_d_offset as u64,
            self.unk_46 as u64,
            self.unk_47 as u64,
            self.vals_j_num as u64,
            self.vals_j_offset as u64,
            self.block_offset as u64,
            self.vals_k_offset as u64,
            self.asset_key.key() as u64,
            self.asset_type as u64,
            self.unk_54 as u64,
            self.unk_55 as u64,
            self.shape_offset as u64,
            self.shape_num as u64,
            self.hk_constraint_data_offset as u64,
            self.hk_constraint_data_num as u64,
            self.hk_constraint_offset as u64,
            self.keys2_offset as u64,
            self.keys2_order_offset as u64,
            self.vals_a_offset as u64,
        ]
    }

    fn from_cells(c: &Vec<u64>, o: Endian) -> (r: Self) {
        MeshInfo {
            key: Crc::Key(c[0] as u32),
            gamemodemask: (c[1] as u32) as i32,
            mat_offset: c[2] as u32,
            buffer_info_offset: c[3] as u32,
            unk_4: c[4] as u32,
            unk_5: c[5] as u32,
            unk_6: c[6] as u32,
            unk_7: c[7] as u32,
            unk_8: c[8] as u32,
            unk_9: c[9] as u32,
            unk_10: c[10] as u32,
            unk_11: c[11] as u32,
            vals_c_offset: c[12] as u32,
            unk_13: c[13] as u32,
            unk_14: c[14] as u32,
            block_start: c[15] as u32,
            block_end: c[16] as u32,
            unk_17: c[17] as u32,
            unk_18: c[18] as u32,
            unk_19: c[19] as u32,
            unk_20: c[20] as u32,
            unk_21: c[21] as u32,
            unk_22: c[22] as u32,
            unk_23: c[23] as u32,
            unk_24: c[24] as u32,
            unk_25: c[25] as u32,
            unk_26: c[26] as u32,
            unk_27: c[27] as u32,
            unk_28: c[28] as u32,
            unk_29: c[29] as u32,
            unk_30: c[30] as u32,
            unk_31: c[31] as u32,
            vals_c_num: c[32] as u32,
            mat_num: c[33] as u32,
            keys_offset: c[34] as u32,
            indices_offset: c[35] as u32,
            matrices_offset: c[36] as u32,
            keys_num: c[37] as u32,
            vals_g_offset: c[38] as u32,
            vals_g_num: c[39] as u32,
            vals_i_offset: c[40] as u32,
            vbuff_offset: c[41] as u32,
            vbuff_num: c[42] as u32,
            ibuff_offset: c[43] as u32,
            ibuff_num: c[44] as u32,
            vals_d_offset: c[45] as u32,
            unk_46: c[46] as u32,
            unk_47: c[47] as u32,
            vals_j_num: c[48] as u32,
            vals_j_offset: c[49] as u32,
            block_offset: c[50] as u32,
            vals_k_offset: c[51] as u32,
            asset_key: Crc::Key(c[52] as u32),
            asset_type: c[53] as u32,
            unk_54: c[54] as u32,
            unk_55: c[55] as u32,
            shape_offset: c[56] as u32,
            shape_num: c[57] as u32,
            hk_constraint_data_offset: c[58] as u32,
            hk_constraint_data_num: c[59] as u32,
            hk_constraint_offset: c[60] as u32,
            keys2_offset: c[61] as u32,
            keys2_order_offset: c[62] as u32,
            vals_a_offset: c[63] as u32,
        }
    }

    open spec fn spec_keys_resolved(&self, m: Map<u32, Seq<char>>) -> bool {
        crc_resolved(self.key, m) && crc_resolved(self.asset_key, m)
    }

    #[verifier::rlimit(100)]
    #[verifier::spinoff_prover]
    fn resolved(&self, table: &StringTable) -> (r: Self) {
        MeshInfo {
            key: Crc::resolve(self.key.key(), table),
            gamemodemask: self.gamemodemask,
            mat_offset: self.mat_offset,
            buffer_info_offset: self.buffer_info_offset,
            unk_4: self.unk_4,
            unk_5: self.unk_5,
            unk_6: self.unk_6,
            unk_7: self.unk_7,
            unk_8: self.unk_8,
            unk_9: self.unk_9,
            unk_10: self.unk_10,
            unk_11: self.unk_11,
            vals_c_offset: self.vals_c_offset,
            unk_13: self.unk_13,
            unk_14: self.unk_14,
            block_start: self.block_start,
            block_end: self.block_end,
            unk_17: self.unk_17,
            unk_18: self.unk_18,
            unk_19: self.unk_19,
            unk_20: self.unk_20,
            unk_21: self.unk_21,
            unk_22: self.unk_22,
            unk_23: self.unk_23,
            unk_24: self.unk_24,
            unk_25: self.unk_25,
            unk_26: self.unk_26,
            unk_27: self.unk_27,
            unk_28: self.unk_28,
            unk_29: self.unk_29,
            unk_30: self.unk_30,
            unk_31: self.unk_31,
            vals_c_num: self.vals_c_num,
            mat_num: self.mat_num,
            keys_offset: self.keys_offset,
            indices_offset: self.indices_offset,
            matrices_offset: self.matrices_offset,
            keys_num: self.keys_num,
            vals_g_offset: self.vals_g_offset,
            vals_g_num: self.vals_g_num,
            vals_i_offset: self.vals_i_offset,
            vbuff_offset: self.vbuff_offset,
            vbuff_num: self.vbuff_num,
            ibuff_offset: self.ibuff_offset,
            ibuff_num: self.ibuff_num,
            vals_d_offset: self.vals_d_offset,
            unk_46: self.unk_46,
            unk_47: self.unk_47,
            vals_j_num: self.vals_j_num,
            vals_j_offset: self.vals_j_offset,
            block_offset: self.block_offset,
            vals_k_offset: self.vals_k_offset,
            asset_key: Crc::resolve(self.asset_key.key(), table),
            asset_type: self.asset_type,
            unk_54: self.unk_54,
            unk_55: self.unk_55,
            shape_offset: self.shape_offset,
            shape_num: self.shape_num,
            hk_constraint_data_offset: self.hk_constraint_data_offset,
            hk_constraint_data_num: self.hk_constraint_data_num,
            hk_constraint_offset: self.hk_constraint_offset,
            keys2_offset: self.keys2_offset,
            keys2_order_offset: self.keys2_order_offset,
            vals_a_offset: self.vals_a_offset,
        }
    }

    proof fn lemma_layout_small(o: Endian) {
    }

    #[verifier::rlimit(100)]
    #[verifier::spinoff_prover]
    proof fn lemma_cells(&self, o: Endian) {
        lemma_i32_bits(self.gamemodemask);
    }
}

/// Index record of a mesh's vertex and index buffers.
#[derive(Debug, Clone, Copy, PartialEq)]
pub struct BufferInfo {
    pub vbuff_info_offset: u32,
    pub vbuff_info_offset_2: u32,
    pub vbuff_info_offset_3: u32,
    pub unk_3: u32,
    pub unk_4: u32,
    pub unk_5: u32,
    pub unk_6: u32,
    pub unk_7: u32,
    pub unk_8: u32,
    pub unk_9: u32,
    pub unk_10: u32,
    pub unk_11: u32,
    pub unk_12: u32,
    pub unk_13: u32,
    pub unk_14: u32,
    pub unk_15: u32,
    pub unk_16: u32,
    pub unk_17: u32,
    pub unk_18: u32,
    pub unk_19: u32,
    pub unk_20: u32,
    pub unk_21: u32,
    pub unk_22: u32,
    pub unk_23: u32,
    pub unk_24: u32,
    pub unk_25: u32,
    pub unk_26: u32,
    pub unk_27: u32,
    pub unk_28: u32,
    pub unk_29: u32,
    pub unk_30: u32,
    pub unk_31: u32,
    pub v_size: u32,
    pub v_size_2: u32,
    pub v_size_3: u32,
    pub unk_35: u32,
    pub unk_36: u32,
    pub unk_37: u32,
    pub unk_38: u32,
    pub unk_39: u32,
    pub unk_40: u32,
    pub unk_41: u32,
    pub unk_42: u32,
    pub unk_43: u32,
    pub unk_44: u32,
    pub unk_45: u32,
    pub unk_46: u32,
    pub unk_47: u32,
    pub vbuff_size: u32,
    pub vbuff_size_2: u32,
    pub vbuff_size_3: u32,
    pub unk_51: u32,
    pub unk_52: u32,
    pub unk_53: u32,
    pub unk_54: u32,
    pub unk_55: u32,
    pub unk_56: u32,
    pub unk_57: u32,
    pub unk_58: u32,
    pub unk_59: u32,
    pub unk_60: u32,
    pub unk_61: u32,
    pub unk_62: u32,
    pub unk_63: u32,
    pub unk_64: u32,
    pub ibuff_info_offset: u32,
    pub i_num: u32,
    pub unk_67: u32,
    pub unk_68: u32,
    pub unk_69: u32,
    pub unk_70: u32,
    pub tri_num: u32,
    pub unk_72: u32,
    pub unk_73: u32,
    pub unk_74: u32,
    pub unk_75: u32,
    pub unk_76: u32,
    pub unk_77: u32,
    pub unk_78: u32,
    pub unk_79: u32,
    pub unk_80: u32,
    pub unk_81: u32,
    pub unk_82: u32,
    pub unk_83: u32,
    pub unk_84: u32,
    pub unk_85: u32,
    pub unk_86: u32,
    pub unk_87: u32,
    pub unk_88a: u8,
    pub unk_88b: u8,
    pub unk_88c: u8,
    pub unk_88d: u8,
}

impl OrderedData for BufferInfo {
    open spec fn spec_layout(o: Endian) -> Seq<Cell> {
        seq![
            Cell { prim: Prim::U32, endian: o },
            Cell { prim: Prim::U32, endian: o },
            Cell { prim: Prim::U32, endian: o },
            Cell { prim: Prim::U32, endian: o },
            Cell { prim: Prim::U32, endian: o },
            Cell { prim: Prim::U32, endian: o },
            Cell { prim: Prim::U32, endian: o },
            Cell { prim: Prim::U32, endian: o },
            Cell { prim: Prim::U32, endian: o },
            Cell { prim: Prim::U32, endian: o },
            Cell { prim: Prim::U32, endian: o },
            Cell { prim: Prim::U32, endian: o },
            Cell { prim: Prim::U32, endian: o },
            Cell { prim: Prim::U32, endian: o },
            Cell { prim: Prim::U32, endian: o },
            Cell { prim: Prim::U32, endian: o },
            Cell { prim: Prim::U32, endian: o },
            Cell { prim: Prim::U32, endian: o },
            Cell { prim: Prim::U32, endian: o },
            Cell { prim: Prim::U32, endian: o },
            Cell { prim: Prim::U32, endian: o },
            Cell { prim: Prim::U32, endian: o },
            Cell { prim: Prim::U32, endian: o },
            Cell { prim: Prim::U32, endian: o },
            Cell { prim: Prim::U32, endian: o },
            Cell { prim: Prim::U32, endian: o },
            Cell { prim: Prim::U32, endian: o },
            Cell { prim: Prim::U32, endian: o },
            Cell { prim: Prim::U32, endian: o },
            Cell { prim: Prim::U32, endian: o },
            Cell { prim: Prim::U32, endian: o },
            Cell { prim: Prim::U32, endian: o },
            Cell { prim: Prim::U32, endian: o },
            Cell { prim: Prim::U32, endian: o },
            Cell { prim: Prim::U32, endian: o },
            Cell { prim: Prim::U32, endian: o },
            Cell { prim: Prim::U32, endian: o },
            Cell { prim: Prim::U32, endian: o },
            Cell { prim: Prim::U32, endian: o },
            Cell { prim: Prim::U32, endian: o },
            Cell { prim: Prim::U32, endian: o },
            Cell { prim: Prim::U32, endian: o },
            Cell { prim: Prim::U32, endian: o },
            Cell { prim: Prim::U32, endian: o },
            Cell { prim: Prim::U32, endian: o },
            Cell { prim: Prim::U32, endian: o },
            Cell { prim: Prim::U32, endian: o },
            Cell { prim: Prim::U32, endian: o },
            Cell { prim: Prim::U32, endian: o },
            Cell { prim: Prim::U32, endian: o },
            Cell { prim: Prim::U32, endian: o },
            Cell { prim: Prim::U32, endian: o },
            Cell { prim: Prim::U32, endian: o },
            Cell { prim: Prim::U32, endian: o },
            Cell { prim: Prim::U32, endian: o },
            Cell { prim: Prim::U32, endian: o },
            Cell { prim: Prim::U32, endian: o },
            Cell { prim: Prim::U32, endian: o },
            Cell { prim: Prim::U32, endian: o },
            Cell { prim: Prim::U32, endian: o },
            Cell { prim: Prim::U32, endian: o },
            Cell { prim: Prim::U32, endian: o },
            Cell { prim: Prim::U32, endian: o },
            Cell { prim: Prim::U32, endian: o },
            Cell { prim: Prim::U32, endian: o },
            Cell { prim: Prim::U32, endian: o },
            Cell { prim: Prim::U32, endian: o },
            Cell { prim: Prim::U32, endian: o },
            Cell { prim: Prim::U32, endian: o },
            Cell { prim: Prim::U32, endian: o },
            Cell { prim: Prim::U32, endian: o },
            Cell { prim: Prim::U32, endian: o },
            Cell { prim: Prim::U32, endian: o },
            Cell { prim: Prim::U32, endian: o },
            Cell { prim: Prim::U32, endian: o },
            Cell { prim: Prim::U32, endian: o },
            Cell { prim: Prim::U32, endian: o },
            Cell { prim: Prim::U32, endian: o },
            Cell { prim: Prim::U32, endian: o },
            Cell { prim: Prim::U32, endian: o },
            Cell { prim: Prim::U32, endian: o },
            Cell { prim: Prim::U32, endian: o },
            Cell { prim: Prim::U32, endian: o },
            Cell { prim: Prim::U32, endian: o },
            Cell { prim: Prim::U32, endian: o },
            Cell { prim: Prim::U32, endian: o },
            Cell { prim: Prim::U32, endian: o },
            Cell { prim: Prim::U32, endian: o },
            Cell { prim: Prim::U8, endian: o },
            Cell { prim: Prim::U8, endian: o },
            Cell { prim: Prim::U8, endian: o },
            Cell { prim: Prim::U8, endian: o },
        ]
    }

    open spec fn spec_cells(&self, o: Endian) -> Seq<u64> {
        seq![
            self.vbuff_info_offset as u64,
            self.vbuff_info_offset_2 as u64,
            self.vbuff_info_offset_3 as u64,
            self.unk_3 as u64,
            self.unk_4 as u64,
            self.unk_5 as u64,
            self.unk_6 as u64,
            self.unk_7 as u64,
            self.unk_8 as u64,
            self.unk_9 as u64,
            self.unk_10 as u64,
            self.unk_11 as u64,
            self.unk_12 as u64,
            self.unk_13 as u64,
            self.unk_14 as u64,
            self.unk_15 as u64,
            self.unk_16 as u64,
            self.unk_17 as u64,
            self.unk_18 as u64,
            self.unk_19 as u64,
            self.unk_20 as u64,
            self.unk_21 as u64,
            self.unk_22 as u64,
            self.unk_23 as u64,
            self.unk_24 as u64,
            self.unk_25 as u64,
            self.unk_26 as u64,
            self.unk_27 as u64,
            self.unk_28 as u64,
            self.unk_29 as u64,
            self.unk_30 as u64,
            self.unk_31 as u64,
            self.v_size as u64,
            self.v_size_2 as u64,
            self.v_size_3 as u64,
            self.unk_35 as u64,
            self.unk_36 as u64,
            self.unk_37 as u64,
            self.unk_38 as u64,
            self.unk_39 as u64,
            self.unk_40 as u64,
            self.unk_41 as u64,
            self.unk_42 as u64,
            self.unk_43 as u64,
            self.unk_44 as u64,
            self.unk_45 as u64,
            self.unk_46 as u64,
            self.unk_47 as u64,
            self.vbuff_size as u64,
            self.vbuff_size_2 as u64,
            self.vbuff_size_3 as u64,
            self.unk_51 as u64,
            self.unk_52 as u64,
            self.unk_53 as u64,
            self.unk_54 as u64,
            self.unk_55 as u64,
            self.unk_56 as u64,
            self.unk_57 as u64,
            self.unk_58 as u64,
            self.unk_59 as u64,
            self.unk_60 as u64,
            self.unk_61 as u64,
            self.unk_62 as u64,
            self.unk_63 as u64,
            self.unk_64 as u64,
            self.ibuff_info_offset as u64,
            self.i_num as u64,
            self.unk_67 as u64,
            self.unk_68 as u64,
            self.unk_69 as u64,
            self.unk_70 as u64,
            self.tri_num as u64,
            self.unk_72 as u64,
            self.unk_73 as u64,
            self.unk_74 as u64,
            self.unk_75 as u64,
            self.unk_76 as u64,
            self.unk_77 as u64,
            self.unk_78 as u64,
            self.unk_79 as u64,
            self.unk_80 as u64,
            self.unk_81 as u64,
            self.unk_82 as u64,
            self.unk_83 as u64,
            self.unk_84 as u64,
            self.unk_85 as u64,
            self.unk_86 as u64,
            self.unk_87 as u64,
            self.unk_88a as u64,
            self.unk_88b as u64,
            self.unk_88c as u64,
            self.unk_88d as u64,
        ]
    }

    open spec fn spec_from_cells(c: Seq<u64>, o: Endian) -> Self {
        BufferInfo {
            vbuff_info_offset: c[0] as u32,
            vbuff_info_offset_2: c[1] as u32,
            vbuff_info_offset_3: c[2] as u32,
            unk_3: c[3] as u32,
            unk_4: c[4] as u32,
            unk_5: c[5] as u32,
            unk_6: c[6] as u32,
            unk_7: c[7] as u32,
            unk_8: c[8] as u32,
            unk_9: c[9] as u32,
            unk_10: c[10] as u32,
            unk_11: c[11] as u32,
            unk_12: c[12] as u32,
            unk_13: c[13] as u32,
            unk_14: c[14] as u32,
            unk_15: c[15] as u32,
            unk_16: c[16] as u32,
            unk_17: c[17] as u32,
            unk_18: c[18] as u32,
            unk_19: c[19] as u32,
            unk_20: c[20] as u32,
            unk_21: c[21] as u32,
            unk_22: c[22] as u32,
            unk_23: c[23] as u32,
            unk_24: c[24] as u32,
            unk_25: c[25] as u32,
            unk_26: c[26] as u32,
            unk_27: c[27] as u32,
            unk_28: c[28] as u32,
            unk_29: c[29] as u32,
            unk_30: c[30] as u32,
            unk_31: c[31] as u32,
            v_size: c[32] as u32,
            v_size_2: c[33] as u32,
            v_size_3: c[34] as u32,
            unk_35: c[35] as u32,
            unk_36: c[36] as u32,
            unk_37: c[37] as u32,
            unk_38: c[38] as u32,
            unk_39: c[39] as u32,
            unk_40: c[40] as u32,
            unk_41: c[41] as u32,
            unk_42: c[42] as u32,
            unk_43: c[43] as u32,
            unk_44: c[44] as u32,
            unk_45: c[45] as u32,
            unk_46: c[46] as u32,
            unk_47: c[47] as u32,
            vbuff_size: c[48] as u32,
            vbuff_size_2: c[49] as u32,
            vbuff_size_3: c[50] as u32,
            unk_51: c[51] as u32,
            unk_52: c[52] as u32,
            unk_53: c[53] as u32,
            unk_54: c[54] as u32,
            unk_55: c[55] as u32,
            unk_56: c[56] as u32,
            unk_57: c[57] as u32,
            unk_58: c[58] as u32,
            unk_59: c[59] as u32,
            unk_60: c[60] as u32,
            unk_61: c[61] as u32,
            unk_62: c[62] as u32,
            unk_63: c[63] as u32,
            unk_64: c[64] as u32,
            ibuff_info_offset: c[65] as u32,
            i_num: c[66] as u32,
            unk_67: c[67] as u32,
            unk_68: c[68] as u32,
            unk_69: c[69] as u32,
            unk_70: c[70] as u32,
            tri_num: c[71] as u32,
            unk_72: c[72] as u32,
            unk_73: c[73] as u32,
            unk_74: c[74] as u32,
            unk_75: c[75] as u32,
            unk_76: c[76] as u32,
            unk_77: c[77] as u32,
            unk_78: c[78] as u32,
            unk_79: c[79] as u32,
            unk_80: c[80] as u32,
            unk_81: c[81] as u32,
            unk_82: c[82] as u32,
            unk_83: c[83] as u32,
            unk_84: c[84] as u32,
            unk_85: c[85] as u32,
            unk_86: c[86] as u32,
            unk_87: c[87] as u32,
            unk_88a: c[88] as u8,
            unk_88b: c[89] as u8,
            unk_88c: c[90] as u8,
            unk_88d: c[91] as u8,
        }
    }

    open spec fn spec_values(&self) -> Seq<u64> {
        seq![
            self.vbuff_info_offset as u64,
            self.vbuff_info_offset_2 as u64,
            self.vbuff_info_offset_3 as u64,
            self.unk_3 as u64,
            self.unk_4 as u64,
            self.unk_5 as u64,
            self.unk_6 as u64,
            self.unk_7 as u64,
            self.unk_8 as u64,
            self.unk_9 as u64,
            self.unk_10 as u64,
            self.unk_11 as u64,
            self.unk_12 as u64,
            self.unk_13 as u64,
            self.unk_14 as u64,
            self.unk_15 as u64,
            self.unk_16 as u64,
            self.unk_17 as u64,
            self.unk_18 as u64,
            self.unk_19 as u64,
            self.unk_20 as u64,
            self.unk_21 as u64,
            self.unk_22 as u64,
            self.unk_23 as u64,
            self.unk_24 as u64,
            self.unk_25 as u64,
            self.unk_26 as u64,
            self.unk_27 as u64,
            self.unk_28 as u64,
            self.unk_29 as u64,
            self.unk_30 as u64,
            self.unk_31 as u64,
            self.v_size as u64,
            self.v_size_2 as u64,
            self.v_size_3 as u64,
            self.unk_35 as u64,
            self.unk_36 as u64,
            self.unk_37 as u64,
            self.unk_38 as u64,
            self.unk_39 as u64,
            self.unk_40 as u64,
            self.unk_41 as u64,
            self.unk_42 as u64,
            self.unk_43 as u64,
            self.unk_44 as u64,
            self.unk_45 as u64,
            self.unk_46 as u64,
            self.unk_47 as u64,
            self.vbuff_size as u64,
            self.vbuff_size_2 as u64,
            self.vbuff_size_3 as u64,
            self.unk_51 as u64,
            self.unk_52 as u64,
            self.unk_53 as u64,
            self.unk_54 as u64,
            self.unk_55 as u64,
            self.unk_56 as u64,
            self.unk_57 as u64,
            self.unk_58 as u64,
            self.unk_59 as u64,
            self.unk_60 as u64,
            self.unk_61 as u64,
            self.unk_62 as u64,
            self.unk_63 as u64,
            self.unk_64 as u64,
            self.ibuff_info_offset as u64,
            self.i_num as u64,
            self.unk_67 as u64,
            self.unk_68 as u64,
            self.unk_69 as u64,
            self.unk_70 as u64,
            self.tri_num as u64,
            self.unk_72 as u64,
            self.unk_73 as u64,
            self.unk_74 as u64,
            self.unk_75 as u64,
            self.unk_76 as u64,
            self.unk_77 as u64,
            self.unk_78 as u64,
            self.unk_79 as u64,
            self.unk_80 as u64,
            self.unk_81 as u64,
            self.unk_82 as u64,
            self.unk_83 as u64,
            self.unk_84 as u64,
            self.unk_85 as u64,
            self.unk_86 as u64,
            self.unk_87 as u64,
            self.unk_88a as u64,
            self.unk_88b as u64,
            self.unk_88c as u64,
            self.unk_88d as u64,
        ]
    }

    open spec fn spec_fits(&self, o: Endian) -> bool {
        true
    }

    fn layout(o: Endian) -> (r: Vec<Cell>) {
        vec![
            Cell { prim: Prim::U32, endian: o },
            Cell { prim: Prim::U32, endian: o },
            Cell { prim: Prim::U32, endian: o },
            Cell { prim: Prim::U32, endian: o },
            Cell { prim: Prim::U32, endian: o },
            Cell { prim: Prim::U32, endian: o },
            Cell { prim: Prim::U32, endian: o },
            Cell { prim: Prim::U32, endian: o },
            Cell { prim: Prim::U32, endian: o },
            Cell { prim: Prim::U32, endian: o },
            Cell { prim: Prim::U32, endian: o },
            Cell { prim: Prim::U32, endian: o },
            Cell { prim: Prim::U32, endian: o },
            Cell { prim: Prim::U32, endian: o },
            Cell { prim: Prim::U32, endian: o },
            Cell { prim: Prim::U32, endian: o },
            Cell { prim: Prim::U32, endian: o },
            Cell { prim: Prim::U32, endian: o },
            Cell { prim: Prim::U32, endian: o },
            Cell { prim: Prim::U32, endian: o },
            Cell { prim: Prim::U32, endian: o },
            Cell { prim: Prim::U32, endian: o },
            Cell { prim: Prim::U32, endian: o },
            Cell { prim: Prim::U32, endian: o },
            Cell { prim: Prim::U32, endian: o },
            Cell { prim: Prim::U32, endian: o },
            Cell { prim: Prim::U32, endian: o },
            Cell { prim: Prim::U32, endian: o },
            Cell { prim: Prim::U32, endian: o },
            Cell { prim: Prim::U32, endian: o },
            Cell { prim: Prim::U32, endian: o },
            Cell { prim: Prim::U32, endian: o },
            Cell { prim: Prim::U32, endian: o },
            Cell { prim: Prim::U32, endian: o },
            Cell { prim: Prim::U32, endian: o },
            Cell { prim: Prim::U32, endian: o },
            Cell { prim: Prim::U32, endian: o },
            Cell { prim: Prim::U32, endian: o },
            Cell { prim: Prim::U32, endian: o },
            Cell { prim: Prim::U32, endian: o },
            Cell { prim: Prim::U32, endian: o },
            Cell { prim: Prim::U32, endian: o },
            Cell { prim: Prim::U32, endian: o },
            Cell { prim: Prim::U32, endian: o },
            Cell { prim: Prim::U32, endian: o },
            Cell { prim: Prim::U32, endian: o },
            Cell { prim: Prim::U32, endian: o },
            Cell { prim: Prim::U32, endian: o },
            Cell { prim: Prim::U32, endian: o },
            Cell { prim: Prim::U32, endian: o },
            Cell { prim: Prim::U32, endian: o },
            Cell { prim: Prim::U32, endian: o },
            Cell { prim: Prim::U32, endian: o },
            Cell { prim: Prim::U32, endian: o },
            Cell { prim: Prim::U32, endian: o },
            Cell { prim: Prim::U32, endian: o },
            Cell { prim: Prim::U32, endian: o },
            Cell { prim: Prim::U32, endian: o },
            Cell { prim: Prim::U32, endian: o },
            Cell { prim: Prim::U32, endian: o },
            Cell { prim: Prim::U32, endian: o },
            Cell { prim: Prim::U32, endian: o },
            Cell { prim: Prim::U32, endian: o },
            Cell { prim: Prim::U32, endian: o },
            Cell { prim: Prim::U32, endian: o },
            Cell { prim: Prim::U32, endian: o },
            Cell { prim: Prim::U32, endian: o },
            Cell { prim: Prim::U32, endian: o },
            Cell { prim: Prim::U32, endian: o },
            Cell { prim: Prim::U32, endian: o },
            Cell { prim: Prim::U32, endian: o },
            Cell { prim: Prim::U32, endian: o },
            Cell { prim: Prim::U32, endian: o },
            Cell { prim: Prim::U32, endian: o },
            Cell { prim: Prim::U32, endian: o },
            Cell { prim: Prim::U32, endian: o },
            Cell { prim: Prim::U32, endian: o },
            Cell { prim: Prim::U32, endian: o },
            Cell { prim: Prim::U32, endian: o },
            Cell { prim: Prim::U32, endian: o },
            Cell { prim: Prim::U32, endian: o },
            Cell { prim: Prim::U32, endian: o },
            Cell { prim: Prim::U32, endian: o },
            Cell { prim: Prim::U32, endian: o },
            Cell { prim: Prim::U32, endian: o },
            Cell { prim: Prim::U32, endian: o },
            Cell { prim: Prim::U32, endian: o },
            Cell { prim: Prim::U32, endian: o },
            Cell { prim: Prim::U8, endian: o },
            Cell { prim: Prim::U8, endian: o },
            Cell { prim: Prim::U8, endian: o },
            Cell { prim: Prim::U8, endian: o },
        ]
    }

    fn to_cells(&self, o: Endian) -> (r: Vec<u64>) {
        vec![
            self.vbuff_info_offset as u64,
            self.vbuff_info_offset_2 as u64,
            self.vbuff_info_offset_3 as u64,
            self.unk_3 as u64,
            self.unk_4 as u64,
            self.unk_5 as u64,
            self.unk_6 as u64,
            self.unk_7 as u64,
            self.unk_8 as u64,
            self.unk_9 as u64,
            self.unk_10 as u64,
            self.unk_11 as u64,
            self.unk_12 as u64,
            self.unk_13 as u64,
            self.unk_14 as u64,
            self.unk_15 as u64,
            self.unk_16 as u64,
            self.unk_17 as u64,
            self.unk_18 as u64,
            self.unk_19 as u64,
            self.unk_20 as u64,
            self.unk_21 as u64,
            self.unk_22 as u64,
            self.unk_23 as u64,
            self.unk_24 as u64,
            self.unk_25 as u64,
            self.unk_26 as u64,
            self.unk_27 as u64,
            self.unk_28 as u64,
            self.unk_29 as u64,
            self.unk_30 as u64,
            self.unk_31 as u64,
            self.v_size as u64,
            self.v_size_2 as u64,
            self.v_size_3 as u64,
            self.unk_35 as u64,
            self.unk_36 as u64,
            self.unk_37 as u64,
            self.unk_38 as u64,
            self.unk_39 as u64,
            self.unk_40 as u64,
            self.unk_41 as u64,
            self.unk_42 as u64,
            self.unk_43 as u64,
            self.unk_44 as u64,
            self.unk_45 as u64,
            self.unk_46 as u64,
            self.unk_47 as u64,
            self.vbuff_size as u64,
            self.vbuff_size_2 as u64,
            self.vbuff_size_3 as u64,
            self.unk_51 as u64,
            self.unk_52 as u64,
            self.unk_53 as u64,
            self.unk_54 as u64,
            self.unk_55 as u64,
            self.unk_56 as u64,
            self.unk_57 as u64,
            self.unk_58 as u64,
            self.unk_59 as u64,
            self.unk_60 as u64,
            self.unk_61 as u64,
            self.unk_62 as u64,
            self.unk_63 as u64,
            self.unk_64 as u64,
            self.ibuff_info_offset as u64,
            self.i_num as u64,
            self.unk_67 as u64,
            self.unk_68 as u64,
            self.unk_69 as u64,
            self.unk_70 as u64,
            self.tri_num as u64,
            self.unk_72 as u64,
            self.unk_73 as u64,
            self.unk_74 as u64,
            self.unk_75 as u64,
            self.unk_76 as u64,
            self.unk_77 as u64,
            self.unk_78 as u64,
            self.unk_79 as u64,
            self.unk_80 as u64,
            self.unk_81 as u64,
            self.unk_82 as u64,
            self.unk_83 as u64,
            self.unk_84 as u64,
            self.unk_85 as u64,
            self.unk_86 as u64,
            self.unk_87 as u64,
            self.unk_88a as u64,
            self.unk_88b as u64,
            self.unk_88c as u64,
            self.unk_88d as u64,
        ]
    }

    fn from_cells(c: &Vec<u64>, o: Endian) -> (r: Self) {
        BufferInfo {
            vbuff_info_offset: c[0] as u32,
            vbuff_info_offset_2: c[1] as u32,
            vbuff_info_offset_3: c[2] as u32,
            unk_3: c[3] as u32,
            unk_4: c[4] as u32,
            unk_5: c[5] as u32,
            unk_6: c[6] as u32,
            unk_7: c[7] as u32,
            unk_8: c[8] as u32,
            unk_9: c[9] as u32,
            unk_10: c[10] as u32,
            unk_11: c[11] as u32,
            unk_12: c[12] as u32,
            unk_13: c[13] as u32,
            unk_14: c[14] as u32,
            unk_15: c[15] as u32,
            unk_16: c[16] as u32,
            unk_17: c[17] as u32,
            unk_18: c[18] as u32,
            unk_19: c[19] as u32,
            unk_20: c[20] as u32,
            unk_21: c[21] as u32,
            unk_22: c[22] as u32,
            unk_23: c[23] as u32,
            unk_24: c[24] as u32,
            unk_25: c[25] as u32,
            unk_26: c[26] as u32,
            unk_27: c[27] as u32,
            unk_28: c[28] as u32,
            unk_29: c[29] as u32,
            unk_30: c[30] as u32,
            unk_31: c[31] as u32,
            v_size: c[32] as u32,
            v_size_2: c[33] as u32,
            v_size_3: c[34] as u32,
            unk_35: c[35] as u32,
            unk_36: c[36] as u32,
            unk_37: c[37] as u32,
            unk_38: c[38] as u32,
            unk_39: c[39] as u32,
            unk_40: c[40] as u32,
            unk_41: c[41] as u32,
            unk_42: c[42] as u32,
            unk_43: c[43] as u32,
            unk_44: c[44] as u32,
            unk_45: c[45] as u32,
            unk_46: c[46] as u32,
            unk_47: c[47] as u32,
            vbuff_size: c[48] as u32,
            vbuff_size_2: c[49] as u32,
            vbuff_size_3: c[50] as u32,
            unk_51: c[51] as u32,
            unk_52: c[52] as u32,
            unk_53: c[53] as u32,
            unk_54: c[54] as u32,
            unk_55: c[55] as u32,
            unk_56: c[56] as u32,
            unk_57: c[57] as u32,
            unk_58: c[58] as u32,
            unk_59: c[59] as u32,
            unk_60: c[60] as u32,
            unk_61: c[61] as u32,
            unk_62: c[62] as u32,
            unk_63: c[63] as u32,
            unk_64: c[64] as u32,
            ibuff_info_offset: c[65] as u32,
            i_num: c[66] as u32,
            unk_67: c[67] as u32,
            unk_68: c[68] as u32,
            unk_69: c[69] as u32,
            unk_70: c[70] as u32,
            tri_num: c[71] as u32,
            unk_72: c[72] as u32,
            unk_73: c[73] as u32,
            unk_74: c[74] as u32,
            unk_75: c[75] as u32,
            unk_76: c[76] as u32,
            unk_77: c[77] as u32,
            unk_78: c[78] as u32,
            unk_79: c[79] as u32,
            unk_80: c[80] as u32,
            unk_81: c[81] as u32,
            unk_82: c[82] as u32,
            unk_83: c[83] as u32,
            unk_84: c[84] as u32,
            unk_85: c[85] as u32,
            unk_86: c[86] as u32,
            unk_87: c[87] as u32,
            unk_88a: c[88] as u8,
            unk_88b: c[89] as u8,
            unk_88c: c[90] as u8,
            unk_88d: c[91] as u8,
        }
    }

    open spec fn spec_keys_resolved(&self, m: Map<u32, Seq<char>>) -> bool {
        true
    }

    #[verifier::rlimit(100)]
    #[verifier::spinoff_prover]
    fn resolved(&self, table: &StringTable) -> (r: Self) {
        *self
    }

    proof fn lemma_layout_small(o: Endian) {
    }

    #[verifier::rlimit(100)]
    #[verifier::spinoff_prover]
    proof fn lemma_cells(&self, o: Endian) {
    }
}

/// The part shared by all material records.
#[derive(Debug, Clone, PartialEq)]
pub struct MatBase {
    pub unk_0: u32,
    pub unk_1: u32,
    pub tex_2: Crc,
    pub tex_3: Crc,
    pub tex_4: Crc,
    pub tex_5: Crc,
    pub tex_6: Crc,
    pub tex_7: Crc,
    pub tex_8: Crc,
    pub tex_9: Crc,
    pub tex_10: Crc,
    pub tex_11: Crc,
    pub tex_12: Crc,
    pub tex_13: Crc,
    pub tex_14: Crc,
    pub tex_15: Crc,
    pub tex_16: Crc,
    pub tex_17: Crc,
    pub unk_18: u32,
    pub unk_19: u32,
    pub unk_20: u32,
    pub unk_21: u32,
    pub unk_22: u32,
    pub unk_23: u32,
    pub unk_24: u32,
    pub unk_25: u32,
    pub unk_26: u32,
    pub unk_27: u32,
    pub unk_28: u32,
    pub unk_29: u32,
    pub unk_30: u32,
    pub unk_31: u32,
    pub unk_32: u32,
    pub unk_33: u32,
    pub z_34: u32,
    pub z_35: u32,
    pub z_36: u32,
    pub z_37: u32,
    pub z_38: u32,
    pub z_39: u32,
    pub unk_40: u32,
    pub unk_41: u32,
    pub unk_42: u32,
    pub unk_43: u32,
    pub unk_44: u32,
    pub unk_45: u32,
    pub unk_46: u32,
    pub unk_47: u32,
    pub unk_48: u32,
    pub unk_49: u32,
    pub flags: u64,
    pub kind: u32,
    pub unk_53: u32,
    pub unk_54a: u8,
    pub unk_54b: u8,
    pub side_flags: u16,
    pub unk_55: u32,
    pub unk_56: u32,
    pub unk_57: u32,
    pub unk_58: u32,
    pub unk_59: u32,
    pub unk_60: u32,
    pub unk_61: u32,
    pub unk_62: u32,
    pub unk_63: u32,
    pub unk_64: u32,
    pub unk_65: u32,
    pub unk_66: u32,
    pub unk_67: u32,
    pub unk_68: u32,
    pub unk_69: u32,
    pub unk_70: u32,
    pub unk_71: u32,
    pub unk_72: u32,
    pub unk_73: u32,
    pub unk_74: u32,
    pub unk_75: u32,
    pub unk_76: u32,
    pub unk_77: u32,
    pub unk_78: u32,
    pub unk_79: u32,
    pub unk_80: u32,
    pub unk_81: u32,
    pub unk_82: u32,
    pub unk_83: u32,
    pub unk_84: u32,
    pub unk_85: u32,
    pub mat_extra_offset: u32,
    pub key: u32,
    pub unk_88: u32,
    pub z_89: u32,
}

impl OrderedData for MatBase {
    open spec fn spec_layout(o: Endian) -> Seq<Cell> {
        seq![
            Cell { prim: Prim::U32, endian: o },
            Cell { prim: Prim::U32, endian: o },
            Cell { prim: Prim::U32, endian: o },
            Cell { prim: Prim::U32, endian: o },
            Cell { prim: Prim::U32, endian: o },
            Cell { prim: Prim::U32, endian: o },
            Cell { prim: Prim::U32, endian: o },
            Cell { prim: Prim::U32, endian: o },
            Cell { prim: Prim::U32, endian: o },
            Cell { prim: Prim::U32, endian: o },
            Cell { prim: Prim::U32, endian: o },
            Cell { prim: Prim::U32, endian: o },
            Cell { prim: Prim::U32, endian: o },
            Cell { prim: Prim::U32, endian: o },
            Cell { prim: Prim::U32, endian: o },
            Cell { prim: Prim::U32, endian: o },
            Cell { prim: Prim::U32, endian: o },
            Cell { prim: Prim::U32, endian: o },
            Cell { prim: Prim::U32, endian: o },
            Cell { prim: Prim::U32, endian: o },
            Cell { prim: Prim::U32, endian: o },
            Cell { prim: Prim::U32, endian: o },
            Cell { prim: Prim::U32, endian: o },
            Cell { prim: Prim::U32, endian: o },
            Cell { prim: Prim::U32, endian: o },
            Cell { prim: Prim::U32, endian: o },
            Cell { prim: Prim::U32, endian: o },
            Cell { prim: Prim::U32, endian: o },
            Cell { prim: Prim::U32, endian: o },
            Cell { prim: Prim::U32, endian: o },
            Cell { prim: Prim::U32, endian: o },
            Cell { prim: Prim::U32, endian: o },
            Cell { prim: Prim::U32, endian: o },
            Cell { prim: Prim::U32, endian: o },
            Cell { prim: Prim::U32, endian: o },
            Cell { prim: Prim::U32, endian: o },
            Cell { prim: Prim::U32, endian: o },
            Cell { prim: Prim::U32, endian: o },
            Cell { prim: Prim::U32, endian: o },
            Cell { prim: Prim::U32, endian: o },
            Cell { prim: Prim::U32, endian: o },
            Cell { prim: Prim::U32, endian: o },
            Cell { prim: Prim::U32, endian: o },
            Cell { prim: Prim::U32, endian: o },
            Cell { prim: Prim::U32, endian: o },
            Cell { prim: Prim::U32, endian: o },
            Cell { prim: Prim::U32, endian: o },
            Cell { prim: Prim::U32, endian: o },
            Cell { prim: Prim::U32, endian: o },
            Cell { prim: Prim::U32, endian: o },
            Cell { prim: Prim::U64, endian: o },
            Cell { prim: Prim::U32, endian: o },
            Cell { prim: Prim::U32, endian: o },
            Cell { prim: Prim::U8, endian: o },
            Cell { prim: Prim::U8, endian: o },
            Cell { prim: Prim::U16, endian: o },
            Cell { prim: Prim::U32, endian: o },
            Cell { prim: Prim::U32, endian: o },
            Cell { prim: Prim::U32, endian: o },
            Cell { prim: Prim::U32, endian: o },
            Cell { prim: Prim::U32, endian: o },
            Cell { prim: Prim::U32, endian: o },
            Cell { prim: Prim::U32, endian: o },
            Cell { prim: Prim::U32, endian: o },
            Cell { prim: Prim::U32, endian: o },
            Cell { prim: Prim::U32, endian: o },
            Cell { prim: Prim::U32, endian: o },
            Cell { prim: Prim::U32, endian: o },
            Cell { prim: Prim::U32, endian: o },
            Cell { prim: Prim::U32, endian: o },
            Cell { prim: Prim::U32, endian: o },
            Cell { prim: Prim::U32, endian: o },
            Cell { prim: Prim::U32, endian: o },
            Cell { prim: Prim::U32, endian: o },
            Cell { prim: Prim::U32, endian: o },
            Cell { prim: Prim::U32, endian: o },
            Cell { prim: Prim::U32, endian: o },
            Cell { prim: Prim::U32, endian: o },
            Cell { prim: Prim::U32, endian: o },
            Cell { prim: Prim::U32, endian: o },
            Cell { prim: Prim::U32, endian: o },
            Cell { prim: Prim::U32, endian: o },
            Cell { prim: Prim::U32, endian: o },
            Cell { prim: Prim::U32, endian: o },
            Cell { prim: Prim::U32, endian: o },
            Cell { prim: Prim::U32, endian: o },
            Cell { prim: Prim::U32, endian: o },
            Cell { prim: Prim::U32, endian: o },
            Cell { prim: Prim::U32, endian: o },
            Cell { prim: Prim::U32, endian: o },
            Cell { prim: Prim::U32, endian: o },
        ]
    }

    open spec fn spec_cells(&self, o: Endian) -> Seq<u64> {
        seq![
            self.unk_0 as u64,
            self.unk_1 as u64,
            self.tex_2.spec_key() as u64,
            self.tex_3.spec_key() as u64,
            self.tex_4.spec_key() as u64,
            self.tex_5.spec_key() as u64,
            self.tex_6.spec_key() as u64,
            self.tex_7.spec_key() as u64,
            self.tex_8.spec_key() as u64,
            self.tex_9.spec_key() as u64,
            self.tex_10.spec_key() as u64,
            self.tex_11.spec_key() as u64,
            self.tex_12.spec_key() as u64,
            self.tex_13.spec_key() as u64,
            self.tex_14.spec_key() as u64,
            self.tex_15.spec_key() as u64,
            self.tex_16.spec_key() as u64,
            self.tex_17.spec_key() as u64,
            self.unk_18 as u64,
            self.unk_19 as u64,
            self.unk_20 as u64,
            self.unk_21 as u64,
            self.unk_22 as u64,
            self.unk_23 as u64,
            self.unk_24 as u64,
            self.unk_25 as u64,
            self.unk_26 as u64,
            self.unk_27 as u64,
            self.unk_28 as u64,
            self.unk_29 as u64,
            self.unk_30 as u64,
            self.unk_31 as u64,
            self.unk_32 as u64,
            self.unk_33 as u64,
            self.z_34 as u64,
            self.z_35 as u64,
            self.z_36 as u64,
            self.z_37 as u64,
            self.z_38 as u64,
            self.z_39 as u64,
            self.unk_40 as u64,
            self.unk_41 as u64,
            self.unk_42 as u64,
            self.unk_43 as u64,
            self.unk_44 as u64,
            self.unk_45 as u64,
            self.unk_46 as u64,
            self.unk_47 as u64,
            self.unk_48 as u64,
            self.unk_49 as u64,
            self.flags as u64,
            self.kind as u64,
            self.unk_53 as u64,
            self.unk_54a as u64,
            self.unk_54b as u64,
            self.side_flags as u64,
            self.unk_55 as u64,
            self.unk_56 as u64,
            self.unk_57 as u64,
            self.unk_58 as u64,
            self.unk_59 as u64,
            self.unk_60 as u64,
            self.unk_61 as u64,
            self.unk_62 as u64,
            self.unk_63 as u64,
            self.unk_64 as u64,
            self.unk_65 as u64,
            self.unk_66 as u64,
            self.unk_67 as u64,
            self.unk_68 as u64,
            self.unk_69 as u64,
            self.unk_70 as u64,
            self.unk_71 as u64,
            self.unk_72 as u64,
            self.unk_73 as u64,
            self.unk_74 as u64,
            self.unk_75 as u64,
            self.unk_76 as u64,
            self.unk_77 as u64,
            self.unk_78 as u64,
            self.unk_79 as u64,
            self.unk_80 as u64,
            self.unk_81 as u64,
            self.unk_82 as u64,
            self.unk_83 as u64,
            self.unk_84 as u64,
            self.unk_85 as u64,
            self.mat_extra_offset as u64,
            self.key as u64,
            self.unk_88 as u64,
            self.z_89 as u64,
        ]
    }

    open spec fn spec_from_cells(c: Seq<u64>, o: Endian) -> Self {
        MatBase {
            unk_0: c[0] as u32,
            unk_1: c[1] as u32,
            tex_2: Crc::Key(c[2] as u32),
            tex_3: Crc::Key(c[3] as u32),
            tex_4: Crc::Key(c[4] as u32),
            tex_5: Crc::Key(c[5] as u32),
            tex_6: Crc::Key(c[6] as u32),
            tex_7: Crc::Key(c[7] as u32),
            tex_8: Crc::Key(c[8] as u32),
            tex_9: Crc::Key(c[9] as u32),
            tex_10: Crc::Key(c[10] as u32),
            tex_11: Crc::Key(c[11] as u32),
            tex_12: Crc::Key(c[12] as u32),
            tex_13: Crc::Key(c[13] as u32),
            tex_14: Crc::Key(c[14] as u32),
            tex_15: Crc::Key(c[15] as u32),
            tex_16: Crc::Key(c[16] as u32),
            tex_17: Crc::Key(c[17] as u32),
            unk_18: c[18] as u32,
            unk_19: c[19] as u32,
            unk_20: c[20] as u32,
            unk_21: c[21] as u32,
            unk_22: c[22] as u32,
            unk_23: c[23] as u32,
            unk_24: c[24] as u32,
            unk_25: c[25] as u32,
            unk_26: c[26] as u32,
            unk_27: c[27] as u32,
            unk_28: c[28] as u32,
            unk_29: c[29] as u32,
            unk_30: c[30] as u32,
            unk_31: c[31] as u32,
            unk_32: c[32] as u32,
            unk_33: c[33] as u32,
            z_34: c[34] as u32,
            z_35: c[35] as u32,
            z_36: c[36] as u32,
            z_37: c[37] as u32,
            z_38: c[38] as u32,
            z_39: c[39] as u32,
            unk_40: c[40] as u32,
            unk_41: c[41] as u32,
            unk_42: c[42] as u32,
            unk_43: c[43] as u32,
            unk_44: c[44] as u32,
            unk_45: c[45] as u32,
            unk_46: c[46] as u32,
            unk_47: c[47] as u32,
            unk_48: c[48] as u32,
            unk_49: c[49] as u32,
            flags: c[50] as u64,
            kind: c[51] as u32,
            unk_53: c[52] as u32,
            unk_54a: c[53] as u8,
            unk_54b: c[54] as u8,
            side_flags: c[55] as u16,
            unk_55: c[56] as u32,
            unk_56: c[57] as u32,
            unk_57: c[58] as u32,
            unk_58: c[59] as u32,
            unk_59: c[60] as u32,
            unk_60: c[61] as u32,
            unk_61: c[62] as u32,
            unk_62: c[63] as u32,
            unk_63: c[64] as u32,
            unk_64: c[65] as u32,
            unk_65: c[66] as u32,
            unk_66: c[67] as u32,
            unk_67: c[68] as u32,
            unk_68: c[69] as u32,
            unk_69: c[70] as u32,
            unk_70: c[71] as u32,
            unk_71: c[72] as u32,
            unk_72: c[73] as u32,
            unk_73: c[74] as u32,
            unk_74: c[75] as u32,
            unk_75: c[76] as u32,
            unk_76: c[77] as u32,
            unk_77: c[78] as u32,
            unk_78: c[79] as u32,
            unk_79: c[80] as u32,
            unk_80: c[81] as u32,
            unk_81: c[82] as u32,
            unk_82: c[83] as u32,
            unk_83: c[84] as u32,
            unk_84: c[85] as u32,
            unk_85: c[86] as u32,
            mat_extra_offset: c[87] as u32,
            key: c[88] as u32,
            unk_88: c[89] as u32,
            z_89: c[90] as u32,
        }
    }

    open spec fn spec_values(&self) -> Seq<u64> {
        seq![
            self.unk_0 as u64,
            self.unk_1 as u64,
            self.tex_2.spec_key() as u64,
            self.tex_3.spec_key() as u64,
            self.tex_4.spec_key() as u64,
            self.tex_5.spec_key() as u64,
            self.tex_6.spec_key() as u64,
            self.tex_7.spec_key() as u64,
            self.tex_8.spec_key() as u64,
            self.tex_9.spec_key() as u64,
            self.tex_10.spec_key() as u64,
            self.tex_11.spec_key() as u64,
            self.tex_12.spec_key() as u64,
            self.tex_13.spec_key() as u64,
            self.tex_14.spec_key() as u64,
            self.tex_15.spec_key() as u64,
            self.tex_16.spec_key() as u64,
            self.tex_17.spec_key() as u64,
            self.unk_18 as u64,
            self.unk_19 as u64,
            self.unk_20 as u64,
            self.unk_21 as u64,
            self.unk_22 as u64,
            self.unk_23 as u64,
            self.unk_24 as u64,
            self.unk_25 as u64,
            self.unk_26 as u64,
            self.unk_27 as u64,
            self.unk_28 as u64,
            self.unk_29 as u64,
            self.unk_30 as u64,
            self.unk_31 as u64,
            self.unk_32 as u64,
            self.unk_33 as u64,
            self.z_34 as u64,
            self.z_35 as u64,
            self.z_36 as u64,
            self.z_37 as u64,
            self.z_38 as u64,
            self.z_39 as u64,
            self.unk_40 as u64,
            self.unk_41 as u64,
            self.unk_42 as u64,
            self.unk_43 as u64,
            self.unk_44 as u64,
            self.unk_45 as u64,
            self.unk_46 as u64,
            self.unk_47 as u64,
            self.unk_48 as u64,
            self.unk_49 as u64,
            self.flags as u64,
            self.kind as u64,
            self.unk_53 as u64,
            self.unk_54a as u64,
            self.unk_54b as u64,
            self.side_flags as u64,
            self.unk_55 as u64,
            self.unk_56 as u64,
            self.unk_57 as u64,
            self.unk_58 as u64,
            self.unk_59 as u64,
            self.unk_60 as u64,
            self.unk_61 as u64,
            self.unk_62 as u64,
            self.unk_63 as u64,
            self.unk_64 as u64,
            self.unk_65 as u64,
            self.unk_66 as u64,
            self.unk_67 as u64,
            self.unk_68 as u64,
            self.unk_69 as u64,
            self.unk_70 as u64,
            self.unk_71 as u64,
            self.unk_72 as u64,
            self.unk_73 as u64,
            self.unk_74 as u64,
            self.unk_75 as u64,
            self.unk_76 as u64,
            self.unk_77 as u64,
            self.unk_78 as u64,
            self.unk_79 as u64,
            self.unk_80 as u64,
            self.unk_81 as u64,
            self.unk_82 as u64,
            self.unk_83 as u64,
            self.unk_84 as u64,
            self.unk_85 as u64,
            self.mat_extra_offset as u64,
            self.key as u64,
            self.unk_88 as u64,
            self.z_89 as u64,
        ]
    }

    open spec fn spec_fits(&self, o: Endian) -> bool {
        true
    }

    fn layout(o: Endian) -> (r: Vec<Cell>) {
        vec![
            Cell { prim: Prim::U32, endian: o },
            Cell { prim: Prim::U32, endian: o },
            Cell { prim: Prim::U32, endian: o },
            Cell { prim: Prim::U32, endian: o },
            Cell { prim: Prim::U32, endian: o },
            Cell { prim: Prim::U32, endian: o },
            Cell { prim: Prim::U32, endian: o },
            Cell { prim: Prim::U32, endian: o },
            Cell { prim: Prim::U32, endian: o },
            Cell { prim: Prim::U32, endian: o },
            Cell { prim: Prim::U32, endian: o },
            Cell { prim: Prim::U32, endian: o },
            Cell { prim: Prim::U32, endian: o },
            Cell { prim: Prim::U32, endian: o },
            Cell { prim: Prim::U32, endian: o },
            Cell { prim: Prim::U32, endian: o },
            Cell { prim: Prim::U32, endian: o },
            Cell { prim: Prim::U32, endian: o },
            Cell { prim: Prim::U32, endian: o },
            Cell { prim: Prim::U32, endian: o },
            Cell { prim: Prim::U32, endian: o },
            Cell { prim: Prim::U32, endian: o },
            Cell { prim: Prim::U32, endian: o },
            Cell { prim: Prim::U32, endian: o },
            Cell { prim: Prim::U32, endian: o },
            Cell { prim: Prim::U32, endian: o },
            Cell { prim: Prim::U32, endian: o },
            Cell { prim: Prim::U32, endian: o },
            Cell { prim: Prim::U32, endian: o },
            Cell { prim: Prim::U32, endian: o },
            Cell { prim: Prim::U32, endian: o },
            Cell { prim: Prim::U32, endian: o },
            Cell { prim: Prim::U32, endian: o },
            Cell { prim: Prim::U32, endian: o },
            Cell { prim: Prim::U32, endian: o },
            Cell { prim: Prim::U32, endian: o },
            Cell { prim: Prim::U32, endian: o },
            Cell { prim: Prim::U32, endian: o },
            Cell { prim: Prim::U32, endian: o },
            Cell { prim: Prim::U32, endian: o },
            Cell { prim: Prim::U32, endian: o },
            Cell { prim: Prim::U32, endian: o },
            Cell { prim: Prim::U32, endian: o },
            Cell { prim: Prim::U32, endian: o },
            Cell { prim: Prim::U32, endian: o },
            Cell { prim: Prim::U32, endian: o },
            Cell { prim: Prim::U32, endian: o },
            Cell { prim: Prim::U32, endian: o },
            Cell { prim: Prim::U32, endian: o },
            Cell { prim: Prim::U32, endian: o },
            Cell { prim: Prim::U64, endian: o },
            Cell { prim: Prim::U32, endian: o },
            Cell { prim: Prim::U32, endian: o },
            Cell { prim: Prim::U8, endian: o },
            Cell { prim: Prim::U8, endian: o },
            Cell { prim: Prim::U16, endian: o },
            Cell { prim: Prim::U32, endian: o },
            Cell { prim: Prim::U32, endian: o },
            Cell { prim: Prim::U32, endian: o },
            Cell { prim: Prim::U32, endian: o },
            Cell { prim: Prim::U32, endian: o },
            Cell { prim: Prim::U32, endian: o },
            Cell { prim: Prim::U32, endian: o },
            Cell { prim: Prim::U32, endian: o },
            Cell { prim: Prim::U32, endian: o },
            Cell { prim: Prim::U32, endian: o },
            Cell { prim: Prim::U32, endian: o },
            Cell { prim: Prim::U32, endian: o },
            Cell { prim: Prim::U32, endian: o },
            Cell { prim: Prim::U32, endian: o },
            Cell { prim: Prim::U32, endian: o },
            Cell { prim: Prim::U32, endian: o },
            Cell { prim: Prim::U32, endian: o },
            Cell { prim: Prim::U32, endian: o },
            Cell { prim: Prim::U32, endian: o },
            Cell { prim: Prim::U32, endian: o },
            Cell { prim: Prim::U32, endian: o },
            Cell { prim: Prim::U32, endian: o },
            Cell { prim: Prim::U32, endian: o },
            Cell { prim: Prim::U32, endian: o },
            Cell { prim: Prim::U32, endian: o },
            Cell { prim: Prim::U32, endian: o },
            Cell { prim: Prim::U32, endian: o },
            Cell { prim: Prim::U32, endian: o },
            Cell { prim: Prim::U32, endian: o },
            Cell { prim: Prim::U32, endian: o },
            Cell { prim: Prim::U32, endian: o },
            Cell { prim: Prim::U32, endian: o },
            Cell { prim: Prim::U32, endian: o },
            Cell { prim: Prim::U32, endian: o },
            Cell { prim: Prim::U32, endian: o },
        ]
    }

    fn to_cells(&self, o: Endian) -> (r: Vec<u64>) {
        vec![
            self.unk_0 as u64,
            self.unk_1 as u64,
            self.tex_2.key() as u64,
            self.tex_3.key() as u64,
            self.tex_4.key() as u64,
            self.tex_5.key() as u64,
            self.tex_6.key() as u64,
            self.tex_7.key() as u64,
            self.tex_8.key() as u64,
            self.tex_9.key() as u64,
            self.tex_10.key() as u64,
            self.tex_11.key() as u64,
            self.tex_12.key() as u64,
            self.tex_13.key() as u64,
            self.tex_14.key() as u64,
            self.tex_15.key() as u64,
            self.tex_16.key() as u64,
            self.tex_17.key() as u64,
            self.unk_18 as u64,
            self.unk_19 as u64,
            self.unk_20 as u64,
            self.unk_21 as u64,
            self.unk_22 as u64,
            self.unk_23 as u64,
            self.unk_24 as u64,
            self.unk_25 as u64,
            self.unk_26 as u64,
            self.unk_27 as u64,
            self.unk_28 as u64,
            self.unk_29 as u64,
            self.unk_30 as u64,
            self.unk_31 as u64,
            self.unk_32 as u64,
            self.unk_33 as u64,
            self.z_34 as u64,
            self.z_35 as u64,
            self.z_36 as u64,
            self.z_37 as u64,
            self.z_38 as u64,
            self.z_39 as u64,
            self.unk_40 as u64,
            self.unk_41 as u64,
            self.unk_42 as u64,
            self.unk_43 as u64,
            self.unk_44 as u64,
            self.unk_45 as u64,
            self.unk_46 as u64,
            self.unk_47 as u64,
            self.unk_48 as u64,
            self.unk_49 as u64,
            self.flags as u64,
            self.kind as u64,
            self.unk_53 as u64,
            self.unk_54a as u64,
            self.unk_54b as u64,
            self.side_flags as u64,
            self.unk_55 as u64,
            self.unk_56 as u64,
            self.unk_57 as u64,
            self.unk_58 as u64,
            self.unk_59 as u64,
            self.unk_60 as u64,
            self.unk_61 as u64,
            self.unk_62 as u64,
            self.unk_63 as u64,
            self.unk_64 as u64,
            self.unk_65 as u64,
            self.unk_66 as u64,
            self.unk_67 as u64,
            self.unk_68 as u64,
            self.unk_69 as u64,
            self.unk_70 as u64,
            self.unk_71 as u64,
            self.unk_72 as u64,
            self.unk_73 as u64,
            self.unk_74 as u64,
            self.unk_75 as u64,
            self.unk_76 as u64,
            self.unk_77 as u64,
            self.unk_78 as u64,
            self.unk_79 as u64,
            self.unk_80 as u64,
            self.unk_81 as u64,
            self.unk_82 as u64,
            self.unk_83 as u64,
            self.unk_84 as u64,
            self.unk_85 as u64,
            self.mat_extra_offset as u64,
            self.key as u64,
            self.unk_88 as u64,
            self.z_89 as u64,
        ]
    }

    fn from_cells(c: &Vec<u64>, o: Endian) -> (r: Self) {
        MatBase {
            unk_0: c[0] as u32,
            unk_1: c[1] as u32,
            tex_2: Crc::Key(c[2] as u32),
            tex_3: Crc::Key(c[3] as u32),
            tex_4: Crc::Key(c[4] as u32),
            tex_5: Crc::Key(c[5] as u32),
            tex_6: Crc::Key(c[6] as u32),
            tex_7: Crc::Key(c[7] as u32),
            tex_8: Crc::Key(c[8] as u32),
            tex_9: Crc::Key(c[9] as u32),
            tex_10: Crc::Key(c[10] as u32),
            tex_11: Crc::Key(c[11] as u32),
            tex_12: Crc::Key(c[12] as u32),
            tex_13: Crc::Key(c[13] as u32),
            tex_14: Crc::Key(c[14] as u32),
            tex_15: Crc::Key(c[15] as u32),
            tex_16: Crc::Key(c[16] as u32),
            tex_17: Crc::Key(c[17] as u32),
            unk_18: c[18] as u32,
            unk_19: c[19] as u32,
            unk_20: c[20] as u32,
            unk_21: c[21] as u32,
            unk_22: c[22] as u32,
            unk_23: c[23] as u32,
            unk_24: c[24] as u32,
            unk_25: c[25] as u32,
            unk_26: c[26] as u32,
            unk_27: c[27] as u32,
            unk_28: c[28] as u32,
            unk_29: c[29] as u32,
            unk_30: c[30] as u32,
            unk_31: c[31] as u32,
            unk_32: c[32] as u32,
            unk_33: c[33] as u32,
            z_34: c[34] as u32,
            z_35: c[35] as u32,
            z_36: c[36] as u32,
            z_37: c[37] as u32,
            z_38: c[38] as u32,
            z_39: c[39] as u32,
            unk_40: c[40] as u32,
            unk_41: c[41] as u32,
            unk_42: c[42] as u32,
            unk_43: c[43] as u32,
            unk_44: c[44] as u32,
            unk_45: c[45] as u32,
            unk_46: c[46] as u32,
            unk_47: c[47] as u32,
            unk_48: c[48] as u32,
            unk_49: c[49] as u32,
            flags: c[50] as u64,
            kind: c[51] as u32,
            unk_53: c[52] as u32,
            unk_54a: c[53] as u8,
            unk_54b: c[54] as u8,
            side_flags: c[55] as u16,
            unk_55: c[56] as u32,
            unk_56: c[57] as u32,
            unk_57: c[58] as u32,
            unk_58: c[59] as u32,
            unk_59: c[60] as u32,
            unk_60: c[61] as u32,
            unk_61: c[62] as u32,
            unk_62: c[63] as u32,
            unk_63: c[64] as u32,
            unk_64: c[65] as u32,
            unk_65: c[66] as u32,
            unk_66: c[67] as u32,
            unk_67: c[68] as u32,
            unk_68: c[69] as u32,
            unk_69: c[70] as u32,
            unk_70: c[71] as u32,
            unk_71: c[72] as u32,
            unk_72: c[73] as u32,
            unk_73: c[74] as u32,
            unk_74: c[75] as u32,
            unk_75: c[76] as u32,
            unk_76: c[77] as u32,
            unk_77: c[78] as u32,
            unk_78: c[79] as u32,
            unk_79: c[80] as u32,
            unk_80: c[81] as u32,
            unk_81: c[82] as u32,
            unk_82: c[83] as u32,
            unk_83: c[84] as u32,
            unk_84: c[85] as u32,
            unk_85: c[86] as u32,
            mat_extra_offset: c[87] as u32,
            key: c[88] as u32,
            unk_88: c[89] as u32,
            z_89: c[90] as u32,
        }
    }

    open spec fn spec_keys_resolved(&self, m: Map<u32, Seq<char>>) -> bool {
        crc_resolved(self.tex_2, m) && crc_resolved(self.tex_3, m) && crc_resolved(self.tex_4, m) && crc_resolved(self.tex_5, m) && crc_resolved(self.tex_6, m) && crc_resolved(self.tex_7, m) && crc_resolved(self.tex_8, m) && crc_resolved(self.tex_9, m) && crc_resolved(self.tex_10, m) && crc_resolved(self.tex_11, m) && crc_resolved(self.tex_12, m) && crc_resolved(self.tex_13, m) && crc_resolved(self.tex_14, m) && crc_resolved(self.tex_15, m) && crc_resolved(self.tex_16, m) && crc_resolved(self.tex_17, m)
    }

    #[verifier::rlimit(100)]
    #[verifier::spinoff_prover]
    fn resolved(&self, table: &StringTable) -> (r: Self) {
        MatBase {
            unk_0: self.unk_0,
            unk_1: self.unk_1,
            tex_2: Crc::resolve(self.tex_2.key(), table),
            tex_3: Crc::resolve(self.tex_3.key(), table),
            tex_4: Crc::resolve(self.tex_4.key(), table),
            tex_5: Crc::resolve(self.tex_5.key(), table),
            tex_6: Crc::resolve(self.tex_6.key(), table),
            tex_7: Crc::resolve(self.tex_7.key(), table),
            tex_8: Crc::resolve(self.tex_8.key(), table),
            tex_9: Crc::resolve(self.tex_9.key(), table),
            tex_10: Crc::resolve(self.tex_10.key(), table),
            tex_11: Crc::resolve(self.tex_11.key(), table),
            tex_12: Crc::resolve(self.tex_12.key(), table),
            tex_13: Crc::resolve(self.tex_13.key(), table),
            tex_14: Crc::resolve(self.tex_14.key(), table),
            tex_15: Crc::resolve(self.tex_15.key(), table),
            tex_16: Crc::resolve(self.tex_16.key(), table),
            tex_17: Crc::resolve(self.tex_17.key(), table),
            unk_18: self.unk_18,
            unk_19: self.unk_19,
            unk_20: self.unk_20,
            unk_21: self.unk_21,
            unk_22: self.unk_22,
            unk_23: self.unk_23,
            unk_24: self.unk_24,
            unk_25: self.unk_25,
            unk_26: self.unk_26,
            unk_27: self.unk_27,
            unk_28: self.unk_28,
            unk_29: self.unk_29,
            unk_30: self.unk_30,
            unk_31: self.unk_31,
            unk_32: self.unk_32,
            unk_33: self.unk_33,
            z_34: self.z_34,
            z_35: self.z_35,
            z_36: self.z_36,
            z_37: self.z_37,
            z_38: self.z_38,
            z_39: self.z_39,
            unk_40: self.unk_40,
            unk_41: self.unk_41,
            unk_42: self.unk_42,
            unk_43: self.unk_43,
            unk_44: self.unk_44,
            unk_45: self.unk_45,
            unk_46: self.unk_46,
            unk_47: self.unk_47,
            unk_48: self.unk_48,
            unk_49: self.unk_49,
            flags: self.flags,
            kind: self.kind,
            unk_53: self.unk_53,
            unk_54a: self.unk_54a,
            unk_54b: self.unk_54b,
            side_flags: self.side_flags,
            unk_55: self.unk_55,
            unk_56: self.unk_56,
            unk_57: self.unk_57,
            unk_58: self.unk_58,
            unk_59: self.unk_59,
            unk_60: self.unk_60,
            unk_61: self.unk_61,
            unk_62: self.unk_62,
            unk_63: self.unk_63,
            unk_64: self.unk_64,
            unk_65: self.unk_65,
            unk_66: self.unk_66,
            unk_67: self.unk_67,
            unk_68: self.unk_68,
            unk_69: self.unk_69,
            unk_70: self.unk_70,
            unk_71: self.unk_71,
            unk_72: self.unk_72,
            unk_73: self.unk_73,
            unk_74: self.unk_74,
            unk_75: self.unk_75,
            unk_76: self.unk_76,
            unk_77: self.unk_77,
            unk_78: self.unk_78,
            unk_79: self.unk_79,
            unk_80: self.unk_80,
            unk_81: self.unk_81,
            unk_82: self.unk_82,
            unk_83: self.unk_83,
            unk_84: self.unk_84,
            unk_85: self.unk_85,
            mat_extra_offset: self.mat_extra_offset,
            key: self.key,
            unk_88: self.unk_88,
            z_89: self.z_89,
        }
    }

    proof fn lemma_layout_small(o: Endian) {
    }

    #[verifier::rlimit(100)]
    #[verifier::spinoff_prover]
    proof fn lemma_cells(&self, o: Endian) {
    }
}

/// Index record of extra material data.
#[derive(Debug, Clone, Copy, PartialEq)]
pub struct MatExtra {
    pub unk_0: u32,
    pub unk_1: u32,
    pub unk_2: u32,
    pub unk_3: u32,
    pub unk_4: u32,
    pub unk_5: u32,
    pub unk_6: u32,
    pub unk_7: u32,
    pub unk_8: u32,
    pub unk_9: u32,
    pub unk_10: u32,
    pub unk_11: u32,
    pub unk_12: u32,
    pub unk_13: u32,
    pub unk_14: u32,
    pub unk_15: u32,
    pub unk_16: u32,
    pub unk_17: u32,
    pub unk_18: u32,
    pub unk_19: u32,
    pub unk_20: u32,
    pub unk_21: u32,
    pub unk_22: u32,
    pub unk_23: u32,
    pub unk_24: u32,
    pub unk_25: u32,
    pub unk_26: u32,
    pub unk_27: u32,
    pub unk_28: u32,
    pub unk_29: u32,
    pub unk_30: u32,
    pub unk_31: u32,
    pub unk_32: u32,
    pub unk_33: u32,
    pub unk_34: u32,
    pub unk_35: u32,
    pub unk_36: u32,
    pub unk_37: u32,
    pub unk_38: u32,
    pub unk_39: u32,
    pub unk_40: u32,
    pub unk_41: u32,
    pub unk_42: u32,
    pub unk_43: u32,
    pub unk_44: u32,
    pub unk_45: u32,
    pub unk_46: u32,
    pub unk_47: u32,
    pub unk_48: u32,
    pub unk_49: u32,
}

impl OrderedData for MatExtra {
    open spec fn spec_layout(o: Endian) -> Seq<Cell> {
        seq![
            Cell { prim: Prim::U32, endian: o },
            Cell { prim: Prim::U32, endian: o },
            Cell { prim: Prim::U32, endian: o },
            Cell { prim: Prim::U32, endian: o },
            Cell { prim: Prim::U32, endian: o },
            Cell { prim: Prim::U32, endian: o },
            Cell { prim: Prim::U32, endian: o },
            Cell { prim: Prim::U32, endian: o },
            Cell { prim: Prim::U32, endian: o },
            Cell { prim: Prim::U32, endian: o },
            Cell { prim: Prim::U32, endian: o },
            Cell { prim: Prim::U32, endian: o },
            Cell { prim: Prim::U32, endian: o },
            Cell { prim: Prim::U32, endian: o },
            Cell { prim: Prim::U32, endian: o },
            Cell { prim: Prim::U32, endian: o },
            Cell { prim: Prim::U32, endian: o },
            Cell { prim: Prim::U32, endian: o },
            Cell { prim: Prim::U32, endian: o },
            Cell { prim: Prim::U32, endian: o },
            Cell { prim: Prim::U32, endian: o },
            Cell { prim: Prim::U32, endian: o },
            Cell { prim: Prim::U32, endian: o },
            Cell { prim: Prim::U32, endian: o },
            Cell { prim: Prim::U32, endian: o },
            Cell { prim: Prim::U32, endian: o },
            Cell { prim: Prim::U32, endian: o },
            Cell { prim: Prim::U32, endian: o },
            Cell { prim: Prim::U32, endian: o },
            Cell { prim: Prim::U32, endian: o },
            Cell { prim: Prim::U32, endian: o },
            Cell { prim: Prim::U32, endian: o },
            Cell { prim: Prim::U32, endian: o },
            Cell { prim: Prim::U32, endian: o },
            Cell { prim: Prim::U32, endian: o },
            Cell { prim: Prim::U32, endian: o },
            Cell { prim: Prim::U32, endian: o },
            Cell { prim: Prim::U32, endian: o },
            Cell { prim: Prim::U32, endian: o },
            Cell { prim: Prim::U32, endian: o },
            Cell { prim: Prim::U32, endian: o },
            Cell { prim: Prim::U32, endian: o },
            Cell { prim: Prim::U32, endian: o },
            Cell { prim: Prim::U32, endian: o },
            Cell { prim: Prim::U32, endian: o },
            Cell { prim: Prim::U32, endian: o },
            Cell { prim: Prim::U32, endian: o },
            Cell { prim: Prim::U32, endian: o },
            Cell { prim: Prim::U32, endian: o },
            Cell { prim: Prim::U32, endian: o },
        ]
    }

    open spec fn spec_cells(&self, o: Endian) -> Seq<u64> {
        seq![
            self.unk_0 as u64,
            self.unk_1 as u64,
            self.unk_2 as u64,
            self.unk_3 as u64,
            self.unk_4 as u64,
            self.unk_5 as u64,
            self.unk_6 as u64,
            self.unk_7 as u64,
            self.unk_8 as u64,
            self.unk_9 as u64,
            self.unk_10 as u64,
            self.unk_11 as u64,
            self.unk_12 as u64,
            self.unk_13 as u64,
            self.unk_14 as u64,
            self.unk_15 as u64,
            self.unk_16 as u64,
            self.unk_17 as u64,
            self.unk_18 as u64,
            self.unk_19 as u64,
            self.unk_20 as u64,
            self.unk_21 as u64,
            self.unk_22 as u64,
            self.unk_23 as u64,
            self.unk_24 as u64,
            self.unk_25 as u64,
            self.unk_26 as u64,
            self.unk_27 as u64,
            self.unk_28 as u64,
            self.unk_29 as u64,
            self.unk_30 as u64,
            self.unk_31 as u64,
            self.unk_32 as u64,
            self.unk_33 as u64,
            self.unk_34 as u64,
            self.unk_35 as u64,
            self.unk_36 as u64,
            self.unk_37 as u64,
            self.unk_38 as u64,
            self.unk_39 as u64,
            self.unk_40 as u64,
            self.unk_41 as u64,
            self.unk_42 as u64,
            self.unk_43 as u64,
            self.unk_44 as u64,
            self.unk_45 as u64,
            self.unk_46 as u64,
            self.unk_47 as u64,
            self.unk_48 as u64,
            self.unk_49 as u64,
        ]
    }

    open spec fn spec_from_cells(c: Seq<u64>, o: Endian) -> Self {
        MatExtra {
            unk_0: c[0] as u32,
            unk_1: c[1] as u32,
            unk_2: c[2] as u32,
            unk_3: c[3] as u32,
            unk_4: c[4] as u32,
            unk_5: c[5] as u32,
            unk_6: c[6] as u32,
            unk_7: c[7] as u32,
            unk_8: c[8] as u32,
            unk_9: c[9] as u32,
            unk_10: c[10] as u32,
            unk_11: c[11] as u32,
            unk_12: c[12] as u32,
            unk_13: c[13] as u32,
            unk_14: c[14] as u32,
            unk_15: c[15] as u32,
            unk_16: c[16] as u32,
            unk_17: c[17] as u32,
            unk_18: c[18] as u32,
            unk_19: c[19] as u32,
            unk_20: c[20] as u32,
            unk_21: c[21] as u32,
            unk_22: c[22] as u32,
            unk_23: c[23] as u32,
            unk_24: c[24] as u32,
            unk_25: c[25] as u32,
            unk_26: c[26] as u32,
            unk_27: c[27] as u32,
            unk_28: c[28] as u32,
            unk_29: c[29] as u32,
            unk_30: c[30] as u32,
            unk_31: c[31] as u32,
            unk_32: c[32] as u32,
            unk_33: c[33] as u32,
            unk_34: c[34] as u32,
            unk_35: c[35] as u32,
            unk_36: c[36] as u32,
            unk_37: c[37] as u32,
            unk_38: c[38] as u32,
            unk_39: c[39] as u32,
            unk_40: c[40] as u32,
            unk_41: c[41] as u32,
            unk_42: c[42] as u32,
            unk_43: c[43] as u32,
            unk_44: c[44] as u32,
            unk_45: c[45] as u32,
            unk_46: c[46] as u32,
            unk_47: c[47] as u32,
            unk_48: c[48] as u32,
            unk_49: c[49] as u32,
        }
    }

    open spec fn spec_values(&self) -> Seq<u64> {
        seq![
            self.unk_0 as u64,
            self.unk_1 as u64,
            self.unk_2 as u64,
            self.unk_3 as u64,
            self.unk_4 as u64,
            self.unk_5 as u64,
            self.unk_6 as u64,
            self.unk_7 as u64,
            self.unk_8 as u64,
            self.unk_9 as u64,
            self.unk_10 as u64,
            self.unk_11 as u64,
            self.unk_12 as u64,
            self.unk_13 as u64,
            self.unk_14 as u64,
            self.unk_15 as u64,
            self.unk_16 as u64,
            self.unk_17 as u64,
            self.unk_18 as u64,
            self.unk_19 as u64,
            self.unk_20 as u64,
            self.unk_21 as u64,
            self.unk_22 as u64,
            self.unk_23 as u64,
            self.unk_24 as u64,
            self.unk_25 as u64,
            self.unk_26 as u64,
            self.unk_27 as u64,
            self.unk_28 as u64,
            self.unk_29 as u64,
            self.unk_30 as u64,
            self.unk_31 as u64,
            self.unk_32 as u64,
            self.unk_33 as u64,
            self.unk_34 as u64,
            self.unk_35 as u64,
            self.unk_36 as u64,
            self.unk_37 as u64,
            self.unk_38 as u64,
            self.unk_39 as u64,
            self.unk_40 as u64,
            self.unk_41 as u64,
            self.unk_42 as u64,
            self.unk_43 as u64,
            self.unk_44 as u64,
            self.unk_45 as u64,
            self.unk_46 as u64,
            self.unk_47 as u64,
            self.unk_48 as u64,
            self.unk_49 as u64,
        ]
    }

    open spec fn spec_fits(&self, o: Endian) -> bool {
        true
    }

    fn layout(o: Endian) -> (r: Vec<Cell>) {
        vec![
            Cell { prim: Prim::U32, endian: o },
            Cell { prim: Prim::U32, endian: o },
            Cell { prim: Prim::U32, endian: o },
            Cell { prim: Prim::U32, endian: o },
            Cell { prim: Prim::U32, endian: o },
            Cell { prim: Prim::U32, endian: o },
            Cell { prim: Prim::U32, endian: o },
            Cell { prim: Prim::U32, endian: o },
            Cell { prim: Prim::U32, endian: o },
            Cell { prim: Prim::U32, endian: o },
            Cell { prim: Prim::U32, endian: o },
            Cell { prim: Prim::U32, endian: o },
            Cell { prim: Prim::U32, endian: o },
            Cell { prim: Prim::U32, endian: o },
            Cell { prim: Prim::U32, endian: o },
            Cell { prim: Prim::U32, endian: o },
            Cell { prim: Prim::U32, endian: o },
            Cell { prim: Prim::U32, endian: o },
            Cell { prim: Prim::U32, endian: o },
            Cell { prim: Prim::U32, endian: o },
            Cell { prim: Prim::U32, endian: o },
            Cell { prim: Prim::U32, endian: o },
            Cell { prim: Prim::U32, endian: o },
            Cell { prim: Prim::U32, endian: o },
            Cell { prim: Prim::U32, endian: o },
            Cell { prim: Prim::U32, endian: o },
            Cell { prim: Prim::U32, endian: o },
            Cell { prim: Prim::U32, endian: o },
            Cell { prim: Prim::U32, endian: o },
            Cell { prim: Prim::U32, endian: o },
            Cell { prim: Prim::U32, endian: o },
            Cell { prim: Prim::U32, endian: o },
            Cell { prim: Prim::U32, endian: o },
            Cell { prim: Prim::U32, endian: o },
            Cell { prim: Prim::U32, endian: o },
            Cell { prim: Prim::U32, endian: o },
            Cell { prim: Prim::U32, endian: o },
            Cell { prim: Prim::U32, endian: o },
            Cell { prim: Prim::U32, endian: o },
            Cell { prim: Prim::U32, endian: o },
            Cell { prim: Prim::U32, endian: o },
            Cell { prim: Prim::U32, endian: o },
            Cell { prim: Prim::U32, endian: o },
            Cell { prim: Prim::U32, endian: o },
            Cell { prim: Prim::U32, endian: o },
            Cell { prim: Prim::U32, endian: o },
            Cell { prim: Prim::U32, endian: o },
            Cell { prim: Prim::U32, endian: o },
            Cell { prim: Prim::U32, endian: o },
            Cell { prim: Prim::U32, endian: o },
        ]
    }

    fn to_cells(&self, o: Endian) -> (r: Vec<u64>) {
        vec![
            self.unk_0 as u64,
            self.unk_1 as u64,
            self.unk_2 as u64,
            self.unk_3 as u64,
            self.unk_4 as u64,
            self.unk_5 as u64,
            self.unk_6 as u64,
            self.unk_7 as u64,
            self.unk_8 as u64,
            self.unk_9 as u64,
            self.unk_10 as u64,
            self.unk_11 as u64,
            self.unk_12 as u64,
            self.unk_13 as u64,
            self.unk_14 as u64,
            self.unk_15 as u64,
            self.unk_16 as u64,
            self.unk_17 as u64,
            self.unk_18 as u64,
            self.unk_19 as u64,
            self.unk_20 as u64,
            self.unk_21 as u64,
            self.unk_22 as u64,
            self.unk_23 as u64,
            self.unk_24 as u64,
            self.unk_25 as u64,
            self.unk_26 as u64,
            self.unk_27 as u64,
            self.unk_28 as u64,
            self.unk_29 as u64,
            self.unk_30 as u64,
            self.unk_31 as u64,
            self.unk_32 as u64,
            self.unk_33 as u64,
            self.unk_34 as u64,
            self.unk_35 as u64,
            self.unk_36 as u64,
            self.unk_37 as u64,
            self.unk_38 as u64,
            self.unk_39 as u64,
            self.unk_40 as u64,
            self.unk_41 as u64,
            self.unk_42 as u64,
            self.unk_43 as u64,
            self.unk_44 as u64,
            self.unk_45 as u64,
            self.unk_46 as u64,
            self.unk_47 as u64,
            self.unk_48 as u64,
            self.unk_49 as u64,
        ]
    }

    fn from_cells(c: &Vec<u64>, o: Endian) -> (r: Self) {
        MatExtra {
            unk_0: c[0] as u32,
            unk_1: c[1] as u32,
            unk_2: c[2] as u32,
            unk_3: c[3] as u32,
            unk_4: c[4] as u32,
            unk_5: c[5] as u32,
            unk_6: c[6] as u32,
            unk_7: c[7] as u32,
            unk_8: c[8] as u32,
            unk_9: c[9] as u32,
            unk_10: c[10] as u32,
            unk_11: c[11] as u32,
            unk_12: c[12] as u32,
            unk_13: c[13] as u32,
            unk_14: c[14] as u32,
            unk_15: c[15] as u32,
            unk_16: c[16] as u32,
            unk_17: c[17] as u32,
            unk_18: c[18] as u32,
            unk_19: c[19] as u32,
            unk_20: c[20] as u32,
            unk_21: c[21] as u32,
            unk_22: c[22] as u32,
            unk_23: c[23] as u32,
            unk_24: c[24] as u32,
            unk_25: c[25] as u32,
            unk_26: c[26] as u32,
            unk_27: c[27] as u32,
            unk_28: c[28] as u32,
            unk_29: c[29] as u32,
            unk_30: c[30] as u32,
            unk_31: c[31] as u32,
            unk_32: c[32] as u32,
            unk_33: c[33] as u32,
            unk_34: c[34] as u32,
            unk_35: c[35] as u32,
            unk_36: c[36] as u32,
            unk_37: c[37] as u32,
            unk_38: c[38] as u32,
            unk_39: c[39] as u32,
            unk_40: c[40] as u32,
            unk_41: c[41] as u32,
            unk_42: c[42] as u32,
            unk_43: c[43] as u32,
            unk_44: c[44] as u32,
            unk_45: c[45] as u32,
            unk_46: c[46] as u32,
            unk_47: c[47] as u32,
            unk_48: c[48] as u32,
            unk_49: c[49] as u32,
        }
    }

    open spec fn spec_keys_resolved(&self, m: Map<u32, Seq<char>>) -> bool {
        true
    }

    #[verifier::rlimit(100)]
    #[verifier::spinoff_prover]
    fn resolved(&self, table: &StringTable) -> (r: Self) {
        *self
    }

    proof fn lemma_layout_small(o: Endian) {
    }

    #[verifier::rlimit(100)]
    #[verifier::spinoff_prover]
    proof fn lemma_cells(&self, o: Endian) {
    }
}

/// Index record of a collision shape.
#[derive(Debug, Clone, Copy, PartialEq)]
pub struct ShapeInfo {
    pub offset: u32,
    pub kind: u32,
    pub unk_2: u32,
    pub unk_3: u32,
    pub unk_4: u32,
    pub unk_5: u32,
    pub unk_6: u32,
    pub unk_7: u32,
    pub unk_8: u32,
    pub unk_9: u32,
    pub unk_10: u32,
    pub unk_11: u32,
    pub unk_12: u32,
    pub unk_13: u32,
    pub unk_14: u32,
    pub unk_15: u32,
    pub unk_16: u32,
    pub unk_17: u32,
    pub unk_18: u32,
    pub unk_19: u32,
    pub unk_20: u32,
    pub unk_21: u32,
    pub unk_22: u32,
    pub unk_23: u32,
    pub unk_24: u32,
    pub unk_25: u32,
    pub unk_26: u32,
    pub hk_shape_num: u32,
    pub hk_shape_offset: u32,
    pub unk_29a: u8,
    pub unk_29b: u8,
    pub unk_29c: u8,
    pub unk_29d: u8,
    pub unk_30: u32,
}

impl OrderedData for ShapeInfo {
    open spec fn spec_layout(o: Endian) -> Seq<Cell> {
        seq![
            Cell { prim: Prim::U32, endian: o },
            Cell { prim: Prim::U32, endian: o },
            Cell { prim: Prim::U32, endian: o },
            Cell { prim: Prim::U32, endian: o },
            Cell { prim: Prim::U32, endian: o },
            Cell { prim: Prim::U32, endian: o },
            Cell { prim: Prim::U32, endian: o },
            Cell { prim: Prim::U32, endian: o },
            Cell { prim: Prim::U32, endian: o },
            Cell { prim: Prim::U32, endian: o },
            Cell { prim: Prim::U32, endian: o },
            Cell { prim: Prim::U32, endian: o },
            Cell { prim: Prim::U32, endian: o },
            Cell { prim: Prim::U32, endian: o },
            Cell { prim: Prim::U32, endian: o },
            Cell { prim: Prim::U32, endian: o },
            Cell { prim: Prim::U32, endian: o },
            Cell { prim: Prim::U32, endian: o },
            Cell { prim: Prim::U32, endian: o },
            Cell { prim: Prim::U32, endian: o },
            Cell { prim: Prim::U32, endian: o },
            Cell { prim: Prim::U32, endian: o },
            Cell { prim: Prim::U32, endian: o },
            Cell { prim: Prim::U32, endian: o },
            Cell { prim: Prim::U32, endian: o },
            Cell { prim: Prim::U32, endian: o },
            Cell { prim: Prim::U32, endian: o },
            Cell { prim: Prim::U32, endian: o },
            Cell { prim: Prim::U32, endian: o },
            Cell { prim: Prim::U8, endian: o },
            Cell { prim: Prim::U8, endian: o },
            Cell { prim: Prim::U8, endian: o },
            Cell { prim: Prim::U8, endian: o },
            Cell { prim: Prim::U32, endian: o },
        ]
    }

    open spec fn spec_cells(&self, o: Endian) -> Seq<u64> {
        seq![
            self.offset as u64,
            self.kind as u64,
            self.unk_2 as u64,
            self.unk_3 as u64,
            self.unk_4 as u64,
            self.unk_5 as u64,
            self.unk_6 as u64,
            self.unk_7 as u64,
            self.unk_8 as u64,
            self.unk_9 as u64,
            self.unk_10 as u64,
            self.unk_11 as u64,
            self.unk_12 as u64,
            self.unk_13 as u64,
            self.unk_14 as u64,
            self.unk_15 as u64,
            self.unk_16 as u64,
            self.unk_17 as u64,
            self.unk_18 as u64,
            self.unk_19 as u64,
            self.unk_20 as u64,
            self.unk_21 as u64,
            self.unk_22 as u64,
            self.unk_23 as u64,
            self.unk_24 as u64,
            self.unk_25 as u64,
            self.unk_26 as u64,
            self.hk_shape_num as u64,
            self.hk_shape_offset as u64,
            self.unk_29a as u64,
            self.unk_29b as u64,
            self.unk_29c as u64,
            self.unk_29d as u64,
            self.unk_30 as u64,
        ]
    }

    open spec fn spec_from_cells(c: Seq<u64>, o: Endian) -> Self {
        ShapeInfo {
            offset: c[0] as u32,
            kind: c[1] as u32,
            unk_2: c[2] as u32,
            unk_3: c[3] as u32,
            unk_4: c[4] as u32,
            unk_5: c[5] as u32,
            unk_6: c[6] as u32,
            unk_7: c[7] as u32,
            unk_8: c[8] as u32,
            unk_9: c[9] as u32,
            unk_10: c[10] as u32,
            unk_11: c[11] as u32,
            unk_12: c[12] as u32,
            unk_13: c[13] as u32,
            unk_14: c[14] as u32,
            unk_15: c[15] as u32,
            unk_16: c[16] as u32,
            unk_17: c[17] as u32,
            unk_18: c[18] as u32,
            unk_19: c[19] as u32,
            unk_20: c[20] as u32,
            unk_21: c[21] as u32,
            unk_22: c[22] as u32,
            unk_23: c[23] as u32,
            unk_24: c[24] as u32,
            unk_25: c[25] as u32,
            unk_26: c[26] as u32,
            hk_shape_num: c[27] as u32,
            hk_shape_offset: c[28] as u32,
            unk_29a: c[29] as u8,
            unk_29b: c[30] as u8,
            unk_29c: c[31] as u8,
            unk_29d: c[32] as u8,
            unk_30: c[33] as u32,
        }
    }

    open spec fn spec_values(&self) -> Seq<u64> {
        seq![
            self.offset as u64,
            self.kind as u64,
            self.unk_2 as u64,
            self.unk_3 as u64,
            self.unk_4 as u64,
            self.unk_5 as u64,
            self.unk_6 as u64,
            self.unk_7 as u64,
            self.unk_8 as u64,
            self.unk_9 as u64,
            self.unk_10 as u64,
            self.unk_11 as u64,
            self.unk_12 as u64,
            self.unk_13 as u64,
            self.unk_14 as u64,
            self.unk_15 as u64,
            self.unk_16 as u64,
            self.unk_17 as u64,
            self.unk_18 as u64,
            self.unk_19 as u64,
            self.unk_20 as u64,
            self.unk_21 as u64,
            self.unk_22 as u64,
            self.unk_23 as u64,
            self.unk_24 as u64,
            self.unk_25 as u64,
            self.unk_26 as u64,
            self.hk_shape_num as u64,
            self.hk_shape_offset as u64,
            self.unk_29a as u64,
            self.unk_29b as u64,
            self.unk_29c as u64,
            self.unk_29d as u64,
            self.unk_30 as u64,
        ]
    }

    open spec fn spec_fits(&self, o: Endian) -> bool {
        true
    }

    fn layout(o: Endian) -> (r: Vec<Cell>) {
        vec![
            Cell { prim: Prim::U32, endian: o },
            Cell { prim: Prim::U32, endian: o },
            Cell { prim: Prim::U32, endian: o },
            Cell { prim: Prim::U32, endian: o },
            Cell { prim: Prim::U32, endian: o },
            Cell { prim: Prim::U32, endian: o },
            Cell { prim: Prim::U32, endian: o },
            Cell { prim: Prim::U32, endian: o },
            Cell { prim: Prim::U32, endian: o },
            Cell { prim: Prim::U32, endian: o },
            Cell { prim: Prim::U32, endian: o },
            Cell { prim: Prim::U32, endian: o },
            Cell { prim: Prim::U32, endian: o },
            Cell { prim: Prim::U32, endian: o },
            Cell { prim: Prim::U32, endian: o },
            Cell { prim: Prim::U32, endian: o },
            Cell { prim: Prim::U32, endian: o },
            Cell { prim: Prim::U32, endian: o },
            Cell { prim: Prim::U32, endian: o },
            Cell { prim: Prim::U32, endian: o },
            Cell { prim: Prim::U32, endian: o },
            Cell { prim: Prim::U32, endian: o },
            Cell { prim: Prim::U32, endian: o },
            Cell { prim: Prim::U32, endian: o },
            Cell { prim: Prim::U32, endian: o },
            Cell { prim: Prim::U32, endian: o },
            Cell { prim: Prim::U32, endian: o },
            Cell { prim: Prim::U32, endian: o },
            Cell { prim: Prim::U32, endian: o },
            Cell { prim: Prim::U8, endian: o },
            Cell { prim: Prim::U8, endian: o },
            Cell { prim: Prim::U8, endian: o },
            Cell { prim: Prim::U8, endian: o },
            Cell { prim: Prim::U32, endian: o },
        ]
    }

    fn to_cells(&self, o: Endian) -> (r: Vec<u64>) {
        vec![
            self.offset as u64,
            self.kind as u64,
            self.unk_2 as u64,
            self.unk_3 as u64,
            self.unk_4 as u64,
            self.unk_5 as u64,
            self.unk_6 as u64,
            self.unk_7 as u64,
            self.unk_8 as u64,
            self.unk_9 as u64,
            self.unk_10 as u64,
            self.unk_11 as u64,
            self.unk_12 as u64,
            self.unk_13 as u64,
            self.unk_14 as u64,
            self.unk_15 as u64,
            self.unk_16 as u64,
            self.unk_17 as u64,
            self.unk_18 as u64,
            self.unk_19 as u64,
            self.unk_20 as u64,
            self.unk_21 as u64,
            self.unk_22 as u64,
            self.unk_23 as u64,
            self.unk_24 as u64,
            self.unk_25 as u64,
            self.unk_26 as u64,
            self.hk_shape_num as u64,
            self.hk_shape_offset as u64,
            self.unk_29a as u64,
            self.unk_29b as u64,
            self.unk_29c as u64,
            self.unk_29d as u64,
            self.unk_30 as u64,
        ]
    }

    fn from_cells(c: &Vec<u64>, o: Endian) -> (r: Self) {
        ShapeInfo {
            offset: c[0] as u32,
            kind: c[1] as u32,
            unk_2: c[2] as u32,
            unk_3: c[3] as u32,
            unk_4: c[4] as u32,
            unk_5: c[5] as u32,
            unk_6: c[6] as u32,
            unk_7: c[7] as u32,
            unk_8: c[8] as u32,
            unk_9: c[9] as u32,
            unk_10: c[10] as u32,
            unk_11: c[11] as u32,
            unk_12: c[12] as u32,
            unk_13: c[13] as u32,
            unk_14: c[14] as u32,
            unk_15: c[15] as u32,
            unk_16: c[16] as u32,
            unk_17: c[17] as u32,
            unk_18: c[18] as u32,
            unk_19: c[19] as u32,
            unk_20: c[20] as u32,
            unk_21: c[21] as u32,
            unk_22: c[22] as u32,
            unk_23: c[23] as u32,
            unk_24: c[24] as u32,
            unk_25: c[25] as u32,
            unk_26: c[26] as u32,
            hk_shape_num: c[27] as u32,
            hk_shape_offset: c[28] as u32,
            unk_29a: c[29] as u8,
            unk_29b: c[30] as u8,
            unk_29c: c[31] as u8,
            unk_29d: c[32] as u8,
            unk_30: c[33] as u32,
        }
    }

    open spec fn spec_keys_resolved(&self, m: Map<u32, Seq<char>>) -> bool {
        true
    }

    fn resolved(&self, table: &StringTable) -> (r: Self) {
        *self
    }

    proof fn lemma_layout_small(o: Endian) {
    }

    proof fn lemma_cells(&self, o: Endian) {
    }
}

/// Index record of physics constraint data.
#[derive(Debug, Clone, Copy, PartialEq)]
pub struct HkConstraintData {
    pub kind: u32,
    pub unk_1: u32,
    pub unk_2: u32,
    pub unk_3: u32,
    pub unk_4: u32,
    pub unk_5: u32,
    pub unk_6: u32,
    pub unk_7: u32,
    pub unk_8: u32,
    pub unk_9: u32,
    pub unk_10: u32,
    pub unk_11: u32,
    pub unk_12: u32,
    pub unk_13: u32,
    pub unk_14: u32,
    pub unk_15: u32,
    pub unk_16: u32,
    pub unk_17: u32,
    pub unk_18: u32,
    pub unk_19: u32,
    pub unk_20: u32,
    pub unk_21: u32,
    pub unk_22: u32,
    pub unk_23: u32,
    pub unk_24: u32,
    pub unk_25: u32,
    pub unk_26: u32,
    pub unk_27: u32,
    pub unk_28: u32,
}

impl OrderedData for HkConstraintData {
    open spec fn spec_layout(o: Endian) -> Seq<Cell> {
        seq![
            Cell { prim: Prim::U32, endian: o },
            Cell { prim: Prim::U32, endian: o },
            Cell { prim: Prim::U32, endian: o },
            Cell { prim: Prim::U32, endian: o },
            Cell { prim: Prim::U32, endian: o },
            Cell { prim: Prim::U32, endian: o },
            Cell { prim: Prim::U32, endian: o },
            Cell { prim: Prim::U32, endian: o },
            Cell { prim: Prim::U32, endian: o },
            Cell { prim: Prim::U32, endian: o },
            Cell { prim: Prim::U32, endian: o },
            Cell { prim: Prim::U32, endian: o },
            Cell { prim: Prim::U32, endian: o },
            Cell { prim: Prim::U32, endian: o },
            Cell { prim: Prim::U32, endian: o },
            Cell { prim: Prim::U32, endian: o },
            Cell { prim: Prim::U32, endian: o },
            Cell { prim: Prim::U32, endian: o },
            Cell { prim: Prim::U32, endian: o },
            Cell { prim: Prim::U32, endian: o },
            Cell { prim: Prim::U32, endian: o },
            Cell { prim: Prim::U32, endian: o },
            Cell { prim: Prim::U32, endian: o },
            Cell { prim: Prim::U32, endian: o },
            Cell { prim: Prim::U32, endian: o },
            Cell { prim: Prim::U32, endian: o },
            Cell { prim: Prim::U32, endian: o },
            Cell { prim: Prim::U32, endian: o },
            Cell { prim: Prim::U32, endian: o },
        ]
    }

    open spec fn spec_cells(&self, o: Endian) -> Seq<u64> {
        seq![
            self.kind as u64,
            self.unk_1 as u64,
            self.unk_2 as u64,
            self.unk_3 as u64,
            self.unk_4 as u64,
            self.unk_5 as u64,
            self.unk_6 as u64,
            self.unk_7 as u64,
            self.unk_8 as u64,
            self.unk_9 as u64,
            self.unk_10 as u64,
            self.unk_11 as u64,
            self.unk_12 as u64,
            self.unk_13 as u64,
            self.unk_14 as u64,
            self.unk_15 as u64,
            self.unk_16 as u64,
            self.unk_17 as u64,
            self.unk_18 as u64,
            self.unk_19 as u64,
            self.unk_20 as u64,
            self.unk_21 as u64,
            self.unk_22 as u64,
            self.unk_23 as u64,
            self.unk_24 as u64,
            self.unk_25 as u64,
            self.unk_26 as u64,
            self.unk_27 as u64,
            self.unk_28 as u64,
        ]
    }

    open spec fn spec_from_cells(c: Seq<u64>, o: Endian) -> Self {
        HkConstraintData {
            kind: c[0] as u32,
            unk_1: c[1] as u32,
            unk_2: c[2] as u32,
            unk_3: c[3] as u32,
            unk_4: c[4] as u32,
            unk_5: c[5] as u32,
            unk_6: c[6] as u32,
            unk_7: c[7] as u32,
            unk_8: c[8] as u32,
            unk_9: c[9] as u32,
            unk_10: c[10] as u32,
            unk_11: c[11] as u32,
            unk_12: c[12] as u32,
            unk_13: c[13] as u32,
            unk_14: c[14] as u32,
            unk_15: c[15] as u32,
            unk_16: c[16] as u32,
            unk_17: c[17] as u32,
            unk_18: c[18] as u32,
            unk_19: c[19] as u32,
            unk_20: c[20] as u32,
            unk_21: c[21] as u32,
            unk_22: c[22] as u32,
            unk_23: c[23] as u32,
            unk_24: c[24] as u32,
            unk_25: c[25] as u32,
            unk_26: c[26] as u32,
            unk_27: c[27] as u32,
            unk_28: c[28] as u32,
        }
    }

    open spec fn spec_values(&self) -> Seq<u64> {
        seq![
            self.kind as u64,
            self.unk_1 as u64,
            self.unk_2 as u64,
            self.unk_3 as u64,
            self.unk_4 as u64,
            self.unk_5 as u64,
            self.unk_6 as u64,
            self.unk_7 as u64,
            self.unk_8 as u64,
            self.unk_9 as u64,
            self.unk_10 as u64,
            self.unk_11 as u64,
            self.unk_12 as u64,
            self.unk_13 as u64,
            self.unk_14 as u64,
            self.unk_15 as u64,
            self.unk_16 as u64,
            self.unk_17 as u64,
            self.unk_18 as u64,
            self.unk_19 as u64,
            self.unk_20 as u64,
            self.unk_21 as u64,
            self.unk_22 as u64,
            self.unk_23 as u64,
            self.unk_24 as u64,
            self.unk_25 as u64,
            self.unk_26 as u64,
            self.unk_27 as u64,
            self.unk_28 as u64,
        ]
    }

    open spec fn spec_fits(&self, o: Endian) -> bool {
        true
    }

    fn layout(o: Endian) -> (r: Vec<Cell>) {
        vec![
            Cell { prim: Prim::U32, endian: o },
            Cell { prim: Prim::U32, endian: o },
            Cell { prim: Prim::U32, endian: o },
            Cell { prim: Prim::U32, endian: o },
            Cell { prim: Prim::U32, endian: o },
            Cell { prim: Prim::U32, endian: o },
            Cell { prim: Prim::U32, endian: o },
            Cell { prim: Prim::U32, endian: o },
            Cell { prim: Prim::U32, endian: o },
            Cell { prim: Prim::U32, endian: o },
            Cell { prim: Prim::U32, endian: o },
            Cell { prim: Prim::U32, endian: o },
            Cell { prim: Prim::U32, endian: o },
            Cell { prim: Prim::U32, endian: o },
            Cell { prim: Prim::U32, endian: o },
            Cell { prim: Prim::U32, endian: o },
            Cell { prim: Prim::U32, endian: o },
            Cell { prim: Prim::U32, endian: o },
            Cell { prim: Prim::U32, endian: o },
            Cell { prim: Prim::U32, endian: o },
            Cell { prim: Prim::U32, endian: o },
            Cell { prim: Prim::U32, endian: o },
            Cell { prim: Prim::U32, endian: o },
            Cell { prim: Prim::U32, endian: o },
            Cell { prim: Prim::U32, endian: o },
            Cell { prim: Prim::U32, endian: o },
            Cell { prim: Prim::U32, endian: o },
            Cell { prim: Prim::U32, endian: o },
            Cell { prim: Prim::U32, endian: o },
        ]
    }

    fn to_cells(&self, o: Endian) -> (r: Vec<u64>) {
        vec![
            self.kind as u64,
            self.unk_1 as u64,
            self.unk_2 as u64,
            self.unk_3 as u64,
            self.unk_4 as u64,
            self.unk_5 as u64,
            self.unk_6 as u64,
            self.unk_7 as u64,
            self.unk_8 as u64,
            self.unk_9 as u64,
            self.unk_10 as u64,
            self.unk_11 as u64,
            self.unk_12 as u64,
            self.unk_13 as u64,
            self.unk_14 as u64,
            self.unk_15 as u64,
            self.unk_16 as u64,
            self.unk_17 as u64,
            self.unk_18 as u64,
            self.unk_19 as u64,
            self.unk_20 as u64,
            self.unk_21 as u64,
            self.unk_22 as u64,
            self.unk_23 as u64,
            self.unk_24 as u64,
            self.unk_25 as u64,
            self.unk_26 as u64,
            self.unk_27 as u64,
            self.unk_28 as u64,
        ]
    }

    fn from_cells(c: &Vec<u64>, o: Endian) -> (r: Self) {
        HkConstraintData {
            kind: c[0] as u32,
            unk_1: c[1] as u32,
            unk_2: c[2] as u32,
            unk_3: c[3] as u32,
            unk_4: c[4] as u32,
            unk_5: c[5] as u32,
            unk_6: c[6] as u32,
            unk_7: c[7] as u32,
            unk_8: c[8] as u32,
            unk_9: c[9] as u32,
            unk_10: c[10] as u32,
            unk_11: c[11] as u32,
            unk_12: c[12] as u32,
            unk_13: c[13] as u32,
            unk_14: c[14] as u32,
            unk_15: c[15] as u32,
            unk_16: c[16] as u32,
            unk_17: c[17] as u32,
            unk_18: c[18] as u32,
            unk_19: c[19] as u32,
            unk_20: c[20] as u32,
            unk_21: c[21] as u32,
            unk_22: c[22] as u32,
            unk_23: c[23] as u32,
            unk_24: c[24] as u32,
            unk_25: c[25] as u32,
            unk_26: c[26] as u32,
            unk_27: c[27] as u32,
            unk_28: c[28] as u32,
        }
    }

    open spec fn spec_keys_resolved(&self, m: Map<u32, Seq<char>>) -> bool {
        true
    }

    fn resolved(&self, table: &StringTable) -> (r: Self) {
        *self
    }

    proof fn lemma_layout_small(o: Endian) {
    }

    proof fn lemma_cells(&self, o: Endian) {
    }
}

/// Index record of a vertex buffer; the two format words trade places between byte orders and the big-endian layout carries six more words.
#[derive(Debug, Clone, Copy, PartialEq)]
pub struct VBuffInfo {
    pub unk_0: u32,
    pub size: u32,
    pub unk_3: u32,
    pub offset: u32,
    pub fmt1: u32,
    pub fmt2: u32,
    pub unk_6: u32,
    pub unk_7: u32,
    pub unk_8: u32,
    pub unk_9: u32,
    pub unk_10: u32,
    pub unk_11: u32,
    pub unk_12: u32,
    pub unk_13: u32,
}

impl OrderedData for VBuffInfo {
    open spec fn spec_layout(o: Endian) -> Seq<Cell> {
        if o == Endian::Little {
            seq![
                Cell { prim: Prim::U32, endian: Endian::Little },
                Cell { prim: Prim::U32, endian: Endian::Little },
                Cell { prim: Prim::U32, endian: Endian::Little },
                Cell { prim: Prim::U32, endian: Endian::Little },
                Cell { prim: Prim::U32, endian: Endian::Little },
                Cell { prim: Prim::U32, endian: Endian::Little },
                Cell { prim: Prim::U32, endian: Endian::Little },
                Cell { prim: Prim::U32, endian: Endian::Little },
            ]
        } else {
            seq![
                Cell { prim: Prim::U32, endian: Endian::Big },
                Cell { prim: Prim::U32, endian: Endian::Big },
                Cell { prim: Prim::U32, endian: Endian::Big },
                Cell { prim: Prim::U32, endian: Endian::Big },
                Cell { prim: Prim::U32, endian: Endian::Big },
                Cell { prim: Prim::U32, endian: Endian::Big },
                Cell { prim: Prim::U32, endian: Endian::Big },
                Cell { prim: Prim::U32, endian: Endian::Big },
                Cell { prim: Prim::U32, endian: Endian::Big },
                Cell { prim: Prim::U32, endian: Endian::Big },
                Cell { prim: Prim::U32, endian: Endian::Big },
                Cell { prim: Prim::U32, endian: Endian::Big },
                Cell { prim: Prim::U32, endian: Endian::Big },
                Cell { prim: Prim::U32, endian: Endian::Big },
            ]
        }
    }

    open spec fn spec_cells(&self, o: Endian) -> Seq<u64> {
        if o == Endian::Little {
            seq![
                self.unk_0 as u64,
                self.size as u64,
                self.unk_3 as u64,
                self.offset as u64,
                self.fmt1 as u64,
                self.fmt2 as u64,
                self.unk_6 as u64,
                self.unk_7 as u64,
            ]
        } else {
            seq![
                self.unk_0 as u64,
                self.size as u64,
                self.unk_3 as u64,
                self.offset as u64,
                self.fmt2 as u64,
                self.fmt1 as u64,
                self.unk_6 as u64,
                self.unk_7 as u64,
                self.unk_8 as u64,
                self.unk_9 as u64,
                self.unk_10 as u64,
                self.unk_11 as u64,
                self.unk_12 as u64,
                self.unk_13 as u64,
            ]
        }
    }

    open spec fn spec_from_cells(c: Seq<u64>, o: Endian) -> Self {
        if o == Endian::Little {
            VBuffInfo {
                unk_0: c[0] as u32,
                size: c[1] as u32,
                unk_3: c[2] as u32,
                offset: c[3] as u32,
                fmt1: c[4] as u32,
                fmt2: c[5] as u32,
                unk_6: c[6] as u32,
                unk_7: c[7] as u32,
                unk_8: 0,
                unk_9: 0,
                unk_10: 0,
                unk_11: 0,
                unk_12: 0,
                unk_13: 0,
            }
        } else {
            VBuffInfo {
                unk_0: c[0] as u32,
                size: c[1] as u32,
                unk_3: c[2] as u32,
                offset: c[3] as u32,
                fmt1: c[5] as u32,
                fmt2: c[4] as u32,
                unk_6: c[6] as u32,
                unk_7: c[7] as u32,
                unk_8: c[8] as u32,
                unk_9: c[9] as u32,
                unk_10: c[10] as u32,
                unk_11: c[11] as u32,
                unk_12: c[12] as u32,
                unk_13: c[13] as u32,
            }
        }
    }

    open spec fn spec_values(&self) -> Seq<u64> {
        seq![
            self.unk_0 as u64,
            self.size as u64,
            self.unk_3 as u64,
            self.offset as u64,
            self.fmt1 as u64,
            self.fmt2 as u64,
            self.unk_6 as u64,
            self.unk_7 as u64,
            self.unk_8 as u64,
            self.unk_9 as u64,
            self.unk_10 as u64,
            self.unk_11 as u64,
            self.unk_12 as u64,
            self.unk_13 as u64,
        ]
    }

    open spec fn spec_fits(&self, o: Endian) -> bool {
        if o == Endian::Little {
            self.unk_8 == 0 && self.unk_9 == 0 && self.unk_10 == 0 && self.unk_11 == 0 && self.unk_12 == 0 && self.unk_13 == 0
        } else {
            true
        }
    }

    fn layout(o: Endian) -> (r: Vec<Cell>) {
        if o == Endian::Little {
            vec![
                Cell { prim: Prim::U32, endian: Endian::Little },
                Cell { prim: Prim::U32, endian: Endian::Little },
                Cell { prim: Prim::U32, endian: Endian::Little },
                Cell { prim: Prim::U32, endian: Endian::Little },
                Cell { prim: Prim::U32, endian: Endian::Little },
                Cell { prim: Prim::U32, endian: Endian::Little },
                Cell { prim: Prim::U32, endian: Endian::Little },
                Cell { prim: Prim::U32, endian: Endian::Little },
            ]
        } else {
            vec![
                Cell { prim: Prim::U32, endian: Endian::Big },
                Cell { prim: Prim::U32, endian: Endian::Big },
                Cell { prim: Prim::U32, endian: Endian::Big },
                Cell { prim: Prim::U32, endian: Endian::Big },
                Cell { prim: Prim::U32, endian: Endian::Big },
                Cell { prim: Prim::U32, endian: Endian::Big },
                Cell { prim: Prim::U32, endian: Endian::Big },
                Cell { prim: Prim::U32, endian: Endian::Big },
                Cell { prim: Prim::U32, endian: Endian::Big },
                Cell { prim: Prim::U32, endian: Endian::Big },
                Cell { prim: Prim::U32, endian: Endian::Big },
                Cell { prim: Prim::U32, endian: Endian::Big },
                Cell { prim: Prim::U32, endian: Endian::Big },
                Cell { prim: Prim::U32, endian: Endian::Big },
            ]
        }
    }

    fn to_cells(&self, o: Endian) -> (r: Vec<u64>) {
        if o == Endian::Little {
            vec![
                self.unk_0 as u64,
                self.size as u64,
                self.unk_3 as u64,
                self.offset as u64,
                self.fmt1 as u64,
                self.fmt2 as u64,
                self.unk_6 as u64,
                self.unk_7 as u64,
            ]
        } else {
            vec![
                self.unk_0 as u64,
                self.size as u64,
                self.unk_3 as u64,
                self.offset as u64,
                self.fmt2 as u64,
                self.fmt1 as u64,
                self.unk_6 as u64,
                self.unk_7 as u64,
                self.unk_8 as u64,
                self.unk_9 as u64,
                self.unk_10 as u64,
                self.unk_11 as u64,
                self.unk_12 as u64,
                self.unk_13 as u64,
            ]
        }
    }

    fn from_cells(c: &Vec<u64>, o: Endian) -> (r: Self) {
        if o == Endian::Little {
            VBuffInfo {
                unk_0: c[0] as u32,
                size: c[1] as u32,
                unk_3: c[2] as u32,
                offset: c[3] as u32,
                fmt1: c[4] as u32,
                fmt2: c[5] as u32,
                unk_6: c[6] as u32,
                unk_7: c[7] as u32,
                unk_8: 0,
                unk_9: 0,
                unk_10: 0,
                unk_11: 0,
                unk_12: 0,
                unk_13: 0,
            }
        } else {
            VBuffInfo {
                unk_0: c[0] as u32,
                size: c[1] as u32,
                unk_3: c[2] as u32,
                offset: c[3] as u32,
                fmt1: c[5] as u32,
                fmt2: c[4] as u32,
                unk_6: c[6] as u32,
                unk_7: c[7] as u32,
                unk_8: c[8] as u32,
                unk_9: c[9] as u32,
                unk_10: c[10] as u32,
                unk_11: c[11] as u32,
                unk_12: c[12] as u32,
                unk_13: c[13] as u32,
            }
        }
    }

    open spec fn spec_keys_resolved(&self, m: Map<u32, Seq<char>>) -> bool {
        true
    }

    fn resolved(&self, table: &StringTable) -> (r: Self) {
        *self
    }

    proof fn lemma_layout_small(o: Endian) {
    }

    proof fn lemma_cells(&self, o: Endian) {
    }
}

/// Index record of an index buffer; the big-endian layout carries seven more words.
#[derive(Debug, Clone, Copy, PartialEq)]
pub struct IBuffInfo {
    pub unk_0: u32,
    pub size: u32,
    pub format: u32,
    pub unk_3: u32,
    pub offset: u32,
    pub unk_5: u32,
    pub unk_6: u32,
    pub unk_7: u32,
    pub unk_8: u32,
    pub unk_9: u32,
    pub unk_10: u32,
    pub unk_11: u32,
    pub unk_12: u32,
}

impl OrderedData for IBuffInfo {
    open spec fn spec_layout(o: Endian) -> Seq<Cell> {
        if o == Endian::Little {
            seq![
                Cell { prim: Prim::U32, endian: Endian::Little },
                Cell { prim: Prim::U32, endian: Endian::Little },
                Cell { prim: Prim::U32, endian: Endian::Little },
                Cell { prim: Prim::U32, endian: Endian::Little },
                Cell { prim: Prim::U32, endian: Endian::Little },
                Cell { prim: Prim::U32, endian: Endian::Little },
            ]
        } else {
            seq![
                Cell { prim: Prim::U32, endian: Endian::Big },
                Cell { prim: Prim::U32, endian: Endian::Big },
                Cell { prim: Prim::U32, endian: Endian::Big },
                Cell { prim: Prim::U32, endian: Endian::Big },
                Cell { prim: Prim::U32, endian: Endian::Big },
                Cell { prim: Prim::U32, endian: Endian::Big },
                Cell { prim: Prim::U32, endian: Endian::Big },
                Cell { prim: Prim::U32, endian: Endian::Big },
                Cell { prim: Prim::U32, endian: Endian::Big },
                Cell { prim: Prim::U32, endian: Endian::Big },
                Cell { prim: Prim::U32, endian: Endian::Big },
                Cell { prim: Prim::U32, endian: Endian::Big },
                Cell { prim: Prim::U32, endian: Endian::Big },
            ]
        }
    }

    open spec fn spec_cells(&self, o: Endian) -> Seq<u64> {
        if o == Endian::Little {
            seq![
                self.unk_0 as u64,
                self.size as u64,
                self.format as u64,
                self.unk_3 as u64,
                self.offset as u64,
                self.unk_5 as u64,
            ]
        } else {
            seq![
                self.unk_0 as u64,
                self.size as u64,
                self.format as u64,
                self.unk_3 as u64,
                self.offset as u64,
                self.unk_5 as u64,
                self.unk_6 as u64,
                self.unk_7 as u64,
                self.unk_8 as u64,
                self.unk_9 as u64,
                self.unk_10 as u64,
                self.unk_11 as u64,
                self.unk_12 as u64,
            ]
        }
    }

    open spec fn spec_from_cells(c: Seq<u64>, o: Endian) -> Self {
        if o == Endian::Little {
            IBuffInfo {
                unk_0: c[0] as u32,
                size: c[1] as u32,
                format: c[2] as u32,
                unk_3: c[3] as u32,
                offset: c[4] as u32,
                unk_5: c[5] as u32,
                unk_6: 0,
                unk_7: 0,
                unk_8: 0,
                unk_9: 0,
                unk_10: 0,
                unk_11: 0,
                unk_12: 0,
            }
        } else {
            IBuffInfo {
                unk_0: c[0] as u32,
                size: c[1] as u32,
                format: c[2] as u32,
                unk_3: c[3] as u32,
                offset: c[4] as u32,
                unk_5: c[5] as u32,
                unk_6: c[6] as u32,
                unk_7: c[7] as u32,
                unk_8: c[8] as u32,
                unk_9: c[9] as u32,
                unk_10: c[10] as u32,
                unk_11: c[11] as u32,
                unk_12: c[12] as u32,
            }
        }
    }

    open spec fn spec_values(&self) -> Seq<u64> {
        seq![
            self.unk_0 as u64,
            self.size as u64,
            self.format as u64,
            self.unk_3 as u64,
            self.offset as u64,
            self.unk_5 as u64,
            self.unk_6 as u64,
            self.unk_7 as u64,
            self.unk_8 as u64,
            self.unk_9 as u64,
            self.unk_10 as u64,
            self.unk_11 as u64,
            self.unk_12 as u64,
        ]
    }

    open spec fn spec_fits(&self, o: Endian) -> bool {
        if o == Endian::Little {
            self.unk_6 == 0 && self.unk_7 == 0 && self.unk_8 == 0 && self.unk_9 == 0 && self.unk_10 == 0 && self.unk_11 == 0 && self.unk_12 == 0
        } else {
            true
        }
    }

    fn layout(o: Endian) -> (r: Vec<Cell>) {
        if o == Endian::Little {
            vec![
                Cell { prim: Prim::U32, endian: Endian::Little },
                Cell { prim: Prim::U32, endian: Endian::Little },
                Cell { prim: Prim::U32, endian: Endian::Little },
                Cell { prim: Prim::U32, endian: Endian::Little },
                Cell { prim: Prim::U32, endian: Endian::Little },
                Cell { prim: Prim::U32, endian: Endian::Little },
            ]
        } else {
            vec![
                Cell { prim: Prim::U32, endian: Endian::Big },
                Cell { prim: Prim::U32, endian: Endian::Big },
                Cell { prim: Prim::U32, endian: Endian::Big },
                Cell { prim: Prim::U32, endian: Endian::Big },
                Cell { prim: Prim::U32, endian: Endian::Big },
                Cell { prim: Prim::U32, endian: Endian::Big },
                Cell { prim: Prim::U32, endian: Endian::Big },
                Cell { prim: Prim::U32, endian: Endian::Big },
                Cell { prim: Prim::U32, endian: Endian::Big },
                Cell { prim: Prim::U32, endian: Endian::Big },
                Cell { prim: Prim::U32, endian: Endian::Big },
                Cell { prim: Prim::U32, endian: Endian::Big },
                Cell { prim: Prim::U32, endian: Endian::Big },
            ]
        }
    }

    fn to_cells(&self, o: Endian) -> (r: Vec<u64>) {
        if o == Endian::Little {
            vec![
                self.unk_0 as u64,
                self.size as u64,
                self.format as u64,
                self.unk_3 as u64,
                self.offset as u64,
                self.unk_5 as u64,
            ]
        } else {
            vec![
                self.unk_0 as u64,
                self.size as u64,
                self.format as u64,
                self.unk_3 as u64,
                self.offset as u64,
                self.unk_5 as u64,
                self.unk_6 as u64,
                self.unk_7 as u64,
                self.unk_8 as u64,
                self.unk_9 as u64,
                self.unk_10 as u64,
                self.unk_11 as u64,
                self.unk_12 as u64,
            ]
        }
    }

    fn from_cells(c: &Vec<u64>, o: Endian) -> (r: Self) {
        if o == Endian::Little {
            IBuffInfo {
                unk_0: c[0] as u32,
                size: c[1] as u32,
                format: c[2] as u32,
                unk_3: c[3] as u32,
                offset: c[4] as u32,
                unk_5: c[5] as u32,
                unk_6: 0,
                unk_7: 0,
                unk_8: 0,
                unk_9: 0,
                unk_10: 0,
                unk_11: 0,
                unk_12: 0,
            }
        } else {
            IBuffInfo {
                unk_0: c[0] as u32,
                size: c[1] as u32,
                format: c[2] as u32,
                unk_3: c[3] as u32,
                offset: c[4] as u32,
                unk_5: c[5] as u32,
                unk_6: c[6] as u32,
                unk_7: c[7] as u32,
                unk_8: c[8] as u32,
                unk_9: c[9] as u32,
                unk_10: c[10] as u32,
                unk_11: c[11] as u32,
                unk_12: c[12] as u32,
            }
        }
    }

    open spec fn spec_keys_resolved(&self, m: Map<u32, Seq<char>>) -> bool {
        true
    }

    fn resolved(&self, table: &StringTable) -> (r: Self) {
        *self
    }

    proof fn lemma_layout_small(o: Endian) {
    }

    proof fn lemma_cells(&self, o: Endian) {
    }
}

/// Index record of a texture.
#[derive(Debug, Clone, PartialEq)]
pub struct TextureInfo {
    pub key: Crc,
    pub gamemodemask: i32,
    pub asset_key: Crc,
    pub asset_type: u32,
    pub kind: u32,
    pub format: u32,
    pub unk_6: u32,
    pub unk_7: u32,
    pub unk_8: u32,
    pub unk_9: u32,
    pub unk_10: u32,
    pub unk_11: u32,
    pub width: u16,
    pub height: u16,
    pub depth: u16,
    pub levels: u16,
    pub unk_16_1: u8,
    pub unk_16_2: u8,
    pub unk_16_3: u8,
    pub unk_16_4: u8,
    pub unk_16_5: u8,
    pub unk_16_6: u8,
    pub unk_16_7: u8,
    pub unk_16_8: u8,
    pub unk_16_9: u8,
    pub unk_16_10: u8,
    pub unk_16_11: u8,
    pub unk_16_12: u8,
    pub unk_16_13: u8,
    pub unk_16_14: u8,
    pub unk_16_15: u8,
    pub unk_16_16: u8,
}

impl OrderedData for TextureInfo {
    open spec fn spec_layout(o: Endian) -> Seq<Cell> {
        seq![
            Cell { prim: Prim::U32, endian: o },
            Cell { prim: Prim::U32, endian: o },
            Cell { prim: Prim::U32, endian: o },
            Cell { prim: Prim::U32, endian: o },
            Cell { prim: Prim::U32, endian: o },
            Cell { prim: Prim::U32, endian: o },
            Cell { prim: Prim::U32, endian: o },
            Cell { prim: Prim::U32, endian: o },
            Cell { prim: Prim::U32, endian: o },
            Cell { prim: Prim::U32, endian: o },
            Cell { prim: Prim::U32, endian: o },
            Cell { prim: Prim::U32, endian: o },
            Cell { prim: Prim::U16, endian: o },
            Cell { prim: Prim::U16, endian: o },
            Cell { prim: Prim::U16, endian: o },
            Cell { prim: Prim::U16, endian: o },
            Cell { prim: Prim::U8, endian: o },
            Cell { prim: Prim::U8, endian: o },
            Cell { prim: Prim::U8, endian: o },
            Cell { prim: Prim::U8, endian: o },
            Cell { prim: Prim::U8, endian: o },
            Cell { prim: Prim::U8, endian: o },
            Cell { prim: Prim::U8, endian: o },
            Cell { prim: Prim::U8, endian: o },
            Cell { prim: Prim::U8, endian: o },
            Cell { prim: Prim::U8, endian: o },
            Cell { prim: Prim::U8, endian: o },
            Cell { prim: Prim::U8, endian: o },
            Cell { prim: Prim::U8, endian: o },
            Cell { prim: Prim::U8, endian: o },
            Cell { prim: Prim::U8, endian: o },
            Cell { prim: Prim::U8, endian: o },
        ]
    }

    open spec fn spec_cells(&self, o: Endian) -> Seq<u64> {
        seq![
            self.key.spec_key() as u64,
            (self.gamemodemask as u32) as u64,
            self.asset_key.spec_key() as u64,
            self.asset_type as u64,
            self.kind as u64,
            self.format as u64,
            self.unk_6 as u64,
            self.unk_7 as u64,
            self.unk_8 as u64,
            self.unk_9 as u64,
            self.unk_10 as u64,
            self.unk_11 as u64,
            self.width as u64,
            self.height as u64,
            self.depth as u64,
            self.levels as u64,
            self.unk_16_1 as u64,
            self.unk_16_2 as u64,
            self.unk_16_3 as u64,
            self.unk_16_4 as u64,
            self.unk_16_5 as u64,
            self.unk_16_6 as u64,
            self.unk_16_7 as u64,
            self.unk_16_8 as u64,
            self.unk_16_9 as u64,
            self.unk_16_10 as u64,
            self.unk_16_11 as u64,
            self.unk_16_12 as u64,
            self.unk_16_13 as u64,
            self.unk_16_14 as u64,
            self.unk_16_15 as u64,
            self.unk_16_16 as u64,
        ]
    }

    open spec fn spec_from_cells(c: Seq<u64>, o: Endian) -> Self {
        TextureInfo {
            key: Crc::Key(c[0] as u32),
            gamemodemask: (c[1] as u32) as i32,
            asset_key: Crc::Key(c[2] as u32),
            asset_type: c[3] as u32,
            kind: c[4] as u32,
            format: c[5] as u32,
            unk_6: c[6] as u32,
            unk_7: c[7] as u32,
            unk_8: c[8] as u32,
            unk_9: c[9] as u32,
            unk_10: c[10] as u32,
            unk_11: c[11] as u32,
            width: c[12] as u16,
            height: c[13] as u16,
            depth: c[14] as u16,
            levels: c[15] as u16,
            unk_16_1: c[16] as u8,
            unk_16_2: c[17] as u8,
            unk_16_3: c[18] as u8,
            unk_16_4: c[19] as u8,
            unk_16_5: c[20] as u8,
            unk_16_6: c[21] as u8,
            unk_16_7: c[22] as u8,
            unk_16_8: c[23] as u8,
            unk_16_9: c[24] as u8,
            unk_16_10: c[25] as u8,
            unk_16_11: c[26] as u8,
            unk_16_12: c[27] as u8,
            unk_16_13: c[28] as u8,
            unk_16_14: c[29] as u8,
            unk_16_15: c[30] as u8,
            unk_16_16: c[31] as u8,
        }
    }

    open spec fn spec_values(&self) -> Seq<u64> {
        seq![
            self.key.spec_key() as u64,
            (self.gamemodemask as u32) as u64,
            self.asset_key.spec_key() as u64,
            self.asset_type as u64,
            self.kind as u64,
            self.format as u64,
            self.unk_6 as u64,
            self.unk_7 as u64,
            self.unk_8 as u64,
            self.unk_9 as u64,
            self.unk_10 as u64,
            self.unk_11 as u64,
            self.width as u64,
            self.height as u64,
            self.depth as u64,
            self.levels as u64,
            self.unk_16_1 as u64,
            self.unk_16_2 as u64,
            self.unk_16_3 as u64,
            self.unk_16_4 as u64,
            self.unk_16_5 as u64,
            self.unk_16_6 as u64,
            self.unk_16_7 as u64,
            self.unk_16_8 as u64,
            self.unk_16_9 as u64,
            self.unk_16_10 as u64,
            self.unk_16_11 as u64,
            self.unk_16_12 as u64,
            self.unk_16_13 as u64,
            self.unk_16_14 as u64,
            self.unk_16_15 as u64,
            self.unk_16_16 as u64,
        ]
    }

    open spec fn spec_fits(&self, o: Endian) -> bool {
        true
    }

    fn layout(o: Endian) -> (r: Vec<Cell>) {
        vec![
            Cell { prim: Prim::U32, endian: o },
            Cell { prim: Prim::U32, endian: o },
            Cell { prim: Prim::U32, endian: o },
            Cell { prim: Prim::U32, endian: o },
            Cell { prim: Prim::U32, endian: o },
            Cell { prim: Prim::U32, endian: o },
            Cell { prim: Prim::U32, endian: o },
            Cell { prim: Prim::U32, endian: o },
            Cell { prim: Prim::U32, endian: o },
            Cell { prim: Prim::U32, endian: o },
            Cell { prim: Prim::U32, endian: o },
            Cell { prim: Prim::U32, endian: o },
            Cell { prim: Prim::U16, endian: o },
            Cell { prim: Prim::U16, endian: o },
            Cell { prim: Prim::U16, endian: o },
            Cell { prim: Prim::U16, endian: o },
            Cell { prim: Prim::U8, endian: o },
            Cell { prim: Prim::U8, endian: o },
            Cell { prim: Prim::U8, endian: o },
            Cell { prim: Prim::U8, endian: o },
            Cell { prim: Prim::U8, endian: o },
            Cell { prim: Prim::U8, endian: o },
            Cell { prim: Prim::U8, endian: o },
            Cell { prim: Prim::U8, endian: o },
            Cell { prim: Prim::U8, endian: o },
            Cell { prim: Prim::U8, endian: o },
            Cell { prim: Prim::U8, endian: o },
            Cell { prim: Prim::U8, endian: o },
            Cell { prim: Prim::U8, endian: o },
            Cell { prim: Prim::U8, endian: o },
            Cell { prim: Prim::U8, endian: o },
            Cell { prim: Prim::U8, endian: o },
        ]
    }

    fn to_cells(&self, o: Endian) -> (r: Vec<u64>) {
        vec![
            self.key.key() as u64,
            (self.gamemodemask as u32) as u64,
            self.asset_key.key() as u64,
            self.asset_type as u64,
            self.kind as u64,
            self.format as u64,
            self.unk_6 as u64,
            self.unk_7 as u64,
            self.unk_8 as u64,
            self.unk_9 as u64,
            self.unk_10 as u64,
            self.unk_11 as u64,
            self.width as u64,
            self.height as u64,
            self.depth as u64,
            self.levels as u64,
            self.unk_16_1 as u64,
            self.unk_16_2 as u64,
            self.unk_16_3 as u64,
            self.unk_16_4 as u64,
            self.unk_16_5 as u64,
            self.unk_16_6 as u64,
            self.unk_16_7 as u64,
            self.unk_16_8 as u64,
            self.unk_16_9 as u64,
            self.unk_16_10 as u64,
            self.unk_16_11 as u64,
            self.unk_16_12 as u64,
            self.unk_16_13 as u64,
            self.unk_16_14 as u64,
            self.unk_16_15 as u64,
            self.unk_16_16 as u64,
        ]
    }

    fn from_cells(c: &Vec<u64>, o: Endian) -> (r: Self) {
        TextureInfo {
            key: Crc::Key(c[0] as u32),
            gamemodemask: (c[1] as u32) as i32,
            asset_key: Crc::Key(c[2] as u32),
            asset_type: c[3] as u32,
            kind: c[4] as u32,
            format: c[5] as u32,
            unk_6: c[6] as u32,
            unk_7: c[7] as u32,
            unk_8: c[8] as u32,
            unk_9: c[9] as u32,
            unk_10: c[10] as u32,
            unk_11: c[11] as u32,
            width: c[12] as u16,
            height: c[13] as u16,
            depth: c[14] as u16,
            levels: c[15] as u16,
            unk_16_1: c[16] as u8,
            unk_16_2: c[17] as u8,
            unk_16_3: c[18] as u8,
            unk_16_4: c[19] as u8,
            unk_16_5: c[20] as u8,
            unk_16_6: c[21] as u8,
            unk_16_7: c[22] as u8,
            unk_16_8: c[23] as u8,
            unk_16_9: c[24] as u8,
            unk_16_10: c[25] as u8,
            unk_16_11: c[26] as u8,
            unk_16_12: c[27] as u8,
            unk_16_13: c[28] as u8,
            unk_16_14: c[29] as u8,
            unk_16_15: c[30] as u8,
            unk_16_16: c[31] as u8,
        }
    }

    open spec fn spec_keys_resolved(&self, m: Map<u32, Seq<char>>) -> bool {
        crc_resolved(self.key, m) && crc_resolved(self.asset_key, m)
    }

    fn resolved(&self, table: &StringTable) -> (r: Self) {
        TextureInfo {
            key: Crc::resolve(self.key.key(), table),
            gamemodemask: self.gamemodemask,
            asset_key: Crc::resolve(self.asset_key.key(), table),
            asset_type: self.asset_type,
            kind: self.kind,
            format: self.format,
            unk_6: self.unk_6,
            unk_7: self.unk_7,
            unk_8: self.unk_8,
            unk_9: self.unk_9,
            unk_10: self.unk_10,
            unk_11: self.unk_11,
            width: self.width,
            height: self.height,
            depth: self.depth,
            levels: self.levels,
            unk_16_1: self.unk_16_1,
            unk_16_2: self.unk_16_2,
            unk_16_3: self.unk_16_3,
            unk_16_4: self.unk_16_4,
            unk_16_5: self.unk_16_5,
            unk_16_6: self.unk_16_6,
            unk_16_7: self.unk_16_7,
            unk_16_8: self.unk_16_8,
            unk_16_9: self.unk_16_9,
            unk_16_10: self.unk_16_10,
            unk_16_11: self.unk_16_11,
            unk_16_12: self.unk_16_12,
            unk_16_13: self.unk_16_13,
            unk_16_14: self.unk_16_14,
            unk_16_15: self.unk_16_15,
            unk_16_16: self.unk_16_16,
        }
    }

    proof fn lemma_layout_small(o: Endian) {
    }

    proof fn lemma_cells(&self, o: Endian) {
        lemma_i32_bits(self.gamemodemask);
    }
}

/// Index record of an animation.
#[derive(Debug, Clone, PartialEq)]
pub struct AnimationInfo {
    pub key: Crc,
    pub gamemodemask: i32,
    pub offset: u32,
    pub size: u32,
    pub kind: u32,
    pub unk_5: u32,
    pub keys_num: u32,
    pub keys2_num: u32,
    pub unk_8: u32,
    pub vala: u32,
    pub unk_10: u32,
    pub unk_11: u32,
    pub data_offset: u32,
    pub unk_13: u32,
    pub unk_14: u32,
    pub unk_15: u32,
    pub block_starts_offset: u32,
    pub block_starts_num: u32,
    pub block_starts2_offset: u32,
    pub block_starts2_num: u32,
    pub obj_c3_offset: u32,
    pub obj_c3_num: u32,
    pub obj_c4_offset: u32,
    pub obj_c4_num: u32,
    pub block_offset: u32,
    pub block_size: u32,
    pub obj3_num: u32,
    pub obj3_offset: u32,
    pub unk_28: u32,
    pub unk_29: u32,
    pub obj1_num: u32,
    pub keys_offset: u32,
    pub unk_32: u32,
    pub obj1_offset: u32,
    pub obj2_offset: u32,
    pub obj2_num: u32,
    pub obj5_offset: u32,
}

impl OrderedData for AnimationInfo {
    open spec fn spec_layout(o: Endian) -> Seq<Cell> {
        seq![
            Cell { prim: Prim::U32, endian: o },
            Cell { prim: Prim::U32, endian: o },
            Cell { prim: Prim::U32, endian: o },
            Cell { prim: Prim::U32, endian: o },
            Cell { prim: Prim::U32, endian: o },
            Cell { prim: Prim::U32, endian: o },
            Cell { prim: Prim::U32, endian: o },
            Cell { prim: Prim::U32, endian: o },
            Cell { prim: Prim::U32, endian: o },
            Cell { prim: Prim::U32, endian: o },
            Cell { prim: Prim::U32, endian: o },
            Cell { prim: Prim::U32, endian: o },
            Cell { prim: Prim::U32, endian: o },
            Cell { prim: Prim::U32, endian: o },
            Cell { prim: Prim::U32, endian: o },
            Cell { prim: Prim::U32, endian: o },
            Cell { prim: Prim::U32, endian: o },
            Cell { prim: Prim::U32, endian: o },
            Cell { prim: Prim::U32, endian: o },
            Cell { prim: Prim::U32, endian: o },
            Cell { prim: Prim::U32, endian: o },
            Cell { prim: Prim::U32, endian: o },
            Cell { prim: Prim::U32, endian: o },
            Cell { prim: Prim::U32, endian: o },
            Cell { prim: Prim::U32, endian: o },
            Cell { prim: Prim::U32, endian: o },
            Cell { prim: Prim::U32, endian: o },
            Cell { prim: Prim::U32, endian: o },
            Cell { prim: Prim::U32, endian: o },
            Cell { prim: Prim::U32, endian: o },
            Cell { prim: Prim::U32, endian: o },
            Cell { prim: Prim::U32, endian: o },
            Cell { prim: Prim::U32, endian: o },
            Cell { prim: Prim::U32, endian: o },
            Cell { prim: Prim::U32, endian: o },
            Cell { prim: Prim::U32, endian: o },
            Cell { prim: Prim::U32, endian: o },
        ]
    }

    open spec fn spec_cells(&self, o: Endian) -> Seq<u64> {
        seq![
            self.key.spec_key() as u64,
            (self.gamemodemask as u32) as u64,
            self.offset as u64,
            self.size as u64,
            self.kind as u64,
            self.unk_5 as u64,
            self.keys_num as u64,
            self.keys2_num as u64,
            self.unk_8 as u64,
            self.vala as u64,
            self.unk_10 as u64,
            self.unk_11 as u64,
            self.data_offset as u64,
            self.unk_13 as u64,
            self.unk_14 as u64,
            self.unk_15 as u64,
            self.block_starts_offset as u64,
            self.block_starts_num as u64,
            self.block_starts2_offset as u64,
            self.block_starts2_num as u64,
            self.obj_c3_offset as u64,
            self.obj_c3_num as u64,
            self.obj_c4_offset as u64,
            self.obj_c4_num as u64,
            self.block_offset as u64,
            self.block_size as u64,
            self.obj3_num as u64,
            self.obj3_offset as u64,
            self.unk_28 as u64,
            self.unk_29 as u64,
            self.obj1_num as u64,
            self.keys_offset as u64,
            self.unk_32 as u64,
            self.obj1_offset as u64,
            self.obj2_offset as u64,
            self.obj2_num as u64,
            self.obj5_offset as u64,
        ]
    }

    open spec fn spec_from_cells(c: Seq<u64>, o: Endian) -> Self {
        AnimationInfo {
            key: Crc::Key(c[0] as u32),
            gamemodemask: (c[1] as u32) as i32,
            offset: c[2] as u32,
            size: c[3] as u32,
            kind: c[4] as u32,
            unk_5: c[5] as u32,
            keys_num: c[6] as u32,
            keys2_num: c[7] as u32,
            unk_8: c[8] as u32,
            vala: c[9] as u32,
            unk_10: c[10] as u32,
            unk_11: c[11] as u32,
            data_offset: c[12] as u32,
            unk_13: c[13] as u32,
            unk_14: c[14] as u32,
            unk_15: c[15] as u32,
            block_starts_offset: c[16] as u32,
            block_starts_num: c[17] as u32,
            block_starts2_offset: c[18] as u32,
            block_starts2_num: c[19] as u32,
            obj_c3_offset: c[20] as u32,
            obj_c3_num: c[21] as u32,
            obj_c4_offset: c[22] as u32,
            obj_c4_num: c[23] as u32,
            block_offset: c[24] as u32,
            block_size: c[25] as u32,
            obj3_num: c[26] as u32,
            obj3_offset: c[27] as u32,
            unk_28: c[28] as u32,
            unk_29: c[29] as u32,
            obj1_num: c[30] as u32,
            keys_offset: c[31] as u32,
            unk_32: c[32] as u32,
            obj1_offset: c[33] as u32,
            obj2_offset: c[34] as u32,
            obj2_num: c[35] as u32,
            obj5_offset: c[36] as u32,
        }
    }

    open spec fn spec_values(&self) -> Seq<u64> {
        seq![
            self.key.spec_key() as u64,
            (self.gamemodemask as u32) as u64,
            self.offset as u64,
            self.size as u64,
            self.kind as u64,
            self.unk_5 as u64,
            self.keys_num as u64,
            self.keys2_num as u64,
            self.unk_8 as u64,
            self.vala as u64,
            self.unk_10 as u64,
            self.unk_11 as u64,
            self.data_offset as u64,
            self.unk_13 as u64,
            self.unk_14 as u64,
            self.unk_15 as u64,
            self.block_starts_offset as u64,
            self.block_starts_num as u64,
            self.block_starts2_offset as u64,
            self.block_starts2_num as u64,
            self.obj_c3_offset as u64,
            self.obj_c3_num as u64,
            self.obj_c4_offset as u64,
            self.obj_c4_num as u64,
            self.block_offset as u64,
            self.block_size as u64,
            self.obj3_num as u64,
            self.obj3_offset as u64,
            self.unk_28 as u64,
            self.unk_29 as u64,
            self.obj1_num as u64,
            self.keys_offset as u64,
            self.unk_32 as u64,
            self.obj1_offset as u64,
            self.obj2_offset as u64,
            self.obj2_num as u64,
            self.obj5_offset as u64,
        ]
    }

    open spec fn spec_fits(&self, o: Endian) -> bool {
        true
    }

    fn layout(o: Endian) -> (r: Vec<Cell>) {
        vec![
            Cell { prim: Prim::U32, endian: o },
            Cell { prim: Prim::U32, endian: o },
            Cell { prim: Prim::U32, endian: o },
            Cell { prim: Prim::U32, endian: o },
            Cell { prim: Prim::U32, endian: o },
            Cell { prim: Prim::U32, endian: o },
            Cell { prim: Prim::U32, endian: o },
            Cell { prim: Prim::U32, endian: o },
            Cell { prim: Prim::U32, endian: o },
            Cell { prim: Prim::U32, endian: o },
            Cell { prim: Prim::U32, endian: o },
            Cell { prim: Prim::U32, endian: o },
            Cell { prim: Prim::U32, endian: o },
            Cell { prim: Prim::U32, endian: o },
            Cell { prim: Prim::U32, endian: o },
            Cell { prim: Prim::U32, endian: o },
            Cell { prim: Prim::U32, endian: o },
            Cell { prim: Prim::U32, endian: o },
            Cell { prim: Prim::U32, endian: o },
            Cell { prim: Prim::U32, endian: o },
            Cell { prim: Prim::U32, endian: o },
            Cell { prim: Prim::U32, endian: o },
            Cell { prim: Prim::U32, endian: o },
            Cell { prim: Prim::U32, endian: o },
            Cell { prim: Prim::U32, endian: o },
            Cell { prim: Prim::U32, endian: o },
            Cell { prim: Prim::U32, endian: o },
            Cell { prim: Prim::U32, endian: o },
            Cell { prim: Prim::U32, endian: o },
            Cell { prim: Prim::U32, endian: o },
            Cell { prim: Prim::U32, endian: o },
            Cell { prim: Prim::U32, endian: o },
            Cell { prim: Prim::U32, endian: o },
            Cell { prim: Prim::U32, endian: o },
            Cell { prim: Prim::U32, endian: o },
            Cell { prim: Prim::U32, endian: o },
            Cell { prim: Prim::U32, endian: o },
        ]
    }

    fn to_cells(&self, o: Endian) -> (r: Vec<u64>) {
        vec![
            self.key.key() as u64,
            (self.gamemodemask as u32) as u64,
            self.offset as u64,
            self.size as u64,
            self.kind as u64,
            self.unk_5 as u64,
            self.keys_num as u64,
            self.keys2_num as u64,
            self.unk_8 as u64,
            self.vala as u64,
            self.unk_10 as u64,
            self.unk_11 as u64,
            self.data_offset as u64,
            self.unk_13 as u64,
            self.unk_14 as u64,
            self.unk_15 as u64,
            self.block_starts_offset as u64,
            self.block_starts_num as u64,
            self.block_starts2_offset as u64,
            self.block_starts2_num as u64,
            self.obj_c3_offset as u64,
            self.obj_c3_num as u64,
            self.obj_c4_offset as u64,
            self.obj_c4_num as u64,
            self.block_offset as u64,
            self.block_size as u64,
            self.obj3_num as u64,
            self.obj3_offset as u64,
            self.unk_28 as u64,
            self.unk_29 as u64,
            self.obj1_num as u64,
            self.keys_offset as u64,
            self.unk_32 as u64,
            self.obj1_offset as u64,
            self.obj2_offset as u64,
            self.obj2_num as u64,
            self.obj5_offset as u64,
        ]
    }

    fn from_cells(c: &Vec<u64>, o: Endian) -> (r: Self) {
        AnimationInfo {
            key: Crc::Key(c[0] as u32),
            gamemodemask: (c[1] as u32) as i32,
            offset: c[2] as u32,
            size: c[3] as u32,
            kind: c[4] as u32,
            unk_5: c[5] as u32,
            keys_num: c[6] as u32,
            keys2_num: c[7] as u32,
            unk_8: c[8] as u32,
            vala: c[9] as u32,
            unk_10: c[10] as u32,
            unk_11: c[11] as u32,
            data_offset: c[12] as u32,
            unk_13: c[13] as u32,
            unk_14: c[14] as u32,
            unk_15: c[15] as u32,
            block_starts_offset: c[16] as u32,
            block_starts_num: c[17] as u32,
            block_starts2_offset: c[18] as u32,
            block_starts2_num: c[19] as u32,
            obj_c3_offset: c[20] as u32,
            obj_c3_num: c[21] as u32,
            obj_c4_offset: c[22] as u32,
            obj_c4_num: c[23] as u32,
            block_offset: c[24] as u32,
            block_size: c[25] as u32,
            obj3_num: c[26] as u32,
            obj3_offset: c[27] as u32,
            unk_28: c[28] as u32,
            unk_29: c[29] as u32,
            obj1_num: c[30] as u32,
            keys_offset: c[31] as u32,
            unk_32: c[32] as u32,
            obj1_offset: c[33] as u32,
            obj2_offset: c[34] as u32,
            obj2_num: c[35] as u32,
            obj5_offset: c[36] as u32,
        }
    }

    open spec fn spec_keys_resolved(&self, m: Map<u32, Seq<char>>) -> bool {
        crc_resolved(self.key, m)
    }

    fn resolved(&self, table: &StringTable) -> (r: Self) {
        AnimationInfo {
            key: Crc::resolve(self.key.key(), table),
            gamemodemask: self.gamemodemask,
            offset: self.offset,
            size: self.size,
            kind: self.kind,
            unk_5: self.unk_5,
            keys_num: self.keys_num,
            keys2_num: self.keys2_num,
            unk_8: self.unk_8,
            vala: self.vala,
            unk_10: self.unk_10,
            unk_11: self.unk_11,
            data_offset: self.data_offset,
            unk_13: self.unk_13,
            unk_14: self.unk_14,
            unk_15: self.unk_15,
            block_starts_offset: self.block_starts_offset,
            block_starts_num: self.block_starts_num,
            block_starts2_offset: self.block_starts2_offset,
            block_starts2_num: self.block_starts2_num,
            obj_c3_offset: self.obj_c3_offset,
            obj_c3_num: self.obj_c3_num,
            obj_c4_offset: self.obj_c4_offset,
            obj_c4_num: self.obj_c4_num,
            block_offset: self.block_offset,
            block_size: self.block_size,
            obj3_num: self.obj3_num,
            obj3_offset: self.obj3_offset,
            unk_28: self.unk_28,
            unk_29: self.unk_29,
            obj1_num: self.obj1_num,
            keys_offset: self.keys_offset,
            unk_32: self.unk_32,
            obj1_offset: self.obj1_offset,
            obj2_offset: self.obj2_offset,
            obj2_num: self.obj2_num,
            obj5_offset: self.obj5_offset,
        }
    }

    proof fn lemma_layout_small(o: Endian) {
    }

    proof fn lemma_cells(&self, o: Endian) {
        lemma_i32_bits(self.gamemodemask);
    }
}

/// Index record of an effect.
#[derive(Debug, Clone, PartialEq)]
pub struct EffectInfo {
    pub key: Crc,
    pub gamemodemask: i32,
    pub offset: u32,
    pub size: u32,
}

impl OrderedData for EffectInfo {
    open spec fn spec_layout(o: Endian) -> Seq<Cell> {
        seq![
            Cell { prim: Prim::U32, endian: o },
            Cell { prim: Prim::U32, endian: o },
            Cell { prim: Prim::U32, endian: o },
            Cell { prim: Prim::U32, endian: o },
        ]
    }

    open spec fn spec_cells(&self, o: Endian) -> Seq<u64> {
        seq![
            self.key.spec_key() as u64,
            (self.gamemodemask as u32) as u64,
            self.offset as u64,
            self.size as u64,
        ]
    }

    open spec fn spec_from_cells(c: Seq<u64>, o: Endian) -> Self {
        EffectInfo {
            key: Crc::Key(c[0] as u32),
            gamemodemask: (c[1] as u32) as i32,
            offset: c[2] as u32,
            size: c[3] as u32,
        }
    }

    open spec fn spec_values(&self) -> Seq<u64> {
        seq![
            self.key.spec_key() as u64,
            (self.gamemodemask as u32) as u64,
            self.offset as u64,
            self.size as u64,
        ]
    }

    open spec fn spec_fits(&self, o: Endian) -> bool {
        true
    }

    fn layout(o: Endian) -> (r: Vec<Cell>) {
        vec![
            Cell { prim: Prim::U32, endian: o },
            Cell { prim: Prim::U32, endian: o },
            Cell { prim: Prim::U32, endian: o },
            Cell { prim: Prim::U32, endian: o },
        ]
    }

    fn to_cells(&self, o: Endian) -> (r: Vec<u64>) {
        vec![
            self.key.key() as u64,
            (self.gamemodemask as u32) as u64,
            self.offset as u64,
            self.size as u64,
        ]
    }

    fn from_cells(c: &Vec<u64>, o: Endian) -> (r: Self) {
        EffectInfo {
            key: Crc::Key(c[0] as u32),
            gamemodemask: (c[1] as u32) as i32,
            offset: c[2] as u32,
            size: c[3] as u32,
        }
    }

    open spec fn spec_keys_resolved(&self, m: Map<u32, Seq<char>>) -> bool {
        crc_resolved(self.key, m)
    }

    fn resolved(&self, table: &StringTable) -> (r: Self) {
        EffectInfo {
            key: Crc::resolve(self.key.key(), table),
            gamemodemask: self.gamemodemask,
            offset: self.offset,
            size: self.size,
        }
    }

    proof fn lemma_layout_small(o: Endian) {
    }

    proof fn lemma_cells(&self, o: Endian) {
        lemma_i32_bits(self.gamemodemask);
    }
}

/// Index record of a particle field.
#[derive(Debug, Clone, PartialEq)]
pub struct PFieldInfo {
    pub key1: Crc,
    pub key2: Crc,
    pub width: u32,
    pub height: u32,
    pub offset: u32,
}

impl OrderedData for PFieldInfo {
    open spec fn spec_layout(o: Endian) -> Seq<Cell> {
        seq![
            Cell { prim: Prim::U32, endian: o },
            Cell { prim: Prim::U32, endian: o },
            Cell { prim: Prim::U32, endian: o },
            Cell { prim: Prim::U32, endian: o },
            Cell { prim: Prim::U32, endian: o },
        ]
    }

    open spec fn spec_cells(&self, o: Endian) -> Seq<u64> {
        seq![
            self.key1.spec_key() as u64,
            self.key2.spec_key() as u64,
            self.width as u64,
            self.height as u64,
            self.offset as u64,
        ]
    }

    open spec fn spec_from_cells(c: Seq<u64>, o: Endian) -> Self {
        PFieldInfo {
            key1: Crc::Key(c[0] as u32),
            key2: Crc::Key(c[1] as u32),
            width: c[2] as u32,
            height: c[3] as u32,
            offset: c[4] as u32,
        }
    }

    open spec fn spec_values(&self) -> Seq<u64> {
        seq![
            self.key1.spec_key() as u64,
            self.key2.spec_key() as u64,
            self.width as u64,
            self.height as u64,
            self.offset as u64,
        ]
    }

    open spec fn spec_fits(&self, o: Endian) -> bool {
        true
    }

    fn layout(o: Endian) -> (r: Vec<Cell>) {
        vec![
            Cell { prim: Prim::U32, endian: o },
            Cell { prim: Prim::U32, endian: o },
            Cell { prim: Prim::U32, endian: o },
            Cell { prim: Prim::U32, endian: o },
            Cell { prim: Prim::U32, endian: o },
        ]
    }

    fn to_cells(&self, o: Endian) -> (r: Vec<u64>) {
        vec![
            self.key1.key() as u64,
            self.key2.key() as u64,
            self.width as u64,
            self.height as u64,
            self.offset as u64,
        ]
    }

    fn from_cells(c: &Vec<u64>, o: Endian) -> (r: Self) {
        PFieldInfo {
            key1: Crc::Key(c[0] as u32),
            key2: Crc::Key(c[1] as u32),
            width: c[2] as u32,
            height: c[3] as u32,
            offset: c[4] as u32,
        }
    }

    open spec fn spec_keys_resolved(&self, m: Map<u32, Seq<char>>) -> bool {
        crc_resolved(self.key1, m) && crc_resolved(self.key2, m)
    }

    fn resolved(&self, table: &StringTable) -> (r: Self) {
        PFieldInfo {
            key1: Crc::resolve(self.key1.key(), table),
            key2: Crc::resolve(self.key2.key(), table),
            width: self.width,
            height: self.height,
            offset: self.offset,
        }
    }

    proof fn lemma_layout_small(o: Endian) {
    }

    proof fn lemma_cells(&self, o: Endian) {
    }
}

/// Index record of a graphics block.
#[derive(Debug, Clone, PartialEq)]
pub struct GFXBlockInfo {
    pub key: Crc,
    pub offset: u32,
    pub size: u32,
}

impl OrderedData for GFXBlockInfo {
    open spec fn spec_layout(o: Endian) -> Seq<Cell> {
        seq![
            Cell { prim: Prim::U32, endian: o },
            Cell { prim: Prim::U32, endian: o },
            Cell { prim: Prim::U32, endian: o },
        ]
    }

    open spec fn spec_cells(&self, o: Endian) -> Seq<u64> {
        seq![
            self.key.spec_key() as u64,
            self.offset as u64,
            self.size as u64,
        ]
    }

    open spec fn spec_from_cells(c: Seq<u64>, o: Endian) -> Self {
        GFXBlockInfo {
            key: Crc::Key(c[0] as u32),
            offset: c[1] as u32,
            size: c[2] as u32,
        }
    }

    open spec fn spec_values(&self) -> Seq<u64> {
        seq![
            self.key.spec_key() as u64,
            self.offset as u64,
            self.size as u64,
        ]
    }

    open spec fn spec_fits(&self, o: Endian) -> bool {
        true
    }

    fn layout(o: Endian) -> (r: Vec<Cell>) {
        vec![
            Cell { prim: Prim::U32, endian: o },
            Cell { prim: Prim::U32, endian: o },
            Cell { prim: Prim::U32, endian: o },
        ]
    }

    fn to_cells(&self, o: Endian) -> (r: Vec<u64>) {
        vec![
            self.key.key() as u64,
            self.offset as u64,
            self.size as u64,
        ]
    }

    fn from_cells(c: &Vec<u64>, o: Endian) -> (r: Self) {
        GFXBlockInfo {
            key: Crc::Key(c[0] as u32),
            offset: c[1] as u32,
            size: c[2] as u32,
        }
    }

    open spec fn spec_keys_resolved(&self, m: Map<u32, Seq<char>>) -> bool {
        crc_resolved(self.key, m)
    }

    fn resolved(&self, table: &StringTable) -> (r: Self) {
        GFXBlockInfo {
            key: Crc::resolve(self.key.key(), table),
            offset: self.offset,
            size: self.size,
        }
    }

    proof fn lemma_layout_small(o: Endian) {
    }

    proof fn lemma_cells(&self, o: Endian) {
    }
}

/// Index record of a compressed animation block.
#[derive(Debug, Clone, PartialEq)]
pub struct AnimationBlockInfo {
    pub key: Crc,
    pub unk_1: u32,
    pub key_name: u32,
    pub offset: u32,
    pub size: u32,
    pub size_comp: u32,
    pub unk_6: u32,
    pub unk_7: u32,
    pub unk_8: u32,
}

impl OrderedData for AnimationBlockInfo {
    open spec fn spec_layout(o: Endian) -> Seq<Cell> {
        seq![
            Cell { prim: Prim::U32, endian: o },
            Cell { prim: Prim::U32, endian: o },
            Cell { prim: Prim::U32, endian: o },
            Cell { prim: Prim::U32, endian: o },
            Cell { prim: Prim::U32, endian: o },
            Cell { prim: Prim::U32, endian: o },
            Cell { prim: Prim::U32, endian: o },
            Cell { prim: Prim::U32, endian: o },
            Cell { prim: Prim::U32, endian: o },
        ]
    }

    open spec fn spec_cells(&self, o: Endian) -> Seq<u64> {
        seq![
            self.key.spec_key() as u64,
            self.unk_1 as u64,
            self.key_name as u64,
            self.offset as u64,
            self.size as u64,
            self.size_comp as u64,
            self.unk_6 as u64,
            self.unk_7 as u64,
            self.unk_8 as u64,
        ]
    }

    open spec fn spec_from_cells(c: Seq<u64>, o: Endian) -> Self {
        AnimationBlockInfo {
            key: Crc::Key(c[0] as u32),
            unk_1: c[1] as u32,
            key_name: c[2] as u32,
            offset: c[3] as u32,
            size: c[4] as u32,
            size_comp: c[5] as u32,
            unk_6: c[6] as u32,
            unk_7: c[7] as u32,
            unk_8: c[8] as u32,
        }
    }

    open spec fn spec_values(&self) -> Seq<u64> {
        seq![
            self.key.spec_key() as u64,
            self.unk_1 as u64,
            self.key_name as u64,
            self.offset as u64,
            self.size as u64,
            self.size_comp as u64,
            self.unk_6 as u64,
            self.unk_7 as u64,
            self.unk_8 as u64,
        ]
    }

    open spec fn spec_fits(&self, o: Endian) -> bool {
        true
    }

    fn layout(o: Endian) -> (r: Vec<Cell>) {
        vec![
            Cell { prim: Prim::U32, endian: o },
            Cell { prim: Prim::U32, endian: o },
            Cell { prim: Prim::U32, endian: o },
            Cell { prim: Prim::U32, endian: o },
            Cell { prim: Prim::U32, endian: o },
            Cell { prim: Prim::U32, endian: o },
            Cell { prim: Prim::U32, endian: o },
            Cell { prim: Prim::U32, endian: o },
            Cell { prim: Prim::U32, endian: o },
        ]
    }

    fn to_cells(&self, o: Endian) -> (r: Vec<u64>) {
        vec![
            self.key.key() as u64,
            self.unk_1 as u64,
            self.key_name as u64,
            self.offset as u64,
            self.size as u64,
            self.size_comp as u64,
            self.unk_6 as u64,
            self.unk_7 as u64,
            self.unk_8 as u64,
        ]
    }

    fn from_cells(c: &Vec<u64>, o: Endian) -> (r: Self) {
        AnimationBlockInfo {
            key: Crc::Key(c[0] as u32),
            unk_1: c[1] as u32,
            key_name: c[2] as u32,
            offset: c[3] as u32,
            size: c[4] as u32,
            size_comp: c[5] as u32,
            unk_6: c[6] as u32,
            unk_7: c[7] as u32,
            unk_8: c[8] as u32,
        }
    }

    open spec fn spec_keys_resolved(&self, m: Map<u32, Seq<char>>) -> bool {
        crc_resolved(self.key, m)
    }

    fn resolved(&self, table: &StringTable) -> (r: Self) {
        AnimationBlockInfo {
            key: Crc::resolve(self.key.key(), table),
            unk_1: self.unk_1,
            key_name: self.key_name,
            offset: self.offset,
            size: self.size,
            size_comp: self.size_comp,
            unk_6: self.unk_6,
            unk_7: self.unk_7,
            unk_8: self.unk_8,
        }
    }

    proof fn lemma_layout_small(o: Endian) {
    }

    proof fn lemma_cells(&self, o: Endian) {
    }
}

/// Index record of a foliage set.
#[derive(Debug, Clone, PartialEq)]
pub struct FoliageInfo {
    pub key: Crc,
    pub unk_1: u32,
    pub s1a: i32,
    pub s2a: i32,
    pub s1b: i32,
    pub s2b: i32,
    pub unk_6: u32,
    pub offset: u32,
    pub key_mesh: Crc,
    pub key_mesh_lod1: Crc,
    pub key_mesh_lod2: Crc,
    pub unk_11: u32,
    pub unk_12: u32,
    pub unk_13: u32,
    pub unk_14: u32,
    pub unk_15: u32,
    pub unk_16: u32,
    pub unk_17: u32,
    pub unk_18: u32,
    pub unk_19: u32,
}

impl OrderedData for FoliageInfo {
    open spec fn spec_layout(o: Endian) -> Seq<Cell> {
        seq![
            Cell { prim: Prim::U32, endian: o },
            Cell { prim: Prim::U32, endian: o },
            Cell { prim: Prim::U32, endian: o },
            Cell { prim: Prim::U32, endian: o },
            Cell { prim: Prim::U32, endian: o },
            Cell { prim: Prim::U32, endian: o },
            Cell { prim: Prim::U32, endian: o },
            Cell { prim: Prim::U32, endian: o },
            Cell { prim: Prim::U32, endian: o },
            Cell { prim: Prim::U32, endian: o },
            Cell { prim: Prim::U32, endian: o },
            Cell { prim: Prim::U32, endian: o },
            Cell { prim: Prim::U32, endian: o },
            Cell { prim: Prim::U32, endian: o },
            Cell { prim: Prim::U32, endian: o },
            Cell { prim: Prim::U32, endian: o },
            Cell { prim: Prim::U32, endian: o },
            Cell { prim: Prim::U32, endian: o },
            Cell { prim: Prim::U32, endian: o },
            Cell { prim: Prim::U32, endian: o },
        ]
    }

    open spec fn spec_cells(&self, o: Endian) -> Seq<u64> {
        seq![
            self.key.spec_key() as u64,
            self.unk_1 as u64,
            (self.s1a as u32) as u64,
            (self.s2a as u32) as u64,
            (self.s1b as u32) as u64,
            (self.s2b as u32) as u64,
            self.unk_6 as u64,
            self.offset as u64,
            self.key_mesh.spec_key() as u64,
            self.key_mesh_lod1.spec_key() as u64,
            self.key_mesh_lod2.spec_key() as u64,
            self.unk_11 as u64,
            self.unk_12 as u64,
            self.unk_13 as u64,
            self.unk_14 as u64,
            self.unk_15 as u64,
            self.unk_16 as u64,
            self.unk_17 as u64,
            self.unk_18 as u64,
            self.unk_19 as u64,
        ]
    }

    open spec fn spec_from_cells(c: Seq<u64>, o: Endian) -> Self {
        FoliageInfo {
            key: Crc::Key(c[0] as u32),
            unk_1: c[1] as u32,
            s1a: (c[2] as u32) as i32,
            s2a: (c[3] as u32) as i32,
            s1b: (c[4] as u32) as i32,
            s2b: (c[5] as u32) as i32,
            unk_6: c[6] as u32,
            offset: c[7] as u32,
            key_mesh: Crc::Key(c[8] as u32),
            key_mesh_lod1: Crc::Key(c[9] as u32),
            key_mesh_lod2: Crc::Key(c[10] as u32),
            unk_11: c[11] as u32,
            unk_12: c[12] as u32,
            unk_13: c[13] as u32,
            unk_14: c[14] as u32,
            unk_15: c[15] as u32,
            unk_16: c[16] as u32,
            unk_17: c[17] as u32,
            unk_18: c[18] as u32,
            unk_19: c[19] as u32,
        }
    }

    open spec fn spec_values(&self) -> Seq<u64> {
        seq![
            self.key.spec_key() as u64,
            self.unk_1 as u64,
            (self.s1a as u32) as u64,
            (self.s2a as u32) as u64,
            (self.s1b as u32) as u64,
            (self.s2b as u32) as u64,
            self.unk_6 as u64,
            self.offset as u64,
            self.key_mesh.spec_key() as u64,
            self.key_mesh_lod1.spec_key() as u64,
            self.key_mesh_lod2.spec_key() as u64,
            self.unk_11 as u64,
            self.unk_12 as u64,
            self.unk_13 as u64,
            self.unk_14 as u64,
            self.unk_15 as u64,
            self.unk_16 as u64,
            self.unk_17 as u64,
            self.unk_18 as u64,
            self.unk_19 as u64,
        ]
    }

    open spec fn spec_fits(&self, o: Endian) -> bool {
        true
    }

    fn layout(o: Endian) -> (r: Vec<Cell>) {
        vec![
            Cell { prim: Prim::U32, endian: o },
            Cell { prim: Prim::U32, endian: o },
            Cell { prim: Prim::U32, endian: o },
            Cell { prim: Prim::U32, endian: o },
            Cell { prim: Prim::U32, endian: o },
            Cell { prim: Prim::U32, endian: o },
            Cell { prim: Prim::U32, endian: o },
            Cell { prim: Prim::U32, endian: o },
            Cell { prim: Prim::U32, endian: o },
            Cell { prim: Prim::U32, endian: o },
            Cell { prim: Prim::U32, endian: o },
            Cell { prim: Prim::U32, endian: o },
            Cell { prim: Prim::U32, endian: o },
            Cell { prim: Prim::U32, endian: o },
            Cell { prim: Prim::U32, endian: o },
            Cell { prim: Prim::U32, endian: o },
            Cell { prim: Prim::U32, endian: o },
            Cell { prim: Prim::U32, endian: o },
            Cell { prim: Prim::U32, endian: o },
            Cell { prim: Prim::U32, endian: o },
        ]
    }

    fn to_cells(&self, o: Endian) -> (r: Vec<u64>) {
        vec![
            self.key.key() as u64,
            self.unk_1 as u64,
            (self.s1a as u32) as u64,
            (self.s2a as u32) as u64,
            (self.s1b as u32) as u64,
            (self.s2b as u32) as u64,
            self.unk_6 as u64,
            self.offset as u64,
            self.key_mesh.key() as u64,
            self.key_mesh_lod1.key() as u64,
            self.key_mesh_lod2.key() as u64,
            self.unk_11 as u64,
            self.unk_12 as u64,
            self.unk_13 as u64,
            self.unk_14 as u64,
            self.unk_15 as u64,
            self.unk_16 as u64,
            self.unk_17 as u64,
            self.unk_18 as u64,
            self.unk_19 as u64,
        ]
    }

    fn from_cells(c: &Vec<u64>, o: Endian) -> (r: Self) {
        FoliageInfo {
            key: Crc::Key(c[0] as u32),
            unk_1: c[1] as u32,
            s1a: (c[2] as u32) as i32,
            s2a: (c[3] as u32) as i32,
            s1b: (c[4] as u32) as i32,
            s2b: (c[5] as u32) as i32,
            unk_6: c[6] as u32,
            offset: c[7] as u32,
            key_mesh: Crc::Key(c[8] as u32),
            key_mesh_lod1: Crc::Key(c[9] as u32),
            key_mesh_lod2: Crc::Key(c[10] as u32),
            unk_11: c[11] as u32,
            unk_12: c[12] as u32,
            unk_13: c[13] as u32,
            unk_14: c[14] as u32,
            unk_15: c[15] as u32,
            unk_16: c[16] as u32,
            unk_17: c[17] as u32,
            unk_18: c[18] as u32,
            unk_19: c[19] as u32,
        }
    }

    open spec fn spec_keys_resolved(&self, m: Map<u32, Seq<char>>) -> bool {
        crc_resolved(self.key, m) && crc_resolved(self.key_mesh, m) && crc_resolved(self.key_mesh_lod1, m) && crc_resolved(self.key_mesh_lod2, m)
    }

    fn resolved(&self, table: &StringTable) -> (r: Self) {
        FoliageInfo {
            key: Crc::resolve(self.key.key(), table),
            unk_1: self.unk_1,
            s1a: self.s1a,
            s2a: self.s2a,
            s1b: self.s1b,
            s2b: self.s2b,
            unk_6: self.unk_6,
            offset: self.offset,
            key_mesh: Crc::resolve(self.key_mesh.key(), table),
            key_mesh_lod1: Crc::resolve(self.key_mesh_lod1.key(), table),
            key_mesh_lod2: Crc::resolve(self.key_mesh_lod2.key(), table),
            unk_11: self.unk_11,
            unk_12: self.unk_12,
            unk_13: self.unk_13,
            unk_14: self.unk_14,
            unk_15: self.unk_15,
            unk_16: self.unk_16,
            unk_17: self.unk_17,
            unk_18: self.unk_18,
            unk_19: self.unk_19,
        }
    }

    proof fn lemma_layout_small(o: Endian) {
    }

    proof fn lemma_cells(&self, o: Endian) {
        lemma_i32_bits(self.s1a);
        lemma_i32_bits(self.s2a);
        lemma_i32_bits(self.s1b);
        lemma_i32_bits(self.s2b);
    }
}

/// Index record of an illumination block.
#[derive(Debug, Clone, Copy, PartialEq)]
pub struct IlluminationInfo {
    pub guid: u32,
    pub num: u32,
    pub offset: u32,
}

impl OrderedData for IlluminationInfo {
    open spec fn spec_layout(o: Endian) -> Seq<Cell> {
        seq![
            Cell { prim: Prim::U32, endian: o },
            Cell { prim: Prim::U32, endian: o },
            Cell { prim: Prim::U32, endian: o },
        ]
    }

    open spec fn spec_cells(&self, o: Endian) -> Seq<u64> {
        seq![
            self.guid as u64,
            self.num as u64,
            self.offset as u64,
        ]
    }

    open spec fn spec_from_cells(c: Seq<u64>, o: Endian) -> Self {
        IlluminationInfo {
            guid: c[0] as u32,
            num: c[1] as u32,
            offset: c[2] as u32,
        }
    }

    open spec fn spec_values(&self) -> Seq<u64> {
        seq![
            self.guid as u64,
            self.num as u64,
            self.offset as u64,
        ]
    }

    open spec fn spec_fits(&self, o: Endian) -> bool {
        true
    }

    fn layout(o: Endian) -> (r: Vec<Cell>) {
        vec![
            Cell { prim: Prim::U32, endian: o },
            Cell { prim: Prim::U32, endian: o },
            Cell { prim: Prim::U32, endian: o },
        ]
    }

    fn to_cells(&self, o: Endian) -> (r: Vec<u64>) {
        vec![
            self.guid as u64,
            self.num as u64,
            self.offset as u64,
        ]
    }

    fn from_cells(c: &Vec<u64>, o: Endian) -> (r: Self) {
        IlluminationInfo {
            guid: c[0] as u32,
            num: c[1] as u32,
            offset: c[2] as u32,
        }
    }

    open spec fn spec_keys_resolved(&self, m: Map<u32, Seq<char>>) -> bool {
        true
    }

    fn resolved(&self, table: &StringTable) -> (r: Self) {
        *self
    }

    proof fn lemma_layout_small(o: Endian) {
    }

    proof fn lemma_cells(&self, o: Endian) {
    }
}

/// An entry of the payload file's trailing table.
#[derive(Debug, Clone, PartialEq)]
pub struct BlockAVal {
    pub unk_0: u32,
    pub gamemodemask: i32,
    pub key: Crc,
    pub unk_3: u32,
    pub unk_4: u32,
    pub unk_5: u32,
    pub unk_6: u32,
}

impl OrderedData for BlockAVal {
    open spec fn spec_layout(o: Endian) -> Seq<Cell> {
        seq![
            Cell { prim: Prim::U32, endian: o },
            Cell { prim: Prim::U32, endian: o },
            Cell { prim: Prim::U32, endian: o },
            Cell { prim: Prim::U32, endian: o },
            Cell { prim: Prim::U32, endian: o },
            Cell { prim: Prim::U32, endian: o },
            Cell { prim: Prim::U32, endian: o },
        ]
    }

    open spec fn spec_cells(&self, o: Endian) -> Seq<u64> {
        seq![
            self.unk_0 as u64,
            (self.gamemodemask as u32) as u64,
            self.key.spec_key() as u64,
            self.unk_3 as u64,
            self.unk_4 as u64,
            self.unk_5 as u64,
            self.unk_6 as u64,
        ]
    }

    open spec fn spec_from_cells(c: Seq<u64>, o: Endian) -> Self {
        BlockAVal {
            unk_0: c[0] as u32,
            gamemodemask: (c[1] as u32) as i32,
            key: Crc::Key(c[2] as u32),
            unk_3: c[3] as u32,
            unk_4: c[4] as u32,
            unk_5: c[5] as u32,
            unk_6: c[6] as u32,
        }
    }

    open spec fn spec_values(&self) -> Seq<u64> {
        seq![
            self.unk_0 as u64,
            (self.gamemodemask as u32) as u64,
            self.key.spec_key() as u64,
            self.unk_3 as u64,
            self.unk_4 as u64,
            self.unk_5 as u64,
            self.unk_6 as u64,
        ]
    }

    open spec fn spec_fits(&self, o: Endian) -> bool {
        true
    }

    fn layout(o: Endian) -> (r: Vec<Cell>) {
        vec![
            Cell { prim: Prim::U32, endian: o },
            Cell { prim: Prim::U32, endian: o },
            Cell { prim: Prim::U32, endian: o },
            Cell { prim: Prim::U32, endian: o },
            Cell { prim: Prim::U32, endian: o },
            Cell { prim: Prim::U32, endian: o },
            Cell { prim: Prim::U32, endian: o },
        ]
    }

    fn to_cells(&self, o: Endian) -> (r: Vec<u64>) {
        vec![
            self.unk_0 as u64,
            (self.gamemodemask as u32) as u64,
            self.key.key() as u64,
            self.unk_3 as u64,
            self.unk_4 as u64,
            self.unk_5 as u64,
            self.unk_6 as u64,
        ]
    }

    fn from_cells(c: &Vec<u64>, o: Endian) -> (r: Self) {
        BlockAVal {
            unk_0: c[0] as u32,
            gamemodemask: (c[1] as u32) as i32,
            key: Crc::Key(c[2] as u32),
            unk_3: c[3] as u32,
            unk_4: c[4] as u32,
            unk_5: c[5] as u32,
            unk_6: c[6] as u32,
        }
    }

    open spec fn spec_keys_resolved(&self, m: Map<u32, Seq<char>>) -> bool {
        crc_resolved(self.key, m)
    }

    fn resolved(&self, table: &StringTable) -> (r: Self) {
        BlockAVal {
            unk_0: self.unk_0,
            gamemodemask: self.gamemodemask,
            key: Crc::resolve(self.key.key(), table),
            unk_3: self.unk_3,
            unk_4: self.unk_4,
            unk_5: self.unk_5,
            unk_6: self.unk_6,
        }
    }

    proof fn lemma_layout_small(o: Endian) {
    }

    proof fn lemma_cells(&self, o: Endian) {
        lemma_i32_bits(self.gamemodemask);
    }
}

/// A material record of the first kind: the shared part alone.
#[derive(Debug, Clone, PartialEq)]
pub struct Mat1 {
    pub base: MatBase,
}

impl OrderedData for Mat1 {
    open spec fn spec_layout(o: Endian) -> Seq<Cell> {
        MatBase::spec_layout(o) + seq![]
    }

    open spec fn spec_cells(&self, o: Endian) -> Seq<u64> {
        self.base.spec_cells(o) + seq![]
    }

    open spec fn spec_from_cells(c: Seq<u64>, o: Endian) -> Self {
        Mat1 {
            base: MatBase::spec_from_cells(c.take(91), o),
        }
    }

    open spec fn spec_values(&self) -> Seq<u64> {
        self.base.spec_values() + seq![]
    }

    open spec fn spec_fits(&self, o: Endian) -> bool {
        self.base.spec_fits(o)
    }

    #[verifier::rlimit(100)]
    #[verifier::spinoff_prover]
    fn layout(o: Endian) -> (r: Vec<Cell>) {
        let mut v = MatBase::layout(o);
        let rest: Vec<Cell> = Vec::new();
        extend_from(&mut v, &rest);
        v
    }

    #[verifier::rlimit(100)]
    #[verifier::spinoff_prover]
    fn to_cells(&self, o: Endian) -> (r: Vec<u64>) {
        let mut v = self.base.to_cells(o);
        let rest: Vec<u64> = Vec::new();
        extend_from(&mut v, &rest);
        v
    }

    #[verifier::rlimit(100)]
    #[verifier::spinoff_prover]
    fn from_cells(c: &Vec<u64>, o: Endian) -> (r: Self) {
        let b = head_cells(c, 91);
        proof {
            lemma_head_fits(MatBase::spec_layout(o), Self::spec_layout(o), c@, 91);
        }
        let base = MatBase::from_cells(&b, o);
        Mat1 {
            base,
        }
    }

    open spec fn spec_keys_resolved(&self, m: Map<u32, Seq<char>>) -> bool {
        self.base.spec_keys_resolved(m)
    }

    #[verifier::rlimit(100)]
    #[verifier::spinoff_prover]
    fn resolved(&self, table: &StringTable) -> (r: Self) {
        Mat1 {
            base: self.base.resolved(table),
        }
    }

    proof fn lemma_layout_small(o: Endian) {
        MatBase::lemma_layout_small(o);
    }

    #[verifier::rlimit(100)]
    #[verifier::spinoff_prover]
    proof fn lemma_cells(&self, o: Endian) {
        self.base.lemma_cells(o);
        lemma_concat_fits(MatBase::spec_layout(o), self.base.spec_cells(o), seq![], seq![]);
        assert((self.base.spec_cells(o) + seq![]).take(91) =~= self.base.spec_cells(o));
    }
}

/// A material record of the second kind.
#[derive(Debug, Clone, PartialEq)]
pub struct Mat2 {
    pub base: MatBase,
    pub unk_90: u32,
    pub unk_91: u32,
    pub unk_92: u32,
    pub unk_93: u32,
    pub unk_94: u32,
    pub unk_95: u32,
    pub unk_96: u32,
    pub unk_97: u32,
    pub unk_98: u32,
    pub unk_99: u32,
    pub unk_100: u32,
    pub unk_101: u32,
    pub unk_102: u32,
    pub unk_103: u32,
    pub unk_104: u32,
    pub unk_105: u32,
    pub unk_106: u32,
    pub unk_107: u32,
    pub unk_108: u32,
    pub unk_109: u32,
    pub unk_110: u32,
    pub unk_111: u32,
    pub unk_112: u32,
    pub unk_113: u32,
    pub unk_114: u32,
    pub unk_115: u32,
    pub unk_116: u32,
    pub unk_117: u32,
    pub unk_118: u32,
    pub unk_119: u32,
    pub unk_120a: u8,
    pub unk_120b: u8,
    pub unk_120c: u8,
    pub unk_120d: u8,
    pub unk_121: u32,
}

impl OrderedData for Mat2 {
    open spec fn spec_layout(o: Endian) -> Seq<Cell> {
        MatBase::spec_layout(o) + seq![
            Cell { prim: Prim::U32, endian: o },
            Cell { prim: Prim::U32, endian: o },
            Cell { prim: Prim::U32, endian: o },
            Cell { prim: Prim::U32, endian: o },
            Cell { prim: Prim::U32, endian: o },
            Cell { prim: Prim::U32, endian: o },
            Cell { prim: Prim::U32, endian: o },
            Cell { prim: Prim::U32, endian: o },
            Cell { prim: Prim::U32, endian: o },
            Cell { prim: Prim::U32, endian: o },
            Cell { prim: Prim::U32, endian: o },
            Cell { prim: Prim::U32, endian: o },
            Cell { prim: Prim::U32, endian: o },
            Cell { prim: Prim::U32, endian: o },
            Cell { prim: Prim::U32, endian: o },
            Cell { prim: Prim::U32, endian: o },
            Cell { prim: Prim::U32, endian: o },
            Cell { prim: Prim::U32, endian: o },
            Cell { prim: Prim::U32, endian: o },
            Cell { prim: Prim::U32, endian: o },
            Cell { prim: Prim::U32, endian: o },
            Cell { prim: Prim::U32, endian: o },
            Cell { prim: Prim::U32, endian: o },
            Cell { prim: Prim::U32, endian: o },
            Cell { prim: Prim::U32, endian: o },
            Cell { prim: Prim::U32, endian: o },
            Cell { prim: Prim::U32, endian: o },
            Cell { prim: Prim::U32, endian: o },
            Cell { prim: Prim::U32, endian: o },
            Cell { prim: Prim::U32, endian: o },
            Cell { prim: Prim::U8, endian: o },
            Cell { prim: Prim::U8, endian: o },
            Cell { prim: Prim::U8, endian: o },
            Cell { prim: Prim::U8, endian: o },
            Cell { prim: Prim::U32, endian: o },
        ]
    }

    open spec fn spec_cells(&self, o: Endian) -> Seq<u64> {
        self.base.spec_cells(o) + seq![
            self.unk_90 as u64,
            self.unk_91 as u64,
            self.unk_92 as u64,
            self.unk_93 as u64,
            self.unk_94 as u64,
            self.unk_95 as u64,
            self.unk_96 as u64,
            self.unk_97 as u64,
            self.unk_98 as u64,
            self.unk_99 as u64,
            self.unk_100 as u64,
            self.unk_101 as u64,
            self.unk_102 as u64,
            self.unk_103 as u64,
            self.unk_104 as u64,
            self.unk_105 as u64,
            self.unk_106 as u64,
            self.unk_107 as u64,
            self.unk_108 as u64,
            self.unk_109 as u64,
            self.unk_110 as u64,
            self.unk_111 as u64,
            self.unk_112 as u64,
            self.unk_113 as u64,
            self.unk_114 as u64,
            self.unk_115 as u64,
            self.unk_116 as u64,
            self.unk_117 as u64,
            self.unk_118 as u64,
            self.unk_119 as u64,
            self.unk_120a as u64,
            self.unk_120b as u64,
            self.unk_120c as u64,
            self.unk_120d as u64,
            self.unk_121 as u64,
        ]
    }

    open spec fn spec_from_cells(c: Seq<u64>, o: Endian) -> Self {
        Mat2 {
            base: MatBase::spec_from_cells(c.take(91), o),
            unk_90: c[91] as u32,
            unk_91: c[92] as u32,
            unk_92: c[93] as u32,
            unk_93: c[94] as u32,
            unk_94: c[95] as u32,
            unk_95: c[96] as u32,
            unk_96: c[97] as u32,
            unk_97: c[98] as u32,
            unk_98: c[99] as u32,
            unk_99: c[100] as u32,
            unk_100: c[101] as u32,
            unk_101: c[102] as u32,
            unk_102: c[103] as u32,
            unk_103: c[104] as u32,
            unk_104: c[105] as u32,
            unk_105: c[106] as u32,
            unk_106: c[107] as u32,
            unk_107: c[108] as u32,
            unk_108: c[109] as u32,
            unk_109: c[110] as u32,
            unk_110: c[111] as u32,
            unk_111: c[112] as u32,
            unk_112: c[113] as u32,
            unk_113: c[114] as u32,
            unk_114: c[115] as u32,
            unk_115: c[116] as u32,
            unk_116: c[117] as u32,
            unk_117: c[118] as u32,
            unk_118: c[119] as u32,
            unk_119: c[120] as u32,
            unk_120a: c[121] as u8,
            unk_120b: c[122] as u8,
            unk_120c: c[123] as u8,
            unk_120d: c[124] as u8,
            unk_121: c[125] as u32,
        }
    }

    open spec fn spec_values(&self) -> Seq<u64> {
        self.base.spec_values() + seq![
            self.unk_90 as u64,
            self.unk_91 as u64,
            self.unk_92 as u64,
            self.unk_93 as u64,
            self.unk_94 as u64,
            self.unk_95 as u64,
            self.unk_96 as u64,
            self.unk_97 as u64,
            self.unk_98 as u64,
            self.unk_99 as u64,
            self.unk_100 as u64,
            self.unk_101 as u64,
            self.unk_102 as u64,
            self.unk_103 as u64,
            self.unk_104 as u64,
            self.unk_105 as u64,
            self.unk_106 as u64,
            self.unk_107 as u64,
            self.unk_108 as u64,
            self.unk_109 as u64,
            self.unk_110 as u64,
            self.unk_111 as u64,
            self.unk_112 as u64,
            self.unk_113 as u64,
            self.unk_114 as u64,
            self.unk_115 as u64,
            self.unk_116 as u64,
            self.unk_117 as u64,
            self.unk_118 as u64,
            self.unk_119 as u64,
            self.unk_120a as u64,
            self.unk_120b as u64,
            self.unk_120c as u64,
            self.unk_120d as u64,
            self.unk_121 as u64,
        ]
    }

    open spec fn spec_fits(&self, o: Endian) -> bool {
        self.base.spec_fits(o)
    }

    #[verifier::rlimit(100)]
    #[verifier::spinoff_prover]
    fn layout(o: Endian) -> (r: Vec<Cell>) {
        let mut v = MatBase::layout(o);
        let rest: Vec<Cell> = vec![
            Cell { prim: Prim::U32, endian: o },
            Cell { prim: Prim::U32, endian: o },
            Cell { prim: Prim::U32, endian: o },
            Cell { prim: Prim::U32, endian: o },
            Cell { prim: Prim::U32, endian: o },
            Cell { prim: Prim::U32, endian: o },
            Cell { prim: Prim::U32, endian: o },
            Cell { prim: Prim::U32, endian: o },
            Cell { prim: Prim::U32, endian: o },
            Cell { prim: Prim::U32, endian: o },
            Cell { prim: Prim::U32, endian: o },
            Cell { prim: Prim::U32, endian: o },
            Cell { prim: Prim::U32, endian: o },
            Cell { prim: Prim::U32, endian: o },
            Cell { prim: Prim::U32, endian: o },
            Cell { prim: Prim::U32, endian: o },
            Cell { prim: Prim::U32, endian: o },
            Cell { prim: Prim::U32, endian: o },
            Cell { prim: Prim::U32, endian: o },
            Cell { prim: Prim::U32, endian: o },
            Cell { prim: Prim::U32, endian: o },
            Cell { prim: Prim::U32, endian: o },
            Cell { prim: Prim::U32, endian: o },
            Cell { prim: Prim::U32, endian: o },
            Cell { prim: Prim::U32, endian: o },
            Cell { prim: Prim::U32, endian: o },
            Cell { prim: Prim::U32, endian: o },
            Cell { prim: Prim::U32, endian: o },
            Cell { prim: Prim::U32, endian: o },
            Cell { prim: Prim::U32, endian: o },
            Cell { prim: Prim::U8, endian: o },
            Cell { prim: Prim::U8, endian: o },
            Cell { prim: Prim::U8, endian: o },
            Cell { prim: Prim::U8, endian: o },
            Cell { prim: Prim::U32, endian: o },
        ];
        extend_from(&mut v, &rest);
        v
    }

    #[verifier::rlimit(100)]
    #[verifier::spinoff_prover]
    fn to_cells(&self, o: Endian) -> (r: Vec<u64>) {
        let mut v = self.base.to_cells(o);
        let rest: Vec<u64> = vec![
            self.unk_90 as u64,
            self.unk_91 as u64,
            self.unk_92 as u64,
            self.unk_93 as u64,
            self.unk_94 as u64,
            self.unk_95 as u64,
            self.unk_96 as u64,
            self.unk_97 as u64,
            self.unk_98 as u64,
            self.unk_99 as u64,
            self.unk_100 as u64,
            self.unk_101 as u64,
            self.unk_102 as u64,
            self.unk_103 as u64,
            self.unk_104 as u64,
            self.unk_105 as u64,
            self.unk_106 as u64,
            self.unk_107 as u64,
            self.unk_108 as u64,
            self.unk_109 as u64,
            self.unk_110 as u64,
            self.unk_111 as u64,
            self.unk_112 as u64,
            self.unk_113 as u64,
            self.unk_114 as u64,
            self.unk_115 as u64,
            self.unk_116 as u64,
            self.unk_117 as u64,
            self.unk_118 as u64,
            self.unk_119 as u64,
            self.unk_120a as u64,
            self.unk_120b as u64,
            self.unk_120c as u64,
            self.unk_120d as u64,
            self.unk_121 as u64,
        ];
        extend_from(&mut v, &rest);
        v
    }

    #[verifier::rlimit(100)]
    #[verifier::spinoff_prover]
    fn from_cells(c: &Vec<u64>, o: Endian) -> (r: Self) {
        let b = head_cells(c, 91);
        proof {
            lemma_head_fits(MatBase::spec_layout(o), Self::spec_layout(o), c@, 91);
        }
        let base = MatBase::from_cells(&b, o);
        Mat2 {
            base,
            unk_90: c[91] as u32,
            unk_91: c[92] as u32,
            unk_92: c[93] as u32,
            unk_93: c[94] as u32,
            unk_94: c[95] as u32,
            unk_95: c[96] as u32,
            unk_96: c[97] as u32,
            unk_97: c[98] as u32,
            unk_98: c[99] as u32,
            unk_99: c[100] as u32,
            unk_100: c[101] as u32,
            unk_101: c[102] as u32,
            unk_102: c[103] as u32,
            unk_103: c[104] as u32,
            unk_104: c[105] as u32,
            unk_105: c[106] as u32,
            unk_106: c[107] as u32,
            unk_107: c[108] as u32,
            unk_108: c[109] as u32,
            unk_109: c[110] as u32,
            unk_110: c[111] as u32,
            unk_111: c[112] as u32,
            unk_112: c[113] as u32,
            unk_113: c[114] as u32,
            unk_114: c[115] as u32,
            unk_115: c[116] as u32,
            unk_116: c[117] as u32,
            unk_117: c[118] as u32,
            unk_118: c[119] as u32,
            unk_119: c[120] as u32,
            unk_120a: c[121] as u8,
            unk_120b: c[122] as u8,
            unk_120c: c[123] as u8,
            unk_120d: c[124] as u8,
            unk_121: c[125] as u32,
        }
    }

    open spec fn spec_keys_resolved(&self, m: Map<u32, Seq<char>>) -> bool {
        self.base.spec_keys_resolved(m)
    }

    #[verifier::rlimit(100)]
    #[verifier::spinoff_prover]
    fn resolved(&self, table: &StringTable) -> (r: Self) {
        Mat2 {
            base: self.base.resolved(table),
            unk_90: self.unk_90,
            unk_91: self.unk_91,
            unk_92: self.unk_92,
            unk_93: self.unk_93,
            unk_94: self.unk_94,
            unk_95: self.unk_95,
            unk_96: self.unk_96,
            unk_97: self.unk_97,
            unk_98: self.unk_98,
            unk_99: self.unk_99,
            unk_100: self.unk_100,
            unk_101: self.unk_101,
            unk_102: self.unk_102,
            unk_103: self.unk_103,
            unk_104: self.unk_104,
            unk_105: self.unk_105,
            unk_106: self.unk_106,
            unk_107: self.unk_107,
            unk_108: self.unk_108,
            unk_109: self.unk_109,
            unk_110: self.unk_110,
            unk_111: self.unk_111,
            unk_112: self.unk_112,
            unk_113: self.unk_113,
            unk_114: self.unk_114,
            unk_115: self.unk_115,
            unk_116: self.unk_116,
            unk_117: self.unk_117,
            unk_118: self.unk_118,
            unk_119: self.unk_119,
            unk_120a: self.unk_120a,
            unk_120b: self.unk_120b,
            unk_120c: self.unk_120c,
            unk_120d: self.unk_120d,
            unk_121: self.unk_121,
        }
    }

    proof fn lemma_layout_small(o: Endian) {
        MatBase::lemma_layout_small(o);
    }

    #[verifier::rlimit(100)]
    #[verifier::spinoff_prover]
    proof fn lemma_cells(&self, o: Endian) {
        self.base.lemma_cells(o);
        lemma_concat_fits(MatBase::spec_layout(o), self.base.spec_cells(o), seq![
            Cell { prim: Prim::U32, endian: o },
            Cell { prim: Prim::U32, endian: o },
            Cell { prim: Prim::U32, endian: o },
            Cell { prim: Prim::U32, endian: o },
            Cell { prim: Prim::U32, endian: o },
            Cell { prim: Prim::U32, endian: o },
            Cell { prim: Prim::U32, endian: o },
            Cell { prim: Prim::U32, endian: o },
            Cell { prim: Prim::U32, endian: o },
            Cell { prim: Prim::U32, endian: o },
            Cell { prim: Prim::U32, endian: o },
            Cell { prim: Prim::U32, endian: o },
            Cell { prim: Prim::U32, endian: o },
            Cell { prim: Prim::U32, endian: o },
            Cell { prim: Prim::U32, endian: o },
            Cell { prim: Prim::U32, endian: o },
            Cell { prim: Prim::U32, endian: o },
            Cell { prim: Prim::U32, endian: o },
            Cell { prim: Prim::U32, endian: o },
            Cell { prim: Prim::U32, endian: o },
            Cell { prim: Prim::U32, endian: o },
            Cell { prim: Prim::U32, endian: o },
            Cell { prim: Prim::U32, endian: o },
            Cell { prim: Prim::U32, endian: o },
            Cell { prim: Prim::U32, endian: o },
            Cell { prim: Prim::U32, endian: o },
            Cell { prim: Prim::U32, endian: o },
            Cell { prim: Prim::U32, endian: o },
            Cell { prim: Prim::U32, endian: o },
            Cell { prim: Prim::U32, endian: o },
            Cell { prim: Prim::U8, endian: o },
            Cell { prim: Prim::U8, endian: o },
            Cell { prim: Prim::U8, endian: o },
            Cell { prim: Prim::U8, endian: o },
            Cell { prim: Prim::U32, endian: o },
        ], seq![
            self.unk_90 as u64,
            self.unk_91 as u64,
            self.unk_92 as u64,
            self.unk_93 as u64,
            self.unk_94 as u64,
            self.unk_95 as u64,
            self.unk_96 as u64,
            self.unk_97 as u64,
            self.unk_98 as u64,
            self.unk_99 as u64,
            self.unk_100 as u64,
            self.unk_101 as u64,
            self.unk_102 as u64,
            self.unk_103 as u64,
            self.unk_104 as u64,
            self.unk_105 as u64,
            self.unk_106 as u64,
            self.unk_107 as u64,
            self.unk_108 as u64,
            self.unk_109 as u64,
            self.unk_110 as u64,
            self.unk_111 as u64,
            self.unk_112 as u64,
            self.unk_113 as u64,
            self.unk_114 as u64,
            self.unk_115 as u64,
            self.unk_116 as u64,
            self.unk_117 as u64,
            self.unk_118 as u64,
            self.unk_119 as u64,
            self.unk_120a as u64,
            self.unk_120b as u64,
            self.unk_120c as u64,
            self.unk_120d as u64,
            self.unk_121 as u64,
        ]);
        assert((self.base.spec_cells(o) + seq![
            self.unk_90 as u64,
            self.unk_91 as u64,
            self.unk_92 as u64,
            self.unk_93 as u64,
            self.unk_94 as u64,
            self.unk_95 as u64,
            self.unk_96 as u64,
            self.unk_97 as u64,
            self.unk_98 as u64,
            self.unk_99 as u64,
            self.unk_100 as u64,
            self.unk_101 as u64,
            self.unk_102 as u64,
            self.unk_103 as u64,
            self.unk_104 as u64,
            self.unk_105 as u64,
            self.unk_106 as u64,
            self.unk_107 as u64,
            self.unk_108 as u64,
            self.unk_109 as u64,
            self.unk_110 as u64,
            self.unk_111 as u64,
            self.unk_112 as u64,
            self.unk_113 as u64,
            self.unk_114 as u64,
            self.unk_115 as u64,
            self.unk_116 as u64,
            self.unk_117 as u64,
            self.unk_118 as u64,
            self.unk_119 as u64,
            self.unk_120a as u64,
            self.unk_120b as u64,
            self.unk_120c as u64,
            self.unk_120d as u64,
            self.unk_121 as u64,
        ]).take(91) =~= self.base.spec_cells(o));
    }
}

/// A material record of the third kind.
#[derive(Debug, Clone, PartialEq)]
pub struct Mat3 {
    pub base: MatBase,
    pub unk_90: u32,
    pub unk_91: u32,
    pub unk_92: u32,
    pub unk_93: u32,
    pub unk_94: u32,
    pub unk_95: u32,
    pub unk_96: u32,
    pub unk_97: u32,
    pub unk_98: u32,
    pub unk_99: u32,
    pub unk_100: u32,
    pub unk_101: u32,
    pub unk_102: u32,
    pub unk_103: u32,
    pub unk_104: u32,
    pub unk_105: u32,
    pub unk_106: u32,
    pub unk_107: u32,
    pub unk_108: u32,
    pub unk_109: u32,
    pub unk_110: u32,
    pub unk_111: u32,
    pub unk_112: u32,
    pub unk_113: u32,
    pub unk_114a: u8,
    pub unk_114b: u8,
    pub unk_114c: u8,
    pub unk_114d: u8,
    pub unk_115: u32,
}

impl OrderedData for Mat3 {
    open spec fn spec_layout(o: Endian) -> Seq<Cell> {
        MatBase::spec_layout(o) + seq![
            Cell { prim: Prim::U32, endian: o },
            Cell { prim: Prim::U32, endian: o },
            Cell { prim: Prim::U32, endian: o },
            Cell { prim: Prim::U32, endian: o },
            Cell { prim: Prim::U32, endian: o },
            Cell { prim: Prim::U32, endian: o },
            Cell { prim: Prim::U32, endian: o },
            Cell { prim: Prim::U32, endian: o },
            Cell { prim: Prim::U32, endian: o },
            Cell { prim: Prim::U32, endian: o },
            Cell { prim: Prim::U32, endian: o },
            Cell { prim: Prim::U32, endian: o },
            Cell { prim: Prim::U32, endian: o },
            Cell { prim: Prim::U32, endian: o },
            Cell { prim: Prim::U32, endian: o },
            Cell { prim: Prim::U32, endian: o },
            Cell { prim: Prim::U32, endian: o },
            Cell { prim: Prim::U32, endian: o },
            Cell { prim: Prim::U32, endian: o },
            Cell { prim: Prim::U32, endian: o },
            Cell { prim: Prim::U32, endian: o },
            Cell { prim: Prim::U32, endian: o },
            Cell { prim: Prim::U32, endian: o },
            Cell { prim: Prim::U32, endian: o },
            Cell { prim: Prim::U8, endian: o },
            Cell { prim: Prim::U8, endian: o },
            Cell { prim: Prim::U8, endian: o },
            Cell { prim: Prim::U8, endian: o },
            Cell { prim: Prim::U32, endian: o },
        ]
    }

    open spec fn spec_cells(&self, o: Endian) -> Seq<u64> {
        self.base.spec_cells(o) + seq![
            self.unk_90 as u64,
            self.unk_91 as u64,
            self.unk_92 as u64,
            self.unk_93 as u64,
            self.unk_94 as u64,
            self.unk_95 as u64,
            self.unk_96 as u64,
            self.unk_97 as u64,
            self.unk_98 as u64,
            self.unk_99 as u64,
            self.unk_100 as u64,
            self.unk_101 as u64,
            self.unk_102 as u64,
            self.unk_103 as u64,
            self.unk_104 as u64,
            self.unk_105 as u64,
            self.unk_106 as u64,
            self.unk_107 as u64,
            self.unk_108 as u64,
            self.unk_109 as u64,
            self.unk_110 as u64,
            self.unk_111 as u64,
            self.unk_112 as u64,
            self.unk_113 as u64,
            self.unk_114a as u64,
            self.unk_114b as u64,
            self.unk_114c as u64,
            self.unk_114d as u64,
            self.unk_115 as u64,
        ]
    }

    open spec fn spec_from_cells(c: Seq<u64>, o: Endian) -> Self {
        Mat3 {
            base: MatBase::spec_from_cells(c.take(91), o),
            unk_90: c[91] as u32,
            unk_91: c[92] as u32,
            unk_92: c[93] as u32,
            unk_93: c[94] as u32,
            unk_94: c[95] as u32,
            unk_95: c[96] as u32,
            unk_96: c[97] as u32,
            unk_97: c[98] as u32,
            unk_98: c[99] as u32,
            unk_99: c[100] as u32,
            unk_100: c[101] as u32,
            unk_101: c[102] as u32,
            unk_102: c[103] as u32,
            unk_103: c[104] as u32,
            unk_104: c[105] as u32,
            unk_105: c[106] as u32,
            unk_106: c[107] as u32,
            unk_107: c[108] as u32,
            unk_108: c[109] as u32,
            unk_109: c[110] as u32,
            unk_110: c[111] as u32,
            unk_111: c[112] as u32,
            unk_112: c[113] as u32,
            unk_113: c[114] as u32,
            unk_114a: c[115] as u8,
            unk_114b: c[116] as u8,
            unk_114c: c[117] as u8,
            unk_114d: c[118] as u8,
            unk_115: c[119] as u32,
        }
    }

    open spec fn spec_values(&self) -> Seq<u64> {
        self.base.spec_values() + seq![
            self.unk_90 as u64,
            self.unk_91 as u64,
            self.unk_92 as u64,
            self.unk_93 as u64,
            self.unk_94 as u64,
            self.unk_95 as u64,
            self.unk_96 as u64,
            self.unk_97 as u64,
            self.unk_98 as u64,
            self.unk_99 as u64,
            self.unk_100 as u64,
            self.unk_101 as u64,
            self.unk_102 as u64,
            self.unk_103 as u64,
            self.unk_104 as u64,
            self.unk_105 as u64,
            self.unk_106 as u64,
            self.unk_107 as u64,
            self.unk_108 as u64,
            self.unk_109 as u64,
            self.unk_110 as u64,
            self.unk_111 as u64,
            self.unk_112 as u64,
            self.unk_113 as u64,
            self.unk_114a as u64,
            self.unk_114b as u64,
            self.unk_114c as u64,
            self.unk_114d as u64,
            self.unk_115 as u64,
        ]
    }

    open spec fn spec_fits(&self, o: Endian) -> bool {
        self.base.spec_fits(o)
    }

    #[verifier::rlimit(100)]
    #[verifier::spinoff_prover]
    fn layout(o: Endian) -> (r: Vec<Cell>) {
        let mut v = MatBase::layout(o);
        let rest: Vec<Cell> = vec![
            Cell { prim: Prim::U32, endian: o },
            Cell { prim: Prim::U32, endian: o },
            Cell { prim: Prim::U32, endian: o },
            Cell { prim: Prim::U32, endian: o },
            Cell { prim: Prim::U32, endian: o },
            Cell { prim: Prim::U32, endian: o },
            Cell { prim: Prim::U32, endian: o },
            Cell { prim: Prim::U32, endian: o },
            Cell { prim: Prim::U32, endian: o },
            Cell { prim: Prim::U32, endian: o },
            Cell { prim: Prim::U32, endian: o },
            Cell { prim: Prim::U32, endian: o },
            Cell { prim: Prim::U32, endian: o },
            Cell { prim: Prim::U32, endian: o },
            Cell { prim: Prim::U32, endian: o },
            Cell { prim: Prim::U32, endian: o },
            Cell { prim: Prim::U32, endian: o },
            Cell { prim: Prim::U32, endian: o },
            Cell { prim: Prim::U32, endian: o },
            Cell { prim: Prim::U32, endian: o },
            Cell { prim: Prim::U32, endian: o },
            Cell { prim: Prim::U32, endian: o },
            Cell { prim: Prim::U32, endian: o },
            Cell { prim: Prim::U32, endian: o },
            Cell { prim: Prim::U8, endian: o },
            Cell { prim: Prim::U8, endian: o },
            Cell { prim: Prim::U8, endian: o },
            Cell { prim: Prim::U8, endian: o },
            Cell { prim: Prim::U32, endian: o },
        ];
        extend_from(&mut v, &rest);
        v
    }

    #[verifier::rlimit(100)]
    #[verifier::spinoff_prover]
    fn to_cells(&self, o: Endian) -> (r: Vec<u64>) {
        let mut v = self.base.to_cells(o);
        let rest: Vec<u64> = vec![
            self.unk_90 as u64,
            self.unk_91 as u64,
            self.unk_92 as u64,
            self.unk_93 as u64,
            self.unk_94 as u64,
            self.unk_95 as u64,
            self.unk_96 as u64,
            self.unk_97 as u64,
            self.unk_98 as u64,
            self.unk_99 as u64,
            self.unk_100 as u64,
            self.unk_101 as u64,
            self.unk_102 as u64,
            self.unk_103 as u64,
            self.unk_104 as u64,
            self.unk_105 as u64,
            self.unk_106 as u64,
            self.unk_107 as u64,
            self.unk_108 as u64,
            self.unk_109 as u64,
            self.unk_110 as u64,
            self.unk_111 as u64,
            self.unk_112 as u64,
            self.unk_113 as u64,
            self.unk_114a as u64,
            self.unk_114b as u64,
            self.unk_114c as u64,
            self.unk_114d as u64,
            self.unk_115 as u64,
        ];
        extend_from(&mut v, &rest);
        v
    }

    #[verifier::rlimit(100)]
    #[verifier::spinoff_prover]
    fn from_cells(c: &Vec<u64>, o: Endian) -> (r: Self) {
        let b = head_cells(c, 91);
        proof {
            lemma_head_fits(MatBase::spec_layout(o), Self::spec_layout(o), c@, 91);
        }
        let base = MatBase::from_cells(&b, o);
        Mat3 {
            base,
            unk_90: c[91] as u32,
            unk_91: c[92] as u32,
            unk_92: c[93] as u32,
            unk_93: c[94] as u32,
            unk_94: c[95] as u32,
            unk_95: c[96] as u32,
            unk_96: c[97] as u32,
            unk_97: c[98] as u32,
            unk_98: c[99] as u32,
            unk_99: c[100] as u32,
            unk_100: c[101] as u32,
            unk_101: c[102] as u32,
            unk_102: c[103] as u32,
            unk_103: c[104] as u32,
            unk_104: c[105] as u32,
            unk_105: c[106] as u32,
            unk_106: c[107] as u32,
            unk_107: c[108] as u32,
            unk_108: c[109] as u32,
            unk_109: c[110] as u32,
            unk_110: c[111] as u32,
            unk_111: c[112] as u32,
            unk_112: c[113] as u32,
            unk_113: c[114] as u32,
            unk_114a: c[115] as u8,
            unk_114b: c[116] as u8,
            unk_114c: c[117] as u8,
            unk_114d: c[118] as u8,
            unk_115: c[119] as u32,
        }
    }

    open spec fn spec_keys_resolved(&self, m: Map<u32, Seq<char>>) -> bool {
        self.base.spec_keys_resolved(m)
    }

    #[verifier::rlimit(100)]
    #[verifier::spinoff_prover]
    fn resolved(&self, table: &StringTable) -> (r: Self) {
        Mat3 {
            base: self.base.resolved(table),
            unk_90: self.unk_90,
            unk_91: self.unk_91,
            unk_92: self.unk_92,
            unk_93: self.unk_93,
            unk_94: self.unk_94,
            unk_95: self.unk_95,
            unk_96: self.unk_96,
            unk_97: self.unk_97,
            unk_98: self.unk_98,
            unk_99: self.unk_99,
            unk_100: self.unk_100,
            unk_101: self.unk_101,
            unk_102: self.unk_102,
            unk_103: self.unk_103,
            unk_104: self.unk_104,
            unk_105: self.unk_105,
            unk_106: self.unk_106,
            unk_107: self.unk_107,
            unk_108: self.unk_108,
            unk_109: self.unk_109,
            unk_110: self.unk_110,
            unk_111: self.unk_111,
            unk_112: self.unk_112,
            unk_113: self.unk_113,
            unk_114a: self.unk_114a,
            unk_114b: self.unk_114b,
            unk_114c: self.unk_114c,
            unk_114d: self.unk_114d,
            unk_115: self.unk_115,
        }
    }

    proof fn lemma_layout_small(o: Endian) {
        MatBase::lemma_layout_small(o);
    }

    #[verifier::rlimit(100)]
    #[verifier::spinoff_prover]
    proof fn lemma_cells(&self, o: Endian) {
        self.base.lemma_cells(o);
        lemma_concat_fits(MatBase::spec_layout(o), self.base.spec_cells(o), seq![
            Cell { prim: Prim::U32, endian: o },
            Cell { prim: Prim::U32, endian: o },
            Cell { prim: Prim::U32, endian: o },
            Cell { prim: Prim::U32, endian: o },
            Cell { prim: Prim::U32, endian: o },
            Cell { prim: Prim::U32, endian: o },
            Cell { prim: Prim::U32, endian: o },
            Cell { prim: Prim::U32, endian: o },
            Cell { prim: Prim::U32, endian: o },
            Cell { prim: Prim::U32, endian: o },
            Cell { prim: Prim::U32, endian: o },
            Cell { prim: Prim::U32, endian: o },
            Cell { prim: Prim::U32, endian: o },
            Cell { prim: Prim::U32, endian: o },
            Cell { prim: Prim::U32, endian: o },
            Cell { prim: Prim::U32, endian: o },
            Cell { prim: Prim::U32, endian: o },
            Cell { prim: Prim::U32, endian: o },
            Cell { prim: Prim::U32, endian: o },
            Cell { prim: Prim::U32, endian: o },
            Cell { prim: Prim::U32, endian: o },
            Cell { prim: Prim::U32, endian: o },
            Cell { prim: Prim::U32, endian: o },
            Cell { prim: Prim::U32, endian: o },
            Cell { prim: Prim::U8, endian: o },
            Cell { prim: Prim::U8, endian: o },
            Cell { prim: Prim::U8, endian: o },
            Cell { prim: Prim::U8, endian: o },
            Cell { prim: Prim::U32, endian: o },
        ], seq![
            self.unk_90 as u64,
            self.unk_91 as u64,
            self.unk_92 as u64,
            self.unk_93 as u64,
            self.unk_94 as u64,
            self.unk_95 as u64,
            self.unk_96 as u64,
            self.unk_97 as u64,
            self.unk_98 as u64,
            self.unk_99 as u64,
            self.unk_100 as u64,
            self.unk_101 as u64,
            self.unk_102 as u64,
            self.unk_103 as u64,
            self.unk_104 as u64,
            self.unk_105 as u64,
            self.unk_106 as u64,
            self.unk_107 as u64,
            self.unk_108 as u64,
            self.unk_109 as u64,
            self.unk_110 as u64,
            self.unk_111 as u64,
            self.unk_112 as u64,
            self.unk_113 as u64,
            self.unk_114a as u64,
            self.unk_114b as u64,
            self.unk_114c as u64,
            self.unk_114d as u64,
            self.unk_115 as u64,
        ]);
        assert((self.base.spec_cells(o) + seq![
            self.unk_90 as u64,
            self.unk_91 as u64,
            self.unk_92 as u64,
            self.unk_93 as u64,
            self.unk_94 as u64,
            self.unk_95 as u64,
            self.unk_96 as u64,
            self.unk_97 as u64,
            self.unk_98 as u64,
            self.unk_99 as u64,
            self.unk_100 as u64,
            self.unk_101 as u64,
            self.unk_102 as u64,
            self.unk_103 as u64,
            self.unk_104 as u64,
            self.unk_105 as u64,
            self.unk_106 as u64,
            self.unk_107 as u64,
            self.unk_108 as u64,
            self.unk_109 as u64,
            self.unk_110 as u64,
            self.unk_111 as u64,
            self.unk_112 as u64,
            self.unk_113 as u64,
            self.unk_114a as u64,
            self.unk_114b as u64,
            self.unk_114c as u64,
            self.unk_114d as u64,
            self.unk_115 as u64,
        ]).take(91) =~= self.base.spec_cells(o));
    }
}

/// A material record of the fourth kind.
#[derive(Debug, Clone, PartialEq)]
pub struct Mat4 {
    pub base: MatBase,
    pub unk_90: u32,
    pub unk_91: u32,
    pub unk_92: u32,
    pub unk_93: u32,
    pub unk_94: u32,
    pub unk_95: u32,
    pub unk_96: u32,
    pub unk_97: u32,
    pub unk_98: u32,
    pub unk_99: u32,
    pub unk_100: u32,
    pub unk_101: u32,
    pub unk_102: u32,
    pub unk_103: u32,
    pub unk_104: u32,
    pub unk_105: u32,
    pub unk_106: u32,
    pub unk_107: u32,
    pub unk_108: u32,
    pub unk_109: u32,
    pub unk_110: u32,
    pub unk_111: u32,
    pub unk_112: u32,
    pub unk_113: u32,
    pub unk_114: u32,
    pub unk_115: u32,
    pub unk_116: u32,
    pub unk_117: u32,
    pub unk_118: u32,
    pub unk_119: u32,
    pub unk_120: u32,
    pub unk_121: u32,
    pub unk_122: u32,
    pub unk_123: u32,
    pub unk_124: u32,
    pub unk_125: u32,
    pub unk_126: u32,
    pub unk_127: u32,
    pub unk_128: u32,
    pub unk_129: u32,
    pub unk_130: u32,
    pub unk_131: u32,
    pub unk_132: u32,
    pub unk_133: u32,
    pub unk_134: u32,
    pub unk_135: u32,
    pub unk_136: u32,
    pub unk_137: u32,
    pub unk_138: u32,
    pub unk_139: u32,
    pub unk_140: u32,
    pub unk_141: u32,
    pub unk_142: u32,
    pub unk_143: u32,
    pub unk_144: u32,
    pub unk_145: u32,
}

impl OrderedData for Mat4 {
    open spec fn spec_layout(o: Endian) -> Seq<Cell> {
        MatBase::spec_layout(o) + seq![
            Cell { prim: Prim::U32, endian: o },
            Cell { prim: Prim::U32, endian: o },
            Cell { prim: Prim::U32, endian: o },
            Cell { prim: Prim::U32, endian: o },
            Cell { prim: Prim::U32, endian: o },
            Cell { prim: Prim::U32, endian: o },
            Cell { prim: Prim::U32, endian: o },
            Cell { prim: Prim::U32, endian: o },
            Cell { prim: Prim::U32, endian: o },
            Cell { prim: Prim::U32, endian: o },
            Cell { prim: Prim::U32, endian: o },
            Cell { prim: Prim::U32, endian: o },
            Cell { prim: Prim::U32, endian: o },
            Cell { prim: Prim::U32, endian: o },
            Cell { prim: Prim::U32, endian: o },
            Cell { prim: Prim::U32, endian: o },
            Cell { prim: Prim::U32, endian: o },
            Cell { prim: Prim::U32, endian: o },
            Cell { prim: Prim::U32, endian: o },
            Cell { prim: Prim::U32, endian: o },
            Cell { prim: Prim::U32, endian: o },
            Cell { prim: Prim::U32, endian: o },
            Cell { prim: Prim::U32, endian: o },
            Cell { prim: Prim::U32, endian: o },
            Cell { prim: Prim::U32, endian: o },
            Cell { prim: Prim::U32, endian: o },
            Cell { prim: Prim::U32, endian: o },
            Cell { prim: Prim::U32, endian: o },
            Cell { prim: Prim::U32, endian: o },
            Cell { prim: Prim::U32, endian: o },
            Cell { prim: Prim::U32, endian: o },
            Cell { prim: Prim::U32, endian: o },
            Cell { prim: Prim::U32, endian: o },
            Cell { prim: Prim::U32, endian: o },
            Cell { prim: Prim::U32, endian: o },
            Cell { prim: Prim::U32, endian: o },
            Cell { prim: Prim::U32, endian: o },
            Cell { prim: Prim::U32, endian: o },
            Cell { prim: Prim::U32, endian: o },
            Cell { prim: Prim::U32, endian: o },
            Cell { prim: Prim::U32, endian: o },
            Cell { prim: Prim::U32, endian: o },
            Cell { prim: Prim::U32, endian: o },
            Cell { prim: Prim::U32, endian: o },
            Cell { prim: Prim::U32, endian: o },
            Cell { prim: Prim::U32, endian: o },
            Cell { prim: Prim::U32, endian: o },
            Cell { prim: Prim::U32, endian: o },
            Cell { prim: Prim::U32, endian: o },
            Cell { prim: Prim::U32, endian: o },
            Cell { prim: Prim::U32, endian: o },
            Cell { prim: Prim::U32, endian: o },
            Cell { prim: Prim::U32, endian: o },
            Cell { prim: Prim::U32, endian: o },
            Cell { prim: Prim::U32, endian: o },
            Cell { prim: Prim::U32, endian: o },
        ]
    }

    open spec fn spec_cells(&self, o: Endian) -> Seq<u64> {
        self.base.spec_cells(o) + seq![
            self.unk_90 as u64,
            self.unk_91 as u64,
            self.unk_92 as u64,
            self.unk_93 as u64,
            self.unk_94 as u64,
            self.unk_95 as u64,
            self.unk_96 as u64,
            self.unk_97 as u64,
            self.unk_98 as u64,
            self.unk_99 as u64,
            self.unk_100 as u64,
            self.unk_101 as u64,
            self.unk_102 as u64,
            self.unk_103 as u64,
            self.unk_104 as u64,
            self.unk_105 as u64,
            self.unk_106 as u64,
            self.unk_107 as u64,
            self.unk_108 as u64,
            self.unk_109 as u64,
            self.unk_110 as u64,
            self.unk_111 as u64,
            self.unk_112 as u64,
            self.unk_113 as u64,
            self.unk_114 as u64,
            self.unk_115 as u64,
            self.unk_116 as u64,
            self.unk_117 as u64,
            self.unk_118 as u64,
            self.unk_119 as u64,
            self.unk_120 as u64,
            self.unk_121 as u64,
            self.unk_122 as u64,
            self.unk_123 as u64,
            self.unk_124 as u64,
            self.unk_125 as u64,
            self.unk_126 as u64,
            self.unk_127 as u64,
            self.unk_128 as u64,
            self.unk_129 as u64,
            self.unk_130 as u64,
            self.unk_131 as u64,
            self.unk_132 as u64,
            self.unk_133 as u64,
            self.unk_134 as u64,
            self.unk_135 as u64,
            self.unk_136 as u64,
            self.unk_137 as u64,
            self.unk_138 as u64,
            self.unk_139 as u64,
            self.unk_140 as u64,
            self.unk_141 as u64,
            self.unk_142 as u64,
            self.unk_143 as u64,
            self.unk_144 as u64,
            self.unk_145 as u64,
        ]
    }

    open spec fn spec_from_cells(c: Seq<u64>, o: Endian) -> Self {
        Mat4 {
            base: MatBase::spec_from_cells(c.take(91), o),
            unk_90: c[91] as u32,
            unk_91: c[92] as u32,
            unk_92: c[93] as u32,
            unk_93: c[94] as u32,
            unk_94: c[95] as u32,
            unk_95: c[96] as u32,
            unk_96: c[97] as u32,
            unk_97: c[98] as u32,
            unk_98: c[99] as u32,
            unk_99: c[100] as u32,
            unk_100: c[101] as u32,
            unk_101: c[102] as u32,
            unk_102: c[103] as u32,
            unk_103: c[104] as u32,
            unk_104: c[105] as u32,
            unk_105: c[106] as u32,
            unk_106: c[107] as u32,
            unk_107: c[108] as u32,
            unk_108: c[109] as u32,
            unk_109: c[110] as u32,
            unk_110: c[111] as u32,
            unk_111: c[112] as u32,
            unk_112: c[113] as u32,
            unk_113: c[114] as u32,
            unk_114: c[115] as u32,
            unk_115: c[116] as u32,
            unk_116: c[117] as u32,
            unk_117: c[118] as u32,
            unk_118: c[119] as u32,
            unk_119: c[120] as u32,
            unk_120: c[121] as u32,
            unk_121: c[122] as u32,
            unk_122: c[123] as u32,
            unk_123: c[124] as u32,
            unk_124: c[125] as u32,
            unk_125: c[126] as u32,
            unk_126: c[127] as u32,
            unk_127: c[128] as u32,
            unk_128: c[129] as u32,
            unk_129: c[130] as u32,
            unk_130: c[131] as u32,
            unk_131: c[132] as u32,
            unk_132: c[133] as u32,
            unk_133: c[134] as u32,
            unk_134: c[135] as u32,
            unk_135: c[136] as u32,
            unk_136: c[137] as u32,
            unk_137: c[138] as u32,
            unk_138: c[139] as u32,
            unk_139: c[140] as u32,
            unk_140: c[141] as u32,
            unk_141: c[142] as u32,
            unk_142: c[143] as u32,
            unk_143: c[144] as u32,
            unk_144: c[145] as u32,
            unk_145: c[146] as u32,
        }
    }

    open spec fn spec_values(&self) -> Seq<u64> {
        self.base.spec_values() + seq![
            self.unk_90 as u64,
            self.unk_91 as u64,
            self.unk_92 as u64,
            self.unk_93 as u64,
            self.unk_94 as u64,
            self.unk_95 as u64,
            self.unk_96 as u64,
            self.unk_97 as u64,
            self.unk_98 as u64,
            self.unk_99 as u64,
            self.unk_100 as u64,
            self.unk_101 as u64,
            self.unk_102 as u64,
            self.unk_103 as u64,
            self.unk_104 as u64,
            self.unk_105 as u64,
            self.unk_106 as u64,
            self.unk_107 as u64,
            self.unk_108 as u64,
            self.unk_109 as u64,
            self.unk_110 as u64,
            self.unk_111 as u64,
            self.unk_112 as u64,
            self.unk_113 as u64,
            self.unk_114 as u64,
            self.unk_115 as u64,
            self.unk_116 as u64,
            self.unk_117 as u64,
            self.unk_118 as u64,
            self.unk_119 as u64,
            self.unk_120 as u64,
            self.unk_121 as u64,
            self.unk_122 as u64,
            self.unk_123 as u64,
            self.unk_124 as u64,
            self.unk_125 as u64,
            self.unk_126 as u64,
            self.unk_127 as u64,
            self.unk_128 as u64,
            self.unk_129 as u64,
            self.unk_130 as u64,
            self.unk_131 as u64,
            self.unk_132 as u64,
            self.unk_133 as u64,
            self.unk_134 as u64,
            self.unk_135 as u64,
            self.unk_136 as u64,
            self.unk_137 as u64,
            self.unk_138 as u64,
            self.unk_139 as u64,
            self.unk_140 as u64,
            self.unk_141 as u64,
            self.unk_142 as u64,
            self.unk_143 as u64,
            self.unk_144 as u64,
            self.unk_145 as u64,
        ]
    }

    open spec fn spec_fits(&self, o: Endian) -> bool {
        self.base.spec_fits(o)
    }

    #[verifier::rlimit(100)]
    #[verifier::spinoff_prover]
    fn layout(o: Endian) -> (r: Vec<Cell>) {
        let mut v = MatBase::layout(o);
        let rest: Vec<Cell> = vec![
            Cell { prim: Prim::U32, endian: o },
            Cell { prim: Prim::U32, endian: o },
            Cell { prim: Prim::U32, endian: o },
            Cell { prim: Prim::U32, endian: o },
            Cell { prim: Prim::U32, endian: o },
            Cell { prim: Prim::U32, endian: o },
            Cell { prim: Prim::U32, endian: o },
            Cell { prim: Prim::U32, endian: o },
            Cell { prim: Prim::U32, endian: o },
            Cell { prim: Prim::U32, endian: o },
            Cell { prim: Prim::U32, endian: o },
            Cell { prim: Prim::U32, endian: o },
            Cell { prim: Prim::U32, endian: o },
            Cell { prim: Prim::U32, endian: o },
            Cell { prim: Prim::U32, endian: o },
            Cell { prim: Prim::U32, endian: o },
            Cell { prim: Prim::U32, endian: o },
            Cell { prim: Prim::U32, endian: o },
            Cell { prim: Prim::U32, endian: o },
            Cell { prim: Prim::U32, endian: o },
            Cell { prim: Prim::U32, endian: o },
            Cell { prim: Prim::U32, endian: o },
            Cell { prim: Prim::U32, endian: o },
            Cell { prim: Prim::U32, endian: o },
            Cell { prim: Prim::U32, endian: o },
            Cell { prim: Prim::U32, endian: o },
            Cell { prim: Prim::U32, endian: o },
            Cell { prim: Prim::U32, endian: o },
            Cell { prim: Prim::U32, endian: o },
            Cell { prim: Prim::U32, endian: o },
            Cell { prim: Prim::U32, endian: o },
            Cell { prim: Prim::U32, endian: o },
            Cell { prim: Prim::U32, endian: o },
            Cell { prim: Prim::U32, endian: o },
            Cell { prim: Prim::U32, endian: o },
            Cell { prim: Prim::U32, endian: o },
            Cell { prim: Prim::U32, endian: o },
            Cell { prim: Prim::U32, endian: o },
            Cell { prim: Prim::U32, endian: o },
            Cell { prim: Prim::U32, endian: o },
            Cell { prim: Prim::U32, endian: o },
            Cell { prim: Prim::U32, endian: o },
            Cell { prim: Prim::U32, endian: o },
            Cell { prim: Prim::U32, endian: o },
            Cell { prim: Prim::U32, endian: o },
            Cell { prim: Prim::U32, endian: o },
            Cell { prim: Prim::U32, endian: o },
            Cell { prim: Prim::U32, endian: o },
            Cell { prim: Prim::U32, endian: o },
            Cell { prim: Prim::U32, endian: o },
            Cell { prim: Prim::U32, endian: o },
            Cell { prim: Prim::U32, endian: o },
            Cell { prim: Prim::U32, endian: o },
            Cell { prim: Prim::U32, endian: o },
            Cell { prim: Prim::U32, endian: o },
            Cell { prim: Prim::U32, endian: o },
        ];
        extend_from(&mut v, &rest);
        v
    }

    #[verifier::rlimit(100)]
    #[verifier::spinoff_prover]
    fn to_cells(&self, o: Endian) -> (r: Vec<u64>) {
        let mut v = self.base.to_cells(o);
        let rest: Vec<u64> = vec![
            self.unk_90 as u64,
            self.unk_91 as u64,
            self.unk_92 as u64,
            self.unk_93 as u64,
            self.unk_94 as u64,
            self.unk_95 as u64,
            self.unk_96 as u64,
            self.unk_97 as u64,
            self.unk_98 as u64,
            self.unk_99 as u64,
            self.unk_100 as u64,
            self.unk_101 as u64,
            self.unk_102 as u64,
            self.unk_103 as u64,
            self.unk_104 as u64,
            self.unk_105 as u64,
            self.unk_106 as u64,
            self.unk_107 as u64,
            self.unk_108 as u64,
            self.unk_109 as u64,
            self.unk_110 as u64,
            self.unk_111 as u64,
            self.unk_112 as u64,
            self.unk_113 as u64,
            self.unk_114 as u64,
            self.unk_115 as u64,
            self.unk_116 as u64,
            self.unk_117 as u64,
            self.unk_118 as u64,
            self.unk_119 as u64,
            self.unk_120 as u64,
            self.unk_121 as u64,
            self.unk_122 as u64,
            self.unk_123 as u64,
            self.unk_124 as u64,
            self.unk_125 as u64,
            self.unk_126 as u64,
            self.unk_127 as u64,
            self.unk_128 as u64,
            self.unk_129 as u64,
            self.unk_130 as u64,
            self.unk_131 as u64,
            self.unk_132 as u64,
            self.unk_133 as u64,
            self.unk_134 as u64,
            self.unk_135 as u64,
            self.unk_136 as u64,
            self.unk_137 as u64,
            self.unk_138 as u64,
            self.unk_139 as u64,
            self.unk_140 as u64,
            self.unk_141 as u64,
            self.unk_142 as u64,
            self.unk_143 as u64,
            self.unk_144 as u64,
            self.unk_145 as u64,
        ];
        extend_from(&mut v, &rest);
        v
    }

    #[verifier::rlimit(100)]
    #[verifier::spinoff_prover]
    fn from_cells(c: &Vec<u64>, o: Endian) -> (r: Self) {
        let b = head_cells(c, 91);
        proof {
            lemma_head_fits(MatBase::spec_layout(o), Self::spec_layout(o), c@, 91);
        }
        let base = MatBase::from_cells(&b, o);
        Mat4 {
            base,
            unk_90: c[91] as u32,
            unk_91: c[92] as u32,
            unk_92: c[93] as u32,
            unk_93: c[94] as u32,
            unk_94: c[95] as u32,
            unk_95: c[96] as u32,
            unk_96: c[97] as u32,
            unk_97: c[98] as u32,
            unk_98: c[99] as u32,
            unk_99: c[100] as u32,
            unk_100: c[101] as u32,
            unk_101: c[102] as u32,
            unk_102: c[103] as u32,
            unk_103: c[104] as u32,
            unk_104: c[105] as u32,
            unk_105: c[106] as u32,
            unk_106: c[107] as u32,
            unk_107: c[108] as u32,
            unk_108: c[109] as u32,
            unk_109: c[110] as u32,
            unk_110: c[111] as u32,
            unk_111: c[112] as u32,
            unk_112: c[113] as u32,
            unk_113: c[114] as u32,
            unk_114: c[115] as u32,
            unk_115: c[116] as u32,
            unk_116: c[117] as u32,
            unk_117: c[118] as u32,
            unk_118: c[119] as u32,
            unk_119: c[120] as u32,
            unk_120: c[121] as u32,
            unk_121: c[122] as u32,
            unk_122: c[123] as u32,
            unk_123: c[124] as u32,
            unk_124: c[125] as u32,
            unk_125: c[126] as u32,
            unk_126: c[127] as u32,
            unk_127: c[128] as u32,
            unk_128: c[129] as u32,
            unk_129: c[130] as u32,
            unk_130: c[131] as u32,
            unk_131: c[132] as u32,
            unk_132: c[133] as u32,
            unk_133: c[134] as u32,
            unk_134: c[135] as u32,
            unk_135: c[136] as u32,
            unk_136: c[137] as u32,
            unk_137: c[138] as u32,
            unk_138: c[139] as u32,
            unk_139: c[140] as u32,
            unk_140: c[141] as u32,
            unk_141: c[142] as u32,
            unk_142: c[143] as u32,
            unk_143: c[144] as u32,
            unk_144: c[145] as u32,
            unk_145: c[146] as u32,
        }
    }

    open spec fn spec_keys_resolved(&self, m: Map<u32, Seq<char>>) -> bool {
        self.base.spec_keys_resolved(m)
    }

    #[verifier::rlimit(100)]
    #[verifier::spinoff_prover]
    fn resolved(&self, table: &StringTable) -> (r: Self) {
        Mat4 {
            base: self.base.resolved(table),
            unk_90: self.unk_90,
            unk_91: self.unk_91,
            unk_92: self.unk_92,
            unk_93: self.unk_93,
            unk_94: self.unk_94,
            unk_95: self.unk_95,
            unk_96: self.unk_96,
            unk_97: self.unk_97,
            unk_98: self.unk_98,
            unk_99: self.unk_99,
            unk_100: self.unk_100,
            unk_101: self.unk_101,
            unk_102: self.unk_102,
            unk_103: self.unk_103,
            unk_104: self.unk_104,
            unk_105: self.unk_105,
            unk_106: self.unk_106,
            unk_107: self.unk_107,
            unk_108: self.unk_108,
            unk_109: self.unk_109,
            unk_110: self.unk_110,
            unk_111: self.unk_111,
            unk_112: self.unk_112,
            unk_113: self.unk_113,
            unk_114: self.unk_114,
            unk_115: self.unk_115,
            unk_116: self.unk_116,
            unk_117: self.unk_117,
            unk_118: self.unk_118,
            unk_119: self.unk_119,
            unk_120: self.unk_120,
            unk_121: self.unk_121,
            unk_122: self.unk_122,
            unk_123: self.unk_123,
            unk_124: self.unk_124,
            unk_125: self.unk_125,
            unk_126: self.unk_126,
            unk_127: self.unk_127,
            unk_128: self.unk_128,
            unk_129: self.unk_129,
            unk_130: self.unk_130,
            unk_131: self.unk_131,
            unk_132: self.unk_132,
            unk_133: self.unk_133,
            unk_134: self.unk_134,
            unk_135: self.unk_135,
            unk_136: self.unk_136,
            unk_137: self.unk_137,
            unk_138: self.unk_138,
            unk_139: self.unk_139,
            unk_140: self.unk_140,
            unk_141: self.unk_141,
            unk_142: self.unk_142,
            unk_143: self.unk_143,
            unk_144: self.unk_144,
            unk_145: self.unk_145,
        }
    }

    proof fn lemma_layout_small(o: Endian) {
        MatBase::lemma_layout_small(o);
    }

    #[verifier::rlimit(100)]
    #[verifier::spinoff_prover]
    proof fn lemma_cells(&self, o: Endian) {
        self.base.lemma_cells(o);
        lemma_concat_fits(MatBase::spec_layout(o), self.base.spec_cells(o), seq![
            Cell { prim: Prim::U32, endian: o },
            Cell { prim: Prim::U32, endian: o },
            Cell { prim: Prim::U32, endian: o },
            Cell { prim: Prim::U32, endian: o },
            Cell { prim: Prim::U32, endian: o },
            Cell { prim: Prim::U32, endian: o },
            Cell { prim: Prim::U32, endian: o },
            Cell { prim: Prim::U32, endian: o },
            Cell { prim: Prim::U32, endian: o },
            Cell { prim: Prim::U32, endian: o },
            Cell { prim: Prim::U32, endian: o },
            Cell { prim: Prim::U32, endian: o },
            Cell { prim: Prim::U32, endian: o },
            Cell { prim: Prim::U32, endian: o },
            Cell { prim: Prim::U32, endian: o },
            Cell { prim: Prim::U32, endian: o },
            Cell { prim: Prim::U32, endian: o },
            Cell { prim: Prim::U32, endian: o },
            Cell { prim: Prim::U32, endian: o },
            Cell { prim: Prim::U32, endian: o },
            Cell { prim: Prim::U32, endian: o },
            Cell { prim: Prim::U32, endian: o },
            Cell { prim: Prim::U32, endian: o },
            Cell { prim: Prim::U32, endian: o },
            Cell { prim: Prim::U32, endian: o },
            Cell { prim: Prim::U32, endian: o },
            Cell { prim: Prim::U32, endian: o },
            Cell { prim: Prim::U32, endian: o },
            Cell { prim: Prim::U32, endian: o },
            Cell { prim: Prim::U32, endian: o },
            Cell { prim: Prim::U32, endian: o },
            Cell { prim: Prim::U32, endian: o },
            Cell { prim: Prim::U32, endian: o },
            Cell { prim: Prim::U32, endian: o },
            Cell { prim: Prim::U32, endian: o },
            Cell { prim: Prim::U32, endian: o },
            Cell { prim: Prim::U32, endian: o },
            Cell { prim: Prim::U32, endian: o },
            Cell { prim: Prim::U32, endian: o },
            Cell { prim: Prim::U32, endian: o },
            Cell { prim: Prim::U32, endian: o },
            Cell { prim: Prim::U32, endian: o },
            Cell { prim: Prim::U32, endian: o },
            Cell { prim: Prim::U32, endian: o },
            Cell { prim: Prim::U32, endian: o },
            Cell { prim: Prim::U32, endian: o },
            Cell { prim: Prim::U32, endian: o },
            Cell { prim: Prim::U32, endian: o },
            Cell { prim: Prim::U32, endian: o },
            Cell { prim: Prim::U32, endian: o },
            Cell { prim: Prim::U32, endian: o },
            Cell { prim: Prim::U32, endian: o },
            Cell { prim: Prim::U32, endian: o },
            Cell { prim: Prim::U32, endian: o },
            Cell { prim: Prim::U32, endian: o },
            Cell { prim: Prim::U32, endian: o },
        ], seq![
            self.unk_90 as u64,
            self.unk_91 as u64,
            self.unk_92 as u64,
            self.unk_93 as u64,
            self.unk_94 as u64,
            self.unk_95 as u64,
            self.unk_96 as u64,
            self.unk_97 as u64,
            self.unk_98 as u64,
            self.unk_99 as u64,
            self.unk_100 as u64,
            self.unk_101 as u64,
            self.unk_102 as u64,
            self.unk_103 as u64,
            self.unk_104 as u64,
            self.unk_105 as u64,
            self.unk_106 as u64,
            self.unk_107 as u64,
            self.unk_108 as u64,
            self.unk_109 as u64,
            self.unk_110 as u64,
            self.unk_111 as u64,
            self.unk_112 as u64,
            self.unk_113 as u64,
            self.unk_114 as u64,
            self.unk_115 as u64,
            self.unk_116 as u64,
            self.unk_117 as u64,
            self.unk_118 as u64,
            self.unk_119 as u64,
            self.unk_120 as u64,
            self.unk_121 as u64,
            self.unk_122 as u64,
            self.unk_123 as u64,
            self.unk_124 as u64,
            self.unk_125 as u64,
            self.unk_126 as u64,
            self.unk_127 as u64,
            self.unk_128 as u64,
            self.unk_129 as u64,
            self.unk_130 as u64,
            self.unk_131 as u64,
            self.unk_132 as u64,
            self.unk_133 as u64,
            self.unk_134 as u64,
            self.unk_135 as u64,
            self.unk_136 as u64,
            self.unk_137 as u64,
            self.unk_138 as u64,
            self.unk_139 as u64,
            self.unk_140 as u64,
            self.unk_141 as u64,
            self.unk_142 as u64,
            self.unk_143 as u64,
            self.unk_144 as u64,
            self.unk_145 as u64,
        ]);
        assert((self.base.spec_cells(o) + seq![
            self.unk_90 as u64,
            self.unk_91 as u64,
            self.unk_92 as u64,
            self.unk_93 as u64,
            self.unk_94 as u64,
            self.unk_95 as u64,
            self.unk_96 as u64,
            self.unk_97 as u64,
            self.unk_98 as u64,
            self.unk_99 as u64,
            self.unk_100 as u64,
            self.unk_101 as u64,
            self.unk_102 as u64,
            self.unk_103 as u64,
            self.unk_104 as u64,
            self.unk_105 as u64,
            self.unk_106 as u64,
            self.unk_107 as u64,
            self.unk_108 as u64,
            self.unk_109 as u64,
            self.unk_110 as u64,
            self.unk_111 as u64,
            self.unk_112 as u64,
            self.unk_113 as u64,
            self.unk_114 as u64,
            self.unk_115 as u64,
            self.unk_116 as u64,
            self.unk_117 as u64,
            self.unk_118 as u64,
            self.unk_119 as u64,
            self.unk_120 as u64,
            self.unk_121 as u64,
            self.unk_122 as u64,
            self.unk_123 as u64,
            self.unk_124 as u64,
            self.unk_125 as u64,
            self.unk_126 as u64,
            self.unk_127 as u64,
            self.unk_128 as u64,
            self.unk_129 as u64,
            self.unk_130 as u64,
            self.unk_131 as u64,
            self.unk_132 as u64,
            self.unk_133 as u64,
            self.unk_134 as u64,
            self.unk_135 as u64,
            self.unk_136 as u64,
            self.unk_137 as u64,
            self.unk_138 as u64,
            self.unk_139 as u64,
            self.unk_140 as u64,
            self.unk_141 as u64,
            self.unk_142 as u64,
            self.unk_143 as u64,
            self.unk_144 as u64,
            self.unk_145 as u64,
        ]).take(91) =~= self.base.spec_cells(o));
    }
}


/// Illumination data of a level: a table of words in the first block.
#[derive(Debug, Clone)]
pub struct Illumination {
    pub vals: Vec<u32>,
}

impl Illumination {
    /// Reads the `info.num` words at `info.offset` in byte order `o`.
    pub fn from_data(data: &[u8], info: &IlluminationInfo, o: Endian) -> (r: Result<Illumination, CodecError>)
        ensures
            match r {
                Ok(x) => {
                    &&& x.vals@.len() == info.num
                    &&& forall|i: int|
                        0 <= i < info.num ==> #[trigger] x.vals@[i] == spec_read::<u32>(
                            data@.skip(info.offset + i * 4),
                            o,
                        )
                },
                Err(e) => e == CodecError::OutOfBounds && info.offset + info.num * 4 > data@.len(),
            },
    {
        proof {
            lemma_word_size(o);
        }
        match from_bytes_vec::<u32>(data, info.offset as usize, info.num as usize, o) {
            Ok(vals) => Ok(Illumination { vals }),
            Err(e) => Err(e),
        }
    }

    /// The words in byte order `o`.
    pub fn dump(&self, o: Endian) -> (r: Vec<u8>)
        ensures
            r@ == spec_dump_seq(self.vals@, o),
    {
        dump_bytes_vec(&self.vals, o)
    }
}

/// The number of words of foliage data that `info` describes: two per cell
/// of its grid, or nothing when the grid is inverted.
pub open spec fn foliage_words(info: FoliageInfo) -> int {
    (info.s1b - info.s1a) * (info.s2b - info.s2a) * 2
}

/// Foliage data of a level: a grid of vertex words in the first block.
#[derive(Debug, Clone)]
pub struct Foliage {
    pub vals: Vec<u32>,
}

impl Foliage {
    /// Reads the words of the grid that `info` describes, at `info.offset`
    /// in byte order `o`. A grid with negative extent is refused.
    pub fn from_data(data: &[u8], info: &FoliageInfo, o: Endian) -> (r: Result<Foliage, CodecError>)
        ensures
            match r {
                Ok(x) => {
                    &&& 0 <= foliage_words(*info)
                    &&& x.vals@.len() == foliage_words(*info)
                    &&& forall|i: int|
                        0 <= i < x.vals@.len() ==> #[trigger] x.vals@[i] == spec_read::<u32>(
                            data@.skip(info.offset + i * 4),
                            o,
                        )
                },
                Err(e) => (e == CodecError::Malformed && foliage_words(*info) < 0) || (e
                    == CodecError::OutOfBounds && foliage_words(*info) >= 0 && info.offset
                    + foliage_words(*info) * 4 > data@.len()),
            },
    {
        proof {
            lemma_word_size(o);
        }
        let a = (info.s1b as i64) - (info.s1a as i64);
        let b = (info.s2b as i64) - (info.s2a as i64);
        assert(-0x1_0000_0000 <= a <= 0x1_0000_0000 && -0x1_0000_0000 <= b <= 0x1_0000_0000);
        assert(-0x1_0000_0000_0000_0000 <= a * b <= 0x1_0000_0000_0000_0000) by (nonlinear_arith)
            requires
                -0x1_0000_0000 <= a <= 0x1_0000_0000,
                -0x1_0000_0000 <= b <= 0x1_0000_0000,
        ;
        let n = (a as i128) * (b as i128) * 2;
        if n < 0 {
            return Err(CodecError::Malformed);
        }
        let dl = data.len();
        if n > dl as i128 {
            assert(info.offset + foliage_words(*info) * 4 > data@.len()) by (nonlinear_arith)
                requires
                    foliage_words(*info) > data@.len(),
                    info.offset >= 0,
            ;
            return Err(CodecError::OutOfBounds);
        }
        match from_bytes_vec::<u32>(data, info.offset as usize, n as usize, o) {
            Ok(vals) => Ok(Foliage { vals }),
            Err(e) => Err(e),
        }
    }

    /// The words in byte order `o`.
    pub fn dump(&self, o: Endian) -> (r: Vec<u8>)
        ensures
            r@ == spec_dump_seq(self.vals@, o),
    {
        dump_bytes_vec(&self.vals, o)
    }
}

} // verus!
