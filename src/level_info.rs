//! Records of the level list table.
use vstd::prelude::*;
#[allow(unused_imports)]
use crate::codec::{lemma_i32_bits, Cell, Endian, OrderedData, Prim};
#[allow(unused_imports)]
use crate::codec::{extend_from, head_cells, lemma_concat_fits, lemma_head_fits};
#[allow(unused_imports)]
use crate::types::{crc_resolved, Crc, StringTable};

verus! {

/// Header of the level list table.
#[derive(Debug, Clone, Copy, PartialEq)]
pub struct Header {
    pub constx04: u32,
    pub dlc: u32,
    pub strings_offset: u32,
    pub strings_size: u32,
    pub strings_num: u32,
    pub string_keys_size: u32,
    pub string_keys_offset: u32,
    pub locale_strings_size: u32,
    pub locale_strings_offset: u32,
    pub gamemodes_num: u32,
    pub gamemodes_offset: u32,
    pub levels_num: u32,
    pub levels_offset: u32,
    pub size2048: u32,
}

impl OrderedData for Header {
    open spec fn spec_layout(o: Endian) -> Seq<Cell> {
        seq![
            Cell { prim: Prim::U32, endian: o },
            Cell { prim: Prim::U32, endian: o },
            Cell { prim: Prim::U32, endian: o },
            Cell { prim: Prim::U32, endian: o },
            Cell { prim: Prim::U32, endian: o },
            Cell { prim: Prim::U32, endian: o },
            Cell { prim: Prim::U32, endian: o },
            Cell { prim: Prim::U32, endian: o },
            Cell { prim: Prim::U32, endian: o },
            Cell { prim: Prim::U32, endian: o },
            Cell { prim: Prim::U32, endian: o },
            Cell { prim: Prim::U32, endian: o },
            Cell { prim: Prim::U32, endian: o },
            Cell { prim: Prim::U32, endian: o },
        ]
    }

    open spec fn spec_cells(&self, o: Endian) -> Seq<u64> {
        seq![
            self.constx04 as u64,
            self.dlc as u64,
            self.strings_offset as u64,
            self.strings_size as u64,
            self.strings_num as u64,
            self.string_keys_size as u64,
            self.string_keys_offset as u64,
            self.locale_strings_size as u64,
            self.locale_strings_offset as u64,
            self.gamemodes_num as u64,
            self.gamemodes_offset as u64,
            self.levels_num as u64,
            self.levels_offset as u64,
            self.size2048 as u64,
        ]
    }

    open spec fn spec_from_cells(c: Seq<u64>, o: Endian) -> Self {
        Header {
            constx04: c[0] as u32,
            dlc: c[1] as u32,
            strings_offset: c[2] as u32,
            strings_size: c[3] as u32,
            strings_num: c[4] as u32,
            string_keys_size: c[5] as u32,
            string_keys_offset: c[6] as u32,
            locale_strings_size: c[7] as u32,
            locale_strings_offset: c[8] as u32,
            gamemodes_num: c[9] as u32,
            gamemodes_offset: c[10] as u32,
            levels_num: c[11] as u32,
            levels_offset: c[12] as u32,
            size2048: c[13] as u32,
        }
    }

    open spec fn spec_values(&self) -> Seq<u64> {
        seq![
            self.constx04 as u64,
            self.dlc as u64,
            self.strings_offset as u64,
            self.strings_size as u64,
            self.strings_num as u64,
            self.string_keys_size as u64,
            self.string_keys_offset as u64,
            self.locale_strings_size as u64,
            self.locale_strings_offset as u64,
            self.gamemodes_num as u64,
            self.gamemodes_offset as u64,
            self.levels_num as u64,
            self.levels_offset as u64,
            self.size2048 as u64,
        ]
    }

    open spec fn spec_fits(&self, o: Endian) -> bool {
        true
    }

    fn layout(o: Endian) -> (r: Vec<Cell>) {
        vec![
            Cell { prim: Prim::U32, endian: o },
            Cell { prim: Prim::U32, endian: o },
            Cell { prim: Prim::U32, endian: o },
            Cell { prim: Prim::U32, endian: o },
            Cell { prim: Prim::U32, endian: o },
            Cell { prim: Prim::U32, endian: o },
            Cell { prim: Prim::U32, endian: o },
            Cell { prim: Prim::U32, endian: o },
            Cell { prim: Prim::U32, endian: o },
            Cell { prim: Prim::U32, endian: o },
            Cell { prim: Prim::U32, endian: o },
            Cell { prim: Prim::U32, endian: o },
            Cell { prim: Prim::U32, endian: o },
            Cell { prim: Prim::U32, endian: o },
        ]
    }

    fn to_cells(&self, o: Endian) -> (r: Vec<u64>) {
        vec![
            self.constx04 as u64,
            self.dlc as u64,
            self.strings_offset as u64,
            self.strings_size as u64,
            self.strings_num as u64,
            self.string_keys_size as u64,
            self.string_keys_offset as u64,
            self.locale_strings_size as u64,
            self.locale_strings_offset as u64,
            self.gamemodes_num as u64,
            self.gamemodes_offset as u64,
            self.levels_num as u64,
            self.levels_offset as u64,
            self.size2048 as u64,
        ]
    }

    fn from_cells(c: &Vec<u64>, o: Endian) -> (r: Self) {
        Header {
            constx04: c[0] as u32,
            dlc: c[1] as u32,
            strings_offset: c[2] as u32,
            strings_size: c[3] as u32,
            strings_num: c[4] as u32,
            string_keys_size: c[5] as u32,
            string_keys_offset: c[6] as u32,
            locale_strings_size: c[7] as u32,
            locale_strings_offset: c[8] as u32,
            gamemodes_num: c[9] as u32,
            gamemodes_offset: c[10] as u32,
            levels_num: c[11] as u32,
            levels_offset: c[12] as u32,
            size2048: c[13] as u32,
        }
    }

    open spec fn spec_keys_resolved(&self, m: Map<u32, Seq<char>>) -> bool {
        true
    }

    fn resolved(&self, table: &StringTable) -> (r: Self) {
        *self
    }

    proof fn lemma_layout_small(o: Endian) {
    }

    proof fn lemma_cells(&self, o: Endian) {
    }
}

/// A game mode entry of the level list table.
#[derive(Debug, Clone, PartialEq)]
pub struct GamemodeVal {
    pub key: Crc,
    pub key_name: Crc,
    pub key_description: Crc,
}

impl OrderedData for GamemodeVal {
    open spec fn spec_layout(o: Endian) -> Seq<Cell> {
        seq![
            Cell { prim: Prim::U32, endian: o },
            Cell { prim: Prim::U32, endian: o },
            Cell { prim: Prim::U32, endian: o },
        ]
    }

    open spec fn spec_cells(&self, o: Endian) -> Seq<u64> {
        seq![
            self.key.spec_key() as u64,
            self.key_name.spec_key() as u64,
            self.key_description.spec_key() as u64,
        ]
    }

    open spec fn spec_from_cells(c: Seq<u64>, o: Endian) -> Self {
        GamemodeVal {
            key: Crc::Key(c[0] as u32),
            key_name: Crc::Key(c[1] as u32),
            key_description: Crc::Key(c[2] as u32),
        }
    }

    open spec fn spec_values(&self) -> Seq<u64> {
        seq![
            self.key.spec_key() as u64,
            self.key_name.spec_key() as u64,
            self.key_description.spec_key() as u64,
        ]
    }

    open spec fn spec_fits(&self, o: Endian) -> bool {
        true
    }

    fn layout(o: Endian) -> (r: Vec<Cell>) {
        vec![
            Cell { prim: Prim::U32, endian: o },
            Cell { prim: Prim::U32, endian: o },
            Cell { prim: Prim::U32, endian: o },
        ]
    }

    fn to_cells(&self, o: Endian) -> (r: Vec<u64>) {
        vec![
            self.key.key() as u64,
            self.key_name.key() as u64,
            self.key_description.key() as u64,
        ]
    }

    fn from_cells(c: &Vec<u64>, o: Endian) -> (r: Self) {
        GamemodeVal {
            key: Crc::Key(c[0] as u32),
            key_name: Crc::Key(c[1] as u32),
            key_description: Crc::Key(c[2] as u32),
        }
    }

    open spec fn spec_keys_resolved(&self, m: Map<u32, Seq<char>>) -> bool {
        crc_resolved(self.key, m) && crc_resolved(self.key_name, m) && crc_resolved(self.key_description, m)
    }

    fn resolved(&self, table: &StringTable) -> (r: Self) {
        GamemodeVal {
            key: Crc::resolve(self.key.key(), table),
            key_name: Crc::resolve(self.key_name.key(), table),
            key_description: Crc::resolve(self.key_description.key(), table),
        }
    }

    proof fn lemma_layout_small(o: Endian) {
    }

    proof fn lemma_cells(&self, o: Endian) {
    }
}

} // verus!
