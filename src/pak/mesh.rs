//! Records inside mesh data.
use vstd::prelude::*;
#[allow(unused_imports)]
use crate::codec::{lemma_i32_bits, Cell, Endian, OrderedData, Prim};
#[allow(unused_imports)]
use crate::codec::{extend_from, head_cells, lemma_concat_fits, lemma_head_fits};
#[allow(unused_imports)]
use crate::types::{crc_resolved, Crc, StringTable};

verus! {

/// Header of a mesh sub-block.
#[derive(Debug, Clone, Copy, PartialEq)]
pub struct BlockHeader {
    pub a: u32,
    pub b: u32,
    pub unk_2: u32,
    pub unk_3: u32,
    pub unk_4: u32,
}

impl OrderedData for BlockHeader {
    open spec fn spec_layout(o: Endian) -> Seq<Cell> {
        seq![
            Cell { prim: Prim::U32, endian: o },
            Cell { prim: Prim::U32, endian: o },
            Cell { prim: Prim::U32, endian: o },
            Cell { prim: Prim::U32, endian: o },
            Cell { prim: Prim::U32, endian: o },
        ]
    }

    open spec fn spec_cells(&self, o: Endian) -> Seq<u64> {
        seq![
            self.a as u64,
            self.b as u64,
            self.unk_2 as u64,
            self.unk_3 as u64,
            self.unk_4 as u64,
        ]
    }

    open spec fn spec_from_cells(c: Seq<u64>, o: Endian) -> Self {
        BlockHeader {
            a: c[0] as u32,
            b: c[1] as u32,
            unk_2: c[2] as u32,
            unk_3: c[3] as u32,
            unk_4: c[4] as u32,
        }
    }

    open spec fn spec_values(&self) -> Seq<u64> {
        seq![
            self.a as u64,
            self.b as u64,
            self.unk_2 as u64,
            self.unk_3 as u64,
            self.unk_4 as u64,
        ]
    }

    open spec fn spec_fits(&self, o: Endian) -> bool {
        true
    }

    fn layout(o: Endian) -> (r: Vec<Cell>) {
        vec![
            Cell { prim: Prim::U32, endian: o },
            Cell { prim: Prim::U32, endian: o },
            Cell { prim: Prim::U32, endian: o },
            Cell { prim: Prim::U32, endian: o },
            Cell { prim: Prim::U32, endian: o },
        ]
    }

    fn to_cells(&self, o: Endian) -> (r: Vec<u64>) {
        vec![
            self.a as u64,
            self.b as u64,
            self.unk_2 as u64,
            self.unk_3 as u64,
            self.unk_4 as u64,
        ]
    }

    fn from_cells(c: &Vec<u64>, o: Endian) -> (r: Self) {
        BlockHeader {
            a: c[0] as u32,
            b: c[1] as u32,
            unk_2: c[2] as u32,
            unk_3: c[3] as u32,
            unk_4: c[4] as u32,
        }
    }

    open spec fn spec_keys_resolved(&self, m: Map<u32, Seq<char>>) -> bool {
        true
    }

    fn resolved(&self, table: &StringTable) -> (r: Self) {
        *self
    }

    proof fn lemma_layout_small(o: Endian) {
    }

    proof fn lemma_cells(&self, o: Endian) {
    }
}

/// An entry of a mesh sub-block.
#[derive(Debug, Clone, Copy, PartialEq)]
pub struct BlockVal {
    pub unk_0: u32,
    pub unk_1: u32,
    pub unk_2: u32,
    pub unk_3: u32,
    pub unk_4: u16,
    pub unk_5: u16,
}

impl OrderedData for BlockVal {
    open spec fn spec_layout(o: Endian) -> Seq<Cell> {
        seq![
            Cell { prim: Prim::U32, endian: o },
            Cell { prim: Prim::U32, endian: o },
            Cell { prim: Prim::U32, endian: o },
            Cell { prim: Prim::U32, endian: o },
            Cell { prim: Prim::U16, endian: o },
            Cell { prim: Prim::U16, endian: o },
        ]
    }

    open spec fn spec_cells(&self, o: Endian) -> Seq<u64> {
        seq![
            self.unk_0 as u64,
            self.unk_1 as u64,
            self.unk_2 as u64,
            self.unk_3 as u64,
            self.unk_4 as u64,
            self.unk_5 as u64,
        ]
    }

    open spec fn spec_from_cells(c: Seq<u64>, o: Endian) -> Self {
        BlockVal {
            unk_0: c[0] as u32,
            unk_1: c[1] as u32,
            unk_2: c[2] as u32,
            unk_3: c[3] as u32,
            unk_4: c[4] as u16,
            unk_5: c[5] as u16,
        }
    }

    open spec fn spec_values(&self) -> Seq<u64> {
        seq![
            self.unk_0 as u64,
            self.unk_1 as u64,
            self.unk_2 as u64,
            self.unk_3 as u64,
            self.unk_4 as u64,
            self.unk_5 as u64,
        ]
    }

    open spec fn spec_fits(&self, o: Endian) -> bool {
        true
    }

    fn layout(o: Endian) -> (r: Vec<Cell>) {
        vec![
            Cell { prim: Prim::U32, endian: o },
            Cell { prim: Prim::U32, endian: o },
            Cell { prim: Prim::U32, endian: o },
            Cell { prim: Prim::U32, endian: o },
            Cell { prim: Prim::U16, endian: o },
            Cell { prim: Prim::U16, endian: o },
        ]
    }

    fn to_cells(&self, o: Endian) -> (r: Vec<u64>) {
        vec![
            self.unk_0 as u64,
            self.unk_1 as u64,
            self.unk_2 as u64,
            self.unk_3 as u64,
            self.unk_4 as u64,
            self.unk_5 as u64,
        ]
    }

    fn from_cells(c: &Vec<u64>, o: Endian) -> (r: Self) {
        BlockVal {
            unk_0: c[0] as u32,
            unk_1: c[1] as u32,
            unk_2: c[2] as u32,
            unk_3: c[3] as u32,
            unk_4: c[4] as u16,
            unk_5: c[5] as u16,
        }
    }

    open spec fn spec_keys_resolved(&self, m: Map<u32, Seq<char>>) -> bool {
        true
    }

    fn resolved(&self, table: &StringTable) -> (r: Self) {
        *self
    }

    proof fn lemma_layout_small(o: Endian) {
    }

    proof fn lemma_cells(&self, o: Endian) {
    }
}

} // verus!
