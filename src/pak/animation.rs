//! Records of skeletal animation data.
use vstd::prelude::*;
#[allow(unused_imports)]
use crate::codec::{lemma_i32_bits, Cell, Endian, OrderedData, Prim};
#[allow(unused_imports)]
use crate::codec::{extend_from, head_cells, lemma_concat_fits, lemma_head_fits};
#[allow(unused_imports)]
use crate::types::{crc_resolved, Crc, StringTable};

verus! {

/// A spline track value stored as one word.
#[derive(Debug, Clone, Copy, PartialEq)]
pub struct HkaSplineSkeletalAnimationObj2Type1(pub u32);

impl OrderedData for HkaSplineSkeletalAnimationObj2Type1 {
    open spec fn spec_layout(o: Endian) -> Seq<Cell> {
        seq![
            Cell { prim: Prim::U32, endian: o },
        ]
    }

    open spec fn spec_cells(&self, o: Endian) -> Seq<u64> {
        seq![
            self.0 as u64,
        ]
    }

    open spec fn spec_from_cells(c: Seq<u64>, o: Endian) -> Self {
        HkaSplineSkeletalAnimationObj2Type1(c[0] as u32)
    }

    open spec fn spec_values(&self) -> Seq<u64> {
        seq![
            self.0 as u64,
        ]
    }

    open spec fn spec_fits(&self, o: Endian) -> bool {
        true
    }

    fn layout(o: Endian) -> (r: Vec<Cell>) {
        vec![
            Cell { prim: Prim::U32, endian: o },
        ]
    }

    fn to_cells(&self, o: Endian) -> (r: Vec<u64>) {
        vec![
            self.0 as u64,
        ]
    }

    fn from_cells(c: &Vec<u64>, o: Endian) -> (r: Self) {
        HkaSplineSkeletalAnimationObj2Type1(c[0] as u32)
    }

    open spec fn spec_keys_resolved(&self, m: Map<u32, Seq<char>>) -> bool {
        true
    }

    fn resolved(&self, table: &StringTable) -> (r: Self) {
        *self
    }

    proof fn lemma_layout_small(o: Endian) {
    }

    proof fn lemma_cells(&self, o: Endian) {
    }
}

/// A spline track value packed in five bytes.
#[derive(Debug, Clone, Copy, PartialEq)]
pub struct HkaSplineSkeletalAnimationObj2Type2(pub u8, pub u8, pub u8, pub u8, pub u8);

impl OrderedData for HkaSplineSkeletalAnimationObj2Type2 {
    open spec fn spec_layout(o: Endian) -> Seq<Cell> {
        seq![
            Cell { prim: Prim::U8, endian: o },
            Cell { prim: Prim::U8, endian: o },
            Cell { prim: Prim::U8, endian: o },
            Cell { prim: Prim::U8, endian: o },
            Cell { prim: Prim::U8, endian: o },
        ]
    }

    open spec fn spec_cells(&self, o: Endian) -> Seq<u64> {
        seq![
            self.0 as u64,
            self.1 as u64,
            self.2 as u64,
            self.3 as u64,
            self.4 as u64,
        ]
    }

    open spec fn spec_from_cells(c: Seq<u64>, o: Endian) -> Self {
        HkaSplineSkeletalAnimationObj2Type2(c[0] as u8, c[1] as u8, c[2] as u8, c[3] as u8, c[4] as u8)
    }

    open spec fn spec_values(&self) -> Seq<u64> {
        seq![
            self.0 as u64,
            self.1 as u64,
            self.2 as u64,
            self.3 as u64,
            self.4 as u64,
        ]
    }

    open spec fn spec_fits(&self, o: Endian) -> bool {
        true
    }

    fn layout(o: Endian) -> (r: Vec<Cell>) {
        vec![
            Cell { prim: Prim::U8, endian: o },
            Cell { prim: Prim::U8, endian: o },
            Cell { prim: Prim::U8, endian: o },
            Cell { prim: Prim::U8, endian: o },
            Cell { prim: Prim::U8, endian: o },
        ]
    }

    fn to_cells(&self, o: Endian) -> (r: Vec<u64>) {
        vec![
            self.0 as u64,
            self.1 as u64,
            self.2 as u64,
            self.3 as u64,
            self.4 as u64,
        ]
    }

    fn from_cells(c: &Vec<u64>, o: Endian) -> (r: Self) {
        HkaSplineSkeletalAnimationObj2Type2(c[0] as u8, c[1] as u8, c[2] as u8, c[3] as u8, c[4] as u8)
    }

    open spec fn spec_keys_resolved(&self, m: Map<u32, Seq<char>>) -> bool {
        true
    }

    fn resolved(&self, table: &StringTable) -> (r: Self) {
        *self
    }

    proof fn lemma_layout_small(o: Endian) {
    }

    proof fn lemma_cells(&self, o: Endian) {
    }
}

/// A spline track value packed in three half-words.
#[derive(Debug, Clone, Copy, PartialEq)]
pub struct HkaSplineSkeletalAnimationObj2Type3(pub u16, pub u16, pub u16);

impl OrderedData for HkaSplineSkeletalAnimationObj2Type3 {
    open spec fn spec_layout(o: Endian) -> Seq<Cell> {
        seq![
            Cell { prim: Prim::U16, endian: o },
            Cell { prim: Prim::U16, endian: o },
            Cell { prim: Prim::U16, endian: o },
        ]
    }

    open spec fn spec_cells(&self, o: Endian) -> Seq<u64> {
        seq![
            self.0 as u64,
            self.1 as u64,
            self.2 as u64,
        ]
    }

    open spec fn spec_from_cells(c: Seq<u64>, o: Endian) -> Self {
        HkaSplineSkeletalAnimationObj2Type3(c[0] as u16, c[1] as u16, c[2] as u16)
    }

    open spec fn spec_values(&self) -> Seq<u64> {
        seq![
            self.0 as u64,
            self.1 as u64,
            self.2 as u64,
        ]
    }

    open spec fn spec_fits(&self, o: Endian) -> bool {
        true
    }

    fn layout(o: Endian) -> (r: Vec<Cell>) {
        vec![
            Cell { prim: Prim::U16, endian: o },
            Cell { prim: Prim::U16, endian: o },
            Cell { prim: Prim::U16, endian: o },
        ]
    }

    fn to_cells(&self, o: Endian) -> (r: Vec<u64>) {
        vec![
            self.0 as u64,
            self.1 as u64,
            self.2 as u64,
        ]
    }

    fn from_cells(c: &Vec<u64>, o: Endian) -> (r: Self) {
        HkaSplineSkeletalAnimationObj2Type3(c[0] as u16, c[1] as u16, c[2] as u16)
    }

    open spec fn spec_keys_resolved(&self, m: Map<u32, Seq<char>>) -> bool {
        true
    }

    fn resolved(&self, table: &StringTable) -> (r: Self) {
        *self
    }

    proof fn lemma_layout_small(o: Endian) {
    }

    proof fn lemma_cells(&self, o: Endian) {
    }
}

/// A spline track value packed in three bytes.
#[derive(Debug, Clone, Copy, PartialEq)]
pub struct HkaSplineSkeletalAnimationObj2Type4(pub u8, pub u8, pub u8);

impl OrderedData for HkaSplineSkeletalAnimationObj2Type4 {
    open spec fn spec_layout(o: Endian) -> Seq<Cell> {
        seq![
            Cell { prim: Prim::U8, endian: o },
            Cell { prim: Prim::U8, endian: o },
            Cell { prim: Prim::U8, endian: o },
        ]
    }

    open spec fn spec_cells(&self, o: Endian) -> Seq<u64> {
        seq![
            self.0 as u64,
            self.1 as u64,
            self.2 as u64,
        ]
    }

    open spec fn spec_from_cells(c: Seq<u64>, o: Endian) -> Self {
        HkaSplineSkeletalAnimationObj2Type4(c[0] as u8, c[1] as u8, c[2] as u8)
    }

    open spec fn spec_values(&self) -> Seq<u64> {
        seq![
            self.0 as u64,
            self.1 as u64,
            self.2 as u64,
        ]
    }

    open spec fn spec_fits(&self, o: Endian) -> bool {
        true
    }

    fn layout(o: Endian) -> (r: Vec<Cell>) {
        vec![
            Cell { prim: Prim::U8, endian: o },
            Cell { prim: Prim::U8, endian: o },
            Cell { prim: Prim::U8, endian: o },
        ]
    }

    fn to_cells(&self, o: Endian) -> (r: Vec<u64>) {
        vec![
            self.0 as u64,
            self.1 as u64,
            self.2 as u64,
        ]
    }

    fn from_cells(c: &Vec<u64>, o: Endian) -> (r: Self) {
        HkaSplineSkeletalAnimationObj2Type4(c[0] as u8, c[1] as u8, c[2] as u8)
    }

    open spec fn spec_keys_resolved(&self, m: Map<u32, Seq<char>>) -> bool {
        true
    }

    fn resolved(&self, table: &StringTable) -> (r: Self) {
        *self
    }

    proof fn lemma_layout_small(o: Endian) {
    }

    proof fn lemma_cells(&self, o: Endian) {
    }
}

/// A spline track value packed in two bytes.
#[derive(Debug, Clone, Copy, PartialEq)]
pub struct HkaSplineSkeletalAnimationObj2Type5(pub u8, pub u8);

impl OrderedData for HkaSplineSkeletalAnimationObj2Type5 {
    open spec fn spec_layout(o: Endian) -> Seq<Cell> {
        seq![
            Cell { prim: Prim::U8, endian: o },
            Cell { prim: Prim::U8, endian: o },
        ]
    }

    open spec fn spec_cells(&self, o: Endian) -> Seq<u64> {
        seq![
            self.0 as u64,
            self.1 as u64,
        ]
    }

    open spec fn spec_from_cells(c: Seq<u64>, o: Endian) -> Self {
        HkaSplineSkeletalAnimationObj2Type5(c[0] as u8, c[1] as u8)
    }

    open spec fn spec_values(&self) -> Seq<u64> {
        seq![
            self.0 as u64,
            self.1 as u64,
        ]
    }

    open spec fn spec_fits(&self, o: Endian) -> bool {
        true
    }

    fn layout(o: Endian) -> (r: Vec<Cell>) {
        vec![
            Cell { prim: Prim::U8, endian: o },
            Cell { prim: Prim::U8, endian: o },
        ]
    }

    fn to_cells(&self, o: Endian) -> (r: Vec<u64>) {
        vec![
            self.0 as u64,
            self.1 as u64,
        ]
    }

    fn from_cells(c: &Vec<u64>, o: Endian) -> (r: Self) {
        HkaSplineSkeletalAnimationObj2Type5(c[0] as u8, c[1] as u8)
    }

    open spec fn spec_keys_resolved(&self, m: Map<u32, Seq<char>>) -> bool {
        true
    }

    fn resolved(&self, table: &StringTable) -> (r: Self) {
        *self
    }

    proof fn lemma_layout_small(o: Endian) {
    }

    proof fn lemma_cells(&self, o: Endian) {
    }
}

/// A spline track value stored as four words.
#[derive(Debug, Clone, Copy, PartialEq)]
pub struct HkaSplineSkeletalAnimationObj2Type6(pub u32, pub u32, pub u32, pub u32);

impl OrderedData for HkaSplineSkeletalAnimationObj2Type6 {
    open spec fn spec_layout(o: Endian) -> Seq<Cell> {
        seq![
            Cell { prim: Prim::U32, endian: o },
            Cell { prim: Prim::U32, endian: o },
            Cell { prim: Prim::U32, endian: o },
            Cell { prim: Prim::U32, endian: o },
        ]
    }

    open spec fn spec_cells(&self, o: Endian) -> Seq<u64> {
        seq![
            self.0 as u64,
            self.1 as u64,
            self.2 as u64,
            self.3 as u64,
        ]
    }

    open spec fn spec_from_cells(c: Seq<u64>, o: Endian) -> Self {
        HkaSplineSkeletalAnimationObj2Type6(c[0] as u32, c[1] as u32, c[2] as u32, c[3] as u32)
    }

    open spec fn spec_values(&self) -> Seq<u64> {
        seq![
            self.0 as u64,
            self.1 as u64,
            self.2 as u64,
            self.3 as u64,
        ]
    }

    open spec fn spec_fits(&self, o: Endian) -> bool {
        true
    }

    fn layout(o: Endian) -> (r: Vec<Cell>) {
        vec![
            Cell { prim: Prim::U32, endian: o },
            Cell { prim: Prim::U32, endian: o },
            Cell { prim: Prim::U32, endian: o },
            Cell { prim: Prim::U32, endian: o },
        ]
    }

    fn to_cells(&self, o: Endian) -> (r: Vec<u64>) {
        vec![
            self.0 as u64,
            self.1 as u64,
            self.2 as u64,
            self.3 as u64,
        ]
    }

    fn from_cells(c: &Vec<u64>, o: Endian) -> (r: Self) {
        HkaSplineSkeletalAnimationObj2Type6(c[0] as u32, c[1] as u32, c[2] as u32, c[3] as u32)
    }

    open spec fn spec_keys_resolved(&self, m: Map<u32, Seq<char>>) -> bool {
        true
    }

    fn resolved(&self, table: &StringTable) -> (r: Self) {
        *self
    }

    proof fn lemma_layout_small(o: Endian) {
    }

    proof fn lemma_cells(&self, o: Endian) {
    }
}

/// Per-track flags of a spline animation.
#[derive(Debug, Clone, Copy, PartialEq)]
pub struct HkaSplineSkeletalAnimationFlags {
    pub f: u8,
    pub a: u8,
    pub b: u8,
    pub c: u8,
}

impl OrderedData for HkaSplineSkeletalAnimationFlags {
    open spec fn spec_layout(o: Endian) -> Seq<Cell> {
        seq![
            Cell { prim: Prim::U8, endian: o },
            Cell { prim: Prim::U8, endian: o },
            Cell { prim: Prim::U8, endian: o },
            Cell { prim: Prim::U8, endian: o },
        ]
    }

    open spec fn spec_cells(&self, o: Endian) -> Seq<u64> {
        seq![
            self.f as u64,
            self.a as u64,
            self.b as u64,
            self.c as u64,
        ]
    }

    open spec fn spec_from_cells(c: Seq<u64>, o: Endian) -> Self {
        HkaSplineSkeletalAnimationFlags {
            f: c[0] as u8,
            a: c[1] as u8,
            b: c[2] as u8,
            c: c[3] as u8,
        }
    }

    open spec fn spec_values(&self) -> Seq<u64> {
        seq![
            self.f as u64,
            self.a as u64,
            self.b as u64,
            self.c as u64,
        ]
    }

    open spec fn spec_fits(&self, o: Endian) -> bool {
        true
    }

    fn layout(o: Endian) -> (r: Vec<Cell>) {
        vec![
            Cell { prim: Prim::U8, endian: o },
            Cell { prim: Prim::U8, endian: o },
            Cell { prim: Prim::U8, endian: o },
            Cell { prim: Prim::U8, endian: o },
        ]
    }

    fn to_cells(&self, o: Endian) -> (r: Vec<u64>) {
        vec![
            self.f as u64,
            self.a as u64,
            self.b as u64,
            self.c as u64,
        ]
    }

    fn from_cells(c: &Vec<u64>, o: Endian) -> (r: Self) {
        HkaSplineSkeletalAnimationFlags {
            f: c[0] as u8,
            a: c[1] as u8,
            b: c[2] as u8,
            c: c[3] as u8,
        }
    }

    open spec fn spec_keys_resolved(&self, m: Map<u32, Seq<char>>) -> bool {
        true
    }

    fn resolved(&self, table: &StringTable) -> (r: Self) {
        *self
    }

    proof fn lemma_layout_small(o: Endian) {
    }

    proof fn lemma_cells(&self, o: Endian) {
    }
}

/// Header of an animation's event table.
#[derive(Debug, Clone, Copy, PartialEq)]
pub struct Obj5Header {
    pub obj_a_num: u32,
    pub obj_a_offset: u32,
    pub obj_b_num: u32,
    pub obj_b_offset: u32,
}

impl OrderedData for Obj5Header {
    open spec fn spec_layout(o: Endian) -> Seq<Cell> {
        seq![
            Cell { prim: Prim::U32, endian: o },
            Cell { prim: Prim::U32, endian: o },
            Cell { prim: Prim::U32, endian: o },
            Cell { prim: Prim::U32, endian: o },
        ]
    }

    open spec fn spec_cells(&self, o: Endian) -> Seq<u64> {
        seq![
            self.obj_a_num as u64,
            self.obj_a_offset as u64,
            self.obj_b_num as u64,
            self.obj_b_offset as u64,
        ]
    }

    open spec fn spec_from_cells(c: Seq<u64>, o: Endian) -> Self {
        Obj5Header {
            obj_a_num: c[0] as u32,
            obj_a_offset: c[1] as u32,
            obj_b_num: c[2] as u32,
            obj_b_offset: c[3] as u32,
        }
    }

    open spec fn spec_values(&self) -> Seq<u64> {
        seq![
            self.obj_a_num as u64,
            self.obj_a_offset as u64,
            self.obj_b_num as u64,
            self.obj_b_offset as u64,
        ]
    }

    open spec fn spec_fits(&self, o: Endian) -> bool {
        true
    }

    fn layout(o: Endian) -> (r: Vec<Cell>) {
        vec![
            Cell { prim: Prim::U32, endian: o },
            Cell { prim: Prim::U32, endian: o },
            Cell { prim: Prim::U32, endian: o },
            Cell { prim: Prim::U32, endian: o },
        ]
    }

    fn to_cells(&self, o: Endian) -> (r: Vec<u64>) {
        vec![
            self.obj_a_num as u64,
            self.obj_a_offset as u64,
            self.obj_b_num as u64,
            self.obj_b_offset as u64,
        ]
    }

    fn from_cells(c: &Vec<u64>, o: Endian) -> (r: Self) {
        Obj5Header {
            obj_a_num: c[0] as u32,
            obj_a_offset: c[1] as u32,
            obj_b_num: c[2] as u32,
            obj_b_offset: c[3] as u32,
        }
    }

    open spec fn spec_keys_resolved(&self, m: Map<u32, Seq<char>>) -> bool {
        true
    }

    fn resolved(&self, table: &StringTable) -> (r: Self) {
        *self
    }

    proof fn lemma_layout_small(o: Endian) {
    }

    proof fn lemma_cells(&self, o: Endian) {
    }
}

} // verus!
