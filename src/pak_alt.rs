//! Records of the rebuilt payload layout.
use vstd::prelude::*;
#[allow(unused_imports)]
use crate::codec::{lemma_i32_bits, Cell, Endian, OrderedData, Prim};
#[allow(unused_imports)]
use crate::codec::{extend_from, head_cells, lemma_concat_fits, lemma_head_fits};
#[allow(unused_imports)]
use crate::types::{crc_resolved, Crc, StringTable};
use crate::codec::{from_bytes, spec_read, spec_size, CodecError};
use crate::pak::{Mat2, Mat3, Mat4, MatBase};

verus! {

/// A pair of a symbolic key and a word.
#[derive(Debug, Clone, PartialEq)]
pub struct Key2 {
    pub key: Crc,
    pub val: u32,
}

impl OrderedData for Key2 {
    open spec fn spec_layout(o: Endian) -> Seq<Cell> {
        seq![
            Cell { prim: Prim::U32, endian: o },
            Cell { prim: Prim::U32, endian: o },
        ]
    }

    open spec fn spec_cells(&self, o: Endian) -> Seq<u64> {
        seq![
            self.key.spec_key() as u64,
            self.val as u64,
        ]
    }

    open spec fn spec_from_cells(c: Seq<u64>, o: Endian) -> Self {
        Key2 {
            key: Crc::Key(c[0] as u32),
            val: c[1] as u32,
        }
    }

    open spec fn spec_values(&self) -> Seq<u64> {
        seq![
            self.key.spec_key() as u64,
            self.val as u64,
        ]
    }

    open spec fn spec_fits(&self, o: Endian) -> bool {
        true
    }

    fn layout(o: Endian) -> (r: Vec<Cell>) {
        vec![
            Cell { prim: Prim::U32, endian: o },
            Cell { prim: Prim::U32, endian: o },
        ]
    }

    fn to_cells(&self, o: Endian) -> (r: Vec<u64>) {
        vec![
            self.key.key() as u64,
            self.val as u64,
        ]
    }

    fn from_cells(c: &Vec<u64>, o: Endian) -> (r: Self) {
        Key2 {
            key: Crc::Key(c[0] as u32),
            val: c[1] as u32,
        }
    }

    open spec fn spec_keys_resolved(&self, m: Map<u32, Seq<char>>) -> bool {
        crc_resolved(self.key, m)
    }

    fn resolved(&self, table: &StringTable) -> (r: Self) {
        Key2 {
            key: Crc::resolve(self.key.key(), table),
            val: self.val,
        }
    }

    proof fn lemma_layout_small(o: Endian) {
    }

    proof fn lemma_cells(&self, o: Endian) {
    }
}


/// A material record, of one of four kinds. The kind is the word 208 bytes
/// into the record.
#[derive(Debug, Clone)]
pub enum Mat {
    Mat1(MatBase),
    Mat2(Mat2),
    Mat3(Mat3),
    Mat4(Mat4),
}

/// Where a material record's kind word lies within it.
pub const MAT_KIND_OFFSET: usize = 208;

/// The material record at `offset` of `data`, read as the kind its kind word
/// names; kinds other than the four known ones are refused.
#[verifier::opaque]
pub open spec fn mat_of(data: Seq<u8>, offset: nat, o: Endian) -> Result<Mat, CodecError> {
    let kind_at = offset + MAT_KIND_OFFSET;
    if kind_at + 4 > data.len() {
        Err(CodecError::OutOfBounds)
    } else {
        let ty = spec_read::<u32>(data.skip(kind_at as int), o);
        let rest = data.skip(offset as int);
        if ty == 0 {
            if offset + spec_size::<MatBase>(o) > data.len() {
                Err(CodecError::OutOfBounds)
            } else {
                Ok(Mat::Mat1(spec_read::<MatBase>(rest, o)))
            }
        } else if ty == 1 {
            if offset + spec_size::<Mat4>(o) > data.len() {
                Err(CodecError::OutOfBounds)
            } else {
                Ok(Mat::Mat4(spec_read::<Mat4>(rest, o)))
            }
        } else if ty == 2 {
            if offset + spec_size::<Mat2>(o) > data.len() {
                Err(CodecError::OutOfBounds)
            } else {
                Ok(Mat::Mat2(spec_read::<Mat2>(rest, o)))
            }
        } else if ty == 3 {
            if offset + spec_size::<Mat3>(o) > data.len() {
                Err(CodecError::OutOfBounds)
            } else {
                Ok(Mat::Mat3(spec_read::<Mat3>(rest, o)))
            }
        } else {
            Err(CodecError::Malformed)
        }
    }
}

impl Mat {
    /// The part shared by all material kinds.
    pub open spec fn spec_base(&self) -> MatBase {
        match self {
            Mat::Mat1(m) => *m,
            Mat::Mat2(m) => m.base,
            Mat::Mat3(m) => m.base,
            Mat::Mat4(m) => m.base,
        }
    }

    /// The same material with its shared part replaced by `b`.
    pub open spec fn with_base(&self, b: MatBase) -> Mat {
        match self {
            Mat::Mat1(_) => Mat::Mat1(b),
            Mat::Mat2(m) => Mat::Mat2(Mat2 { base: b, ..*m }),
            Mat::Mat3(m) => Mat::Mat3(Mat3 { base: b, ..*m }),
            Mat::Mat4(m) => Mat::Mat4(Mat4 { base: b, ..*m }),
        }
    }

    /// Reads the material record at `offset`, dispatching on its kind word.
    #[verifier::rlimit(100)]
    pub fn from_data(data: &[u8], offset: usize, o: Endian) -> (r: Result<Mat, CodecError>)
        ensures
            r == mat_of(data@, offset as nat, o),
    {
        proof {
            crate::codec::lemma_word_size(o);
            reveal(mat_of);
        }
        let n = data.len();
        if offset > usize::MAX - MAT_KIND_OFFSET {
            return Err(CodecError::OutOfBounds);
        }
        let ty: u32 = match from_bytes(data, offset + MAT_KIND_OFFSET, o) {
            Ok(t) => t,
            Err(e) => {
                return Err(e);
            },
        };
        if ty == 0 {
            match from_bytes::<MatBase>(data, offset, o) {
                Ok(m) => Ok(Mat::Mat1(m)),
                Err(e) => Err(e),
            }
        } else if ty == 1 {
            match from_bytes::<Mat4>(data, offset, o) {
                Ok(m) => Ok(Mat::Mat4(m)),
                Err(e) => Err(e),
            }
        } else if ty == 2 {
            match from_bytes::<Mat2>(data, offset, o) {
                Ok(m) => Ok(Mat::Mat2(m)),
                Err(e) => Err(e),
            }
        } else if ty == 3 {
            match from_bytes::<Mat3>(data, offset, o) {
                Ok(m) => Ok(Mat::Mat3(m)),
                Err(e) => Err(e),
            }
        } else {
            Err(CodecError::Malformed)
        }
    }

    /// The part shared by all material kinds.
    pub fn base(&self) -> (r: &MatBase)
        ensures
            *r == self.spec_base(),
    {
        match self {
            Mat::Mat1(mat) => mat,
            Mat::Mat2(mat) => &mat.base,
            Mat::Mat3(mat) => &mat.base,
            Mat::Mat4(mat) => &mat.base,
        }
    }

    /// The part shared by all material kinds, to change in place.
    pub fn base_mut(&mut self) -> (r: &mut MatBase)
        ensures
            *r == old(self).spec_base(),
            *final(self) == old(self).with_base(*final(r)),
    {
        match self {
            Mat::Mat1(mat) => mat,
            Mat::Mat2(mat) => &mut mat.base,
            Mat::Mat3(mat) => &mut mat.base,
            Mat::Mat4(mat) => &mut mat.base,
        }
    }
}

} // verus!
