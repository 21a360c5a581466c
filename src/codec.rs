//! The endian-dual record codec.
//!
//! A record type is described once, by a table of cells per byte order: each
//! cell is a primitive integer of a fixed width stored in a fixed byte order.
//! Fields that exist only in one byte order simply have no cell in the other
//! table, and fields that trade places between the orders appear at different
//! positions of the two tables. Reading and writing are then generic over the
//! table, and the round trip is proved once, here.
use vstd::prelude::*;
use crate::types::StringTable;

verus! {

/// The byte order a container, and every record inside it, is stored in.
#[derive(Clone, Copy, Debug, PartialEq, Eq, Structural)]
pub enum Endian {
    Little,
    Big,
}

/// The width of one primitive cell.
#[derive(Clone, Copy, Debug, PartialEq, Eq, Structural)]
pub enum Prim {
    U8,
    U16,
    U32,
    U64,
}

/// One physical cell of a record: its width and the byte order it is stored in.
#[derive(Clone, Copy, Debug, PartialEq, Eq, Structural)]
pub struct Cell {
    pub prim: Prim,
    pub endian: Endian,
}

/// Failures of the codec. Each one aborts the file being processed.
#[derive(Clone, Copy, Debug, PartialEq, Eq, Structural)]
pub enum CodecError {
    /// A read reached past the end of its buffer.
    OutOfBounds,
    /// A compressed block did not inflate, or inflated to another size than its header says.
    BadCompressedBlock,
    /// The version byte matches neither supported byte order.
    UnknownVersion,
    /// A relocation entry holds a value with no new offset.
    MissingRelocation,
    /// A buffer does not have the shape its format requires.
    Malformed,
    /// An image of a compressed format is smaller than the tile minimum and
    /// cannot be detiled on its own.
    BelowTileMinimum,
}

pub open spec fn prim_width(p: Prim) -> nat {
    match p {
        Prim::U8 => 1,
        Prim::U16 => 2,
        Prim::U32 => 4,
        Prim::U64 => 8,
    }
}

/// `v` can be stored in a cell of width `p`.
pub open spec fn prim_fits(p: Prim, v: u64) -> bool {
    match p {
        Prim::U8 => v < 0x100,
        Prim::U16 => v < 0x1_0000,
        Prim::U32 => v < 0x1_0000_0000,
        Prim::U64 => true,
    }
}

/// The bytes of `v`, least significant first.
pub open spec fn le_bytes(p: Prim, v: u64) -> Seq<u8> {
    match p {
        Prim::U8 => seq![v as u8],
        Prim::U16 => seq![v as u8, (v >> 8) as u8],
        Prim::U32 => seq![v as u8, (v >> 8) as u8, (v >> 16) as u8, (v >> 24) as u8],
        Prim::U64 => seq![
            v as u8,
            (v >> 8) as u8,
            (v >> 16) as u8,
            (v >> 24) as u8,
            (v >> 32) as u8,
            (v >> 40) as u8,
            (v >> 48) as u8,
            (v >> 56) as u8,
        ],
    }
}

/// The bytes of `v`, most significant first.
pub open spec fn be_bytes(p: Prim, v: u64) -> Seq<u8> {
    match p {
        Prim::U8 => seq![v as u8],
        Prim::U16 => seq![(v >> 8) as u8, v as u8],
        Prim::U32 => seq![(v >> 24) as u8, (v >> 16) as u8, (v >> 8) as u8, v as u8],
        Prim::U64 => seq![
            (v >> 56) as u8,
            (v >> 48) as u8,
            (v >> 40) as u8,
            (v >> 32) as u8,
            (v >> 24) as u8,
            (v >> 16) as u8,
            (v >> 8) as u8,
            v as u8,
        ],
    }
}

pub open spec fn join2(a: u8, b: u8) -> u64 {
    (a as u64) | ((b as u64) << 8)
}

pub open spec fn join4(a: u8, b: u8, c: u8, d: u8) -> u64 {
    (a as u64) | ((b as u64) << 8) | ((c as u64) << 16) | ((d as u64) << 24)
}

pub open spec fn join8(a: u8, b: u8, c: u8, d: u8, e: u8, f: u8, g: u8, h: u8) -> u64 {
    join4(a, b, c, d) | (join4(e, f, g, h) << 32)
}

/// The value of the cell `c` that starts at the front of `b`.
pub open spec fn cell_value(c: Cell, b: Seq<u8>) -> u64 {
    match (c.prim, c.endian) {
        (Prim::U8, _) => b[0] as u64,
        (Prim::U16, Endian::Little) => join2(b[0], b[1]),
        (Prim::U16, Endian::Big) => join2(b[1], b[0]),
        (Prim::U32, Endian::Little) => join4(b[0], b[1], b[2], b[3]),
        (Prim::U32, Endian::Big) => join4(b[3], b[2], b[1], b[0]),
        (Prim::U64, Endian::Little) => join8(b[0], b[1], b[2], b[3], b[4], b[5], b[6], b[7]),
        (Prim::U64, Endian::Big) => join8(b[7], b[6], b[5], b[4], b[3], b[2], b[1], b[0]),
    }
}

/// The bytes that store `v` in the cell `c`.
pub open spec fn cell_bytes(c: Cell, v: u64) -> Seq<u8> {
    match c.endian {
        Endian::Little => le_bytes(c.prim, v),
        Endian::Big => be_bytes(c.prim, v),
    }
}

proof fn lemma_join2(v: u64)
    requires
        v < 0x1_0000,
    ensures
        join2(v as u8, (v >> 8) as u8) == v,
{
    assert(((v as u8) as u64) | ((((v >> 8) as u8) as u64) << 8) == v) by (bit_vector)
        requires
            v < 0x1_0000,
    ;
}

proof fn lemma_join4(v: u64)
    requires
        v < 0x1_0000_0000,
    ensures
        join4(v as u8, (v >> 8) as u8, (v >> 16) as u8, (v >> 24) as u8) == v,
{
    assert(((v as u8) as u64) | ((((v >> 8) as u8) as u64) << 8) | ((((v >> 16) as u8) as u64)
        << 16) | ((((v >> 24) as u8) as u64) << 24) == v) by (bit_vector)
        requires
            v < 0x1_0000_0000,
    ;
}

proof fn lemma_join8(v: u64)
    ensures
        join8(
            v as u8,
            (v >> 8) as u8,
            (v >> 16) as u8,
            (v >> 24) as u8,
            (v >> 32) as u8,
            (v >> 40) as u8,
            (v >> 48) as u8,
            (v >> 56) as u8,
        ) == v,
{
    let lo = v & 0xffff_ffff;
    let hi = v >> 32;
    assert(lo < 0x1_0000_0000 && hi < 0x1_0000_0000) by (bit_vector)
        requires
            lo == v & 0xffff_ffff,
            hi == v >> 32,
    ;
    lemma_join4(lo);
    lemma_join4(hi);
    assert(lo as u8 == v as u8 && (lo >> 8) as u8 == (v >> 8) as u8 && (lo >> 16) as u8 == (v
        >> 16) as u8 && (lo >> 24) as u8 == (v >> 24) as u8) by (bit_vector)
        requires
            lo == v & 0xffff_ffff,
    ;
    assert(hi as u8 == (v >> 32) as u8 && (hi >> 8) as u8 == (v >> 40) as u8 && (hi >> 16) as u8
        == (v >> 48) as u8 && (hi >> 24) as u8 == (v >> 56) as u8) by (bit_vector)
        requires
            hi == v >> 32,
    ;
    assert(lo | (hi << 32) == v) by (bit_vector)
        requires
            lo == v & 0xffff_ffff,
            hi == v >> 32,
    ;
}

/// A value that fits its cell reads back from the bytes that store it,
/// whatever follows them.
pub proof fn lemma_cell_round_trip(c: Cell, v: u64, rest: Seq<u8>)
    requires
        prim_fits(c.prim, v),
    ensures
        cell_bytes(c, v).len() == prim_width(c.prim),
        cell_value(c, cell_bytes(c, v) + rest) == v,
{
    let b = cell_bytes(c, v) + rest;
    match c.prim {
        Prim::U8 => {
            assert(b[0] == v as u8);
            assert((v as u8) as u64 == v) by (bit_vector)
                requires
                    v < 0x100,
            ;
        },
        Prim::U16 => {
            lemma_join2(v);
        },
        Prim::U32 => {
            lemma_join4(v);
        },
        Prim::U64 => {
            lemma_join8(v);
        },
    }
}

/// Reads the cell `c` that starts at `off`.
pub fn read_cell(data: &[u8], off: usize, c: Cell) -> (r: u64)
    requires
        off + prim_width(c.prim) <= data@.len(),
    ensures
        r == cell_value(c, data@.skip(off as int)),
        prim_fits(c.prim, r),
{
    let e = c.endian;
    let n = data.len();
    match c.prim {
        Prim::U8 => data[off] as u64,
        Prim::U16 => {
            assert(off + 2 <= data@.len());
            let (x, y) = if e == Endian::Little {
                (data[off], data[off + 1])
            } else {
                (data[off + 1], data[off])
            };
            let r = (x as u64) | ((y as u64) << 8);
            assert(r < 0x1_0000) by (bit_vector)
                requires
                    r == (x as u64) | ((y as u64) << 8),
            ;
            r
        },
        Prim::U32 => {
            assert(off + 4 <= data@.len());
            let (x0, x1, x2, x3) = if e == Endian::Little {
                (data[off], data[off + 1], data[off + 2], data[off + 3])
            } else {
                (data[off + 3], data[off + 2], data[off + 1], data[off])
            };
            let r = (x0 as u64) | ((x1 as u64) << 8) | ((x2 as u64) << 16) | ((x3 as u64) << 24);
            assert(r < 0x1_0000_0000) by (bit_vector)
                requires
                    r == (x0 as u64) | ((x1 as u64) << 8) | ((x2 as u64) << 16) | ((x3 as u64)
                        << 24),
            ;
            r
        },
        Prim::U64 => {
            assert(off + 8 <= data@.len());
            let (a0, a1, a2, a3, a4, a5, a6, a7) = if e == Endian::Little {
                (
                    data[off],
                    data[off + 1],
                    data[off + 2],
                    data[off + 3],
                    data[off + 4],
                    data[off + 5],
                    data[off + 6],
                    data[off + 7],
                )
            } else {
                (
                    data[off + 7],
                    data[off + 6],
                    data[off + 5],
                    data[off + 4],
                    data[off + 3],
                    data[off + 2],
                    data[off + 1],
                    data[off],
                )
            };
            let lo = (a0 as u64) | ((a1 as u64) << 8) | ((a2 as u64) << 16) | ((a3 as u64) << 24);
            let hi = (a4 as u64) | ((a5 as u64) << 8) | ((a6 as u64) << 16) | ((a7 as u64) << 24);
            lo | (hi << 32)
        },
    }
}

/// Appends the bytes that store `v` in the cell `c`.
pub fn push_cell(out: &mut Vec<u8>, c: Cell, v: u64)
    ensures
        final(out)@ == old(out)@ + cell_bytes(c, v),
{
    let ghost start = out@;
    match (c.prim, c.endian) {
        (Prim::U8, _) => {
            out.push(v as u8);
        },
        (Prim::U16, Endian::Little) => {
            out.push(v as u8);
            out.push((v >> 8) as u8);
        },
        (Prim::U16, Endian::Big) => {
            out.push((v >> 8) as u8);
            out.push(v as u8);
        },
        (Prim::U32, Endian::Little) => {
            out.push(v as u8);
            out.push((v >> 8) as u8);
            out.push((v >> 16) as u8);
            out.push((v >> 24) as u8);
        },
        (Prim::U32, Endian::Big) => {
            out.push((v >> 24) as u8);
            out.push((v >> 16) as u8);
            out.push((v >> 8) as u8);
            out.push(v as u8);
        },
        (Prim::U64, Endian::Little) => {
            out.push(v as u8);
            out.push((v >> 8) as u8);
            out.push((v >> 16) as u8);
            out.push((v >> 24) as u8);
            out.push((v >> 32) as u8);
            out.push((v >> 40) as u8);
            out.push((v >> 48) as u8);
            out.push((v >> 56) as u8);
        },
        (Prim::U64, Endian::Big) => {
            out.push((v >> 56) as u8);
            out.push((v >> 48) as u8);
            out.push((v >> 40) as u8);
            out.push((v >> 32) as u8);
            out.push((v >> 24) as u8);
            out.push((v >> 16) as u8);
            out.push((v >> 8) as u8);
            out.push(v as u8);
        },
    }
    assert(out@ =~= start + cell_bytes(c, v));
}

/// The number of bytes a record with cell table `l` occupies.
pub open spec fn layout_size(l: Seq<Cell>) -> nat
    decreases l.len(),
{
    if l.len() == 0 {
        0
    } else {
        layout_size(l.drop_last()) + prim_width(l.last().prim)
    }
}

/// Each value fits the cell at its position, one value per cell.
pub open spec fn cells_fit(l: Seq<Cell>, v: Seq<u64>) -> bool {
    &&& v.len() == l.len()
    &&& forall|i: int| 0 <= i < l.len() ==> prim_fits(#[trigger] l[i].prim, v[i])
}

/// The bytes of a record whose cells `l` hold the values `v`, cell after cell.
pub open spec fn encode_cells(l: Seq<Cell>, v: Seq<u64>) -> Seq<u8>
    decreases l.len(),
{
    if l.len() == 0 || v.len() == 0 {
        seq![]
    } else {
        encode_cells(l.drop_last(), v.drop_last()) + cell_bytes(l.last(), v.last())
    }
}

/// The values of the cells `l` of a record stored at the front of `b`.
pub open spec fn decode_cells(l: Seq<Cell>, b: Seq<u8>) -> Seq<u64> {
    Seq::new(l.len(), |i: int| cell_value(l[i], b.skip(layout_size(l.take(i)) as int)))
}

proof fn lemma_layout_prefix(l: Seq<Cell>, k: int)
    requires
        0 <= k <= l.len(),
    ensures
        layout_size(l.take(k)) <= layout_size(l),
        k < l.len() ==> layout_size(l.take(k)) + prim_width(l[k].prim) <= layout_size(l),
    decreases l.len(),
{
    if k < l.len() {
        assert(l.take(k + 1).drop_last() =~= l.take(k));
        if k + 1 < l.len() {
            lemma_layout_prefix(l.drop_last(), k + 1);
            assert(l.drop_last().take(k + 1) =~= l.take(k + 1));
        } else {
            assert(l.take(k + 1) =~= l);
        }
    } else {
        assert(l.take(k) =~= l);
    }
}

proof fn lemma_encode_len(l: Seq<Cell>, v: Seq<u64>)
    requires
        v.len() == l.len(),
    ensures
        encode_cells(l, v).len() == layout_size(l),
    decreases l.len(),
{
    if l.len() > 0 {
        lemma_encode_len(l.drop_last(), v.drop_last());
        match l.last().prim {
            _ => {},
        }
    }
}

proof fn lemma_encode_at(l: Seq<Cell>, v: Seq<u64>, i: int)
    requires
        v.len() == l.len(),
        0 <= i < l.len(),
    ensures
        encode_cells(l, v).subrange(
            layout_size(l.take(i)) as int,
            (layout_size(l.take(i)) + prim_width(l[i].prim)) as int,
        ) == cell_bytes(l[i], v[i]),
    decreases l.len(),
{
    let n = l.len() - 1;
    let pre = encode_cells(l.drop_last(), v.drop_last());
    lemma_encode_len(l.drop_last(), v.drop_last());
    lemma_layout_prefix(l, i);
    assert(cell_bytes(l[i], v[i]).len() == prim_width(l[i].prim));
    if i == n {
        assert(l.take(i) =~= l.drop_last());
        assert(encode_cells(l, v).subrange(pre.len() as int, (pre.len() + prim_width(l[i].prim)) as int)
            =~= cell_bytes(l[i], v[i]));
    } else {
        lemma_encode_at(l.drop_last(), v.drop_last(), i);
        assert(l.drop_last().take(i) =~= l.take(i));
        lemma_layout_prefix(l.drop_last(), i);
        let lo = layout_size(l.take(i)) as int;
        let hi = lo + prim_width(l[i].prim);
        assert(encode_cells(l, v).subrange(lo, hi) =~= pre.subrange(lo, hi));
    }
}

/// Writing a record's cells and reading them back gives the same values,
/// whatever follows the record in the buffer.
pub proof fn lemma_cells_round_trip(l: Seq<Cell>, v: Seq<u64>, rest: Seq<u8>)
    requires
        cells_fit(l, v),
    ensures
        encode_cells(l, v).len() == layout_size(l),
        decode_cells(l, encode_cells(l, v) + rest) == v,
{
    lemma_encode_len(l, v);
    let b = encode_cells(l, v) + rest;
    assert forall|i: int| 0 <= i < l.len() implies #[trigger] decode_cells(l, b)[i] == v[i] by {
        let off = layout_size(l.take(i)) as int;
        let w = prim_width(l[i].prim) as int;
        lemma_encode_at(l, v, i);
        lemma_layout_prefix(l, i);
        lemma_cell_round_trip(l[i], v[i], b.skip(off + w));
        assert(cell_bytes(l[i], v[i]) + b.skip(off + w) =~= b.skip(off));
    }
    assert(decode_cells(l, b) =~= v);
}

/// The size in bytes of a record with cell table `l`.
pub fn layout_size_of(l: &Vec<Cell>) -> (r: usize)
    requires
        l@.len() <= 0x1000_0000,
    ensures
        r == layout_size(l@),
{
    let mut r: usize = 0;
    let mut i: usize = 0;
    while i < l.len()
        invariant
            i <= l@.len(),
            l@.len() <= 0x1000_0000,
            r == layout_size(l@.take(i as int)),
            r <= 8 * i,
        decreases l@.len() - i,
    {
        assert(l@.take(i + 1).drop_last() =~= l@.take(i as int));
        let w: usize = match l[i].prim {
            Prim::U8 => 1,
            Prim::U16 => 2,
            Prim::U32 => 4,
            Prim::U64 => 8,
        };
        r = r + w;
        i = i + 1;
    }
    assert(l@.take(i as int) =~= l@);
    r
}

/// Appends the cells `l` holding `v`.
pub fn encode_cells_into(l: &Vec<Cell>, v: &Vec<u64>, out: &mut Vec<u8>)
    requires
        l@.len() == v@.len(),
    ensures
        final(out)@ == old(out)@ + encode_cells(l@, v@),
{
    let ghost start = out@;
    let mut i: usize = 0;
    while i < l.len()
        invariant
            i <= l@.len(),
            l@.len() == v@.len(),
            out@ == start + encode_cells(l@.take(i as int), v@.take(i as int)),
        decreases l@.len() - i,
    {
        assert(l@.take(i + 1).drop_last() =~= l@.take(i as int));
        assert(v@.take(i + 1).drop_last() =~= v@.take(i as int));
        push_cell(out, l[i], v[i]);
        i = i + 1;
        assert(start + encode_cells(l@.take(i as int), v@.take(i as int)) =~= out@);
    }
    assert(l@.take(i as int) =~= l@);
    assert(v@.take(i as int) =~= v@);
}

/// Reads the cells `l` of a record that starts at `off`.
pub fn decode_cells_at(l: &Vec<Cell>, data: &[u8], off: usize) -> (r: Vec<u64>)
    requires
        off + layout_size(l@) <= data@.len(),
    ensures
        r@ == decode_cells(l@, data@.skip(off as int)),
        cells_fit(l@, r@),
{
    let ghost b = data@.skip(off as int);
    let mut r: Vec<u64> = Vec::new();
    let mut cur: usize = off;
    let mut i: usize = 0;
    let n = data.len();
    while i < l.len()
        invariant
            i <= l@.len(),
            n == data@.len(),
            off + layout_size(l@) <= data@.len(),
            b == data@.skip(off as int),
            cur == off + layout_size(l@.take(i as int)),
            r@.len() == i,
            forall|j: int|
                0 <= j < i ==> r@[j] == cell_value(l@[j], b.skip(layout_size(l@.take(j)) as int))
                    && prim_fits(#[trigger] l@[j].prim, r@[j]),
        decreases l@.len() - i,
    {
        proof {
            lemma_layout_prefix(l@, i as int);
            assert(l@.take(i + 1).drop_last() =~= l@.take(i as int));
            assert(b.skip(layout_size(l@.take(i as int)) as int) =~= data@.skip(cur as int));
        }
        let x = read_cell(data, cur, l[i]);
        r.push(x);
        cur = cur + match l[i].prim {
            Prim::U8 => 1,
            Prim::U16 => 2,
            Prim::U32 => 4,
            Prim::U64 => 8,
        };
        i = i + 1;
    }
    assert(r@ =~= decode_cells(l@, b));
    r
}

/// A signed field stored through its 32-bit pattern comes back unchanged.
pub proof fn lemma_i32_bits(x: i32)
    ensures
        (((x as u32) as u64) as u32) as i32 == x,
        prim_fits(Prim::U32, (x as u32) as u64),
{
    assert((((x as u32) as u64) as u32) as i32 == x) by (bit_vector);
}

/// Appends the items of `rest` to `v`.
pub fn extend_from<T: Copy>(v: &mut Vec<T>, rest: &Vec<T>)
    ensures
        final(v)@ == old(v)@ + rest@,
{
    let ghost start = v@;
    let mut i: usize = 0;
    while i < rest.len()
        invariant
            i <= rest@.len(),
            v@ == start + rest@.take(i as int),
        decreases rest@.len() - i,
    {
        v.push(rest[i]);
        i = i + 1;
        assert(v@ =~= start + rest@.take(i as int));
    }
    assert(rest@.take(i as int) =~= rest@);
}

/// The first `n` cells of `c`.
pub fn head_cells(c: &Vec<u64>, n: usize) -> (r: Vec<u64>)
    requires
        n <= c@.len(),
    ensures
        r@ == c@.take(n as int),
{
    let mut r: Vec<u64> = Vec::new();
    let mut i: usize = 0;
    while i < n
        invariant
            i <= n,
            n <= c@.len(),
            r@ == c@.take(i as int),
        decreases n - i,
    {
        r.push(c[i]);
        i = i + 1;
        assert(r@ =~= c@.take(i as int));
    }
    r
}

/// Values that fit a cell table fit its first part too.
pub proof fn lemma_head_fits(head: Seq<Cell>, l: Seq<Cell>, c: Seq<u64>, n: nat)
    requires
        cells_fit(l, c),
        head.len() == n,
        n <= l.len(),
        forall|i: int| 0 <= i < n ==> #[trigger] l[i] == head[i],
    ensures
        cells_fit(head, c.take(n as int)),
{
    assert forall|i: int| 0 <= i < head.len() implies prim_fits(#[trigger] head[i].prim, c.take(n as int)[i]) by {
        assert(l[i] == head[i]);
    }
}

/// Two cell tables filled with fitting values make a filled table together.
pub proof fn lemma_concat_fits(l1: Seq<Cell>, v1: Seq<u64>, l2: Seq<Cell>, v2: Seq<u64>)
    requires
        cells_fit(l1, v1),
        cells_fit(l2, v2),
    ensures
        cells_fit(l1 + l2, v1 + v2),
{
    assert forall|i: int| 0 <= i < (l1 + l2).len() implies prim_fits(#[trigger] (l1 + l2)[i].prim, (v1 + v2)[i]) by {
        if i < l1.len() {
            assert(prim_fits(l1[i].prim, v1[i]));
        } else {
            assert(prim_fits(l2[i - l1.len()].prim, v2[i - l1.len()]));
        }
    }
}

/// A fixed-size record type with one physical layout per byte order.
///
/// The logical content of a record is `spec_values`: its fields in declaration
/// order, a symbolic key by its 32-bit value. The physical layout for byte
/// order `o` is the cell table `spec_layout(o)` filled with `spec_cells(o)`.
pub trait OrderedData: Sized {
    spec fn spec_layout(o: Endian) -> Seq<Cell>;

    spec fn spec_cells(&self, o: Endian) -> Seq<u64>;

    spec fn spec_from_cells(c: Seq<u64>, o: Endian) -> Self;

    spec fn spec_values(&self) -> Seq<u64>;

    /// The fields that byte order `o` does not store hold their default, zero.
    spec fn spec_fits(&self, o: Endian) -> bool;

    fn layout(o: Endian) -> (r: Vec<Cell>)
        ensures
            r@ == Self::spec_layout(o),
    ;

    fn to_cells(&self, o: Endian) -> (r: Vec<u64>)
        ensures
            r@ == self.spec_cells(o),
    ;

    fn from_cells(c: &Vec<u64>, o: Endian) -> (r: Self)
        requires
            cells_fit(Self::spec_layout(o), c@),
        ensures
            r == Self::spec_from_cells(c@, o),
    ;

    /// Every symbolic key of the record carries its string exactly when the
    /// table `m` holds one for it.
    spec fn spec_keys_resolved(&self, m: Map<u32, Seq<char>>) -> bool;

    /// The record with each symbolic key looked up in `table`.
    fn resolved(&self, table: &StringTable) -> (r: Self)
        requires
            table.wf(),
        ensures
            r.spec_values() == self.spec_values(),
            r.spec_keys_resolved(table@),
    ;

    proof fn lemma_layout_small(o: Endian)
        ensures
            Self::spec_layout(o).len() <= 4096,
    ;

    proof fn lemma_cells(&self, o: Endian)
        ensures
            cells_fit(Self::spec_layout(o), self.spec_cells(o)),
            self.spec_fits(o) ==> Self::spec_from_cells(self.spec_cells(o), o).spec_values()
                == self.spec_values(),
    ;
}

/// The bytes of record `r` in byte order `o`.
pub open spec fn spec_dump<T: OrderedData>(r: T, o: Endian) -> Seq<u8> {
    encode_cells(T::spec_layout(o), r.spec_cells(o))
}

/// The record of type `T` stored in byte order `o` at the front of `b`.
pub open spec fn spec_read<T: OrderedData>(b: Seq<u8>, o: Endian) -> T {
    T::spec_from_cells(decode_cells(T::spec_layout(o), b), o)
}

/// The size in bytes of a record of type `T` in byte order `o`.
pub open spec fn spec_size<T: OrderedData>(o: Endian) -> nat {
    layout_size(T::spec_layout(o))
}

/// The bytes of the records `s`, one after the other.
pub open spec fn spec_dump_seq<T: OrderedData>(s: Seq<T>, o: Endian) -> Seq<u8>
    decreases s.len(),
{
    if s.len() == 0 {
        seq![]
    } else {
        spec_dump_seq(s.drop_last(), o) + spec_dump(s.last(), o)
    }
}

/// A record written in byte order `o` and read back in the same order has the
/// content it was written with, whatever follows it in the buffer, provided the
/// fields that `o` does not store hold zero.
pub proof fn lemma_record_round_trip<T: OrderedData>(r: T, o: Endian, rest: Seq<u8>)
    requires
        r.spec_fits(o),
    ensures
        spec_dump(r, o).len() == spec_size::<T>(o),
        spec_read::<T>(spec_dump(r, o) + rest, o).spec_values() == r.spec_values(),
{
    r.lemma_cells(o);
    lemma_cells_round_trip(T::spec_layout(o), r.spec_cells(o), rest);
}

/// A record's bytes are as many as its type's size.
pub proof fn lemma_dump_len<T: OrderedData>(r: T, o: Endian)
    ensures
        spec_dump(r, o).len() == spec_size::<T>(o),
{
    r.lemma_cells(o);
    lemma_encode_len(T::spec_layout(o), r.spec_cells(o));
}

/// The bytes of `s` records are `s.len()` times a record's size.
pub proof fn lemma_dump_seq_len<T: OrderedData>(s: Seq<T>, o: Endian)
    ensures
        spec_dump_seq(s, o).len() == s.len() * spec_size::<T>(o),
    decreases s.len(),
{
    if s.len() > 0 {
        lemma_dump_seq_len(s.drop_last(), o);
        lemma_dump_len(s.last(), o);
        vstd::arithmetic::mul::lemma_mul_is_distributive_add_other_way(
            spec_size::<T>(o) as int,
            (s.len() - 1) as int,
            1,
        );
    }
}

/// A run of records written one after the other in byte order `o` and read
/// back record by record gives each record's content back, whatever follows
/// the run, provided the fields that `o` does not store hold zero.
pub proof fn lemma_vec_round_trip<T: OrderedData>(v: Seq<T>, o: Endian, rest: Seq<u8>)
    requires
        forall|i: int| 0 <= i < v.len() ==> (#[trigger] v[i]).spec_fits(o),
    ensures
        spec_dump_seq(v, o).len() == v.len() * spec_size::<T>(o),
        forall|i: int|
            0 <= i < v.len() ==> (#[trigger] spec_read::<T>(
                (spec_dump_seq(v, o) + rest).skip(i * spec_size::<T>(o)),
                o,
            )).spec_values() == v[i].spec_values(),
    decreases v.len(),
{
    lemma_dump_seq_len(v, o);
    if v.len() > 0 {
        let n = v.len() - 1;
        let vp = v.drop_last();
        let last = v.last();
        let sz = spec_size::<T>(o);
        let tail = spec_dump(last, o) + rest;
        lemma_vec_round_trip(vp, o, tail);
        lemma_dump_seq_len(vp, o);
        assert(spec_dump_seq(v, o) + rest =~= spec_dump_seq(vp, o) + tail);
        assert forall|i: int| 0 <= i < v.len() implies (#[trigger] spec_read::<T>(
            (spec_dump_seq(v, o) + rest).skip(i * sz),
            o,
        )).spec_values() == v[i].spec_values() by {
            if i < n {
                assert(vp[i] == v[i]);
            } else {
                assert((spec_dump_seq(vp, o) + tail).skip(i * sz) =~= tail);
                lemma_record_round_trip(last, o, rest);
            }
        }
    }
}

/// The size in bytes of a record of type `T` in byte order `o`.
pub fn size<T: OrderedData>(o: Endian) -> (r: usize)
    ensures
        r == spec_size::<T>(o),
        r <= 8 * 4096,
{
    let l = T::layout(o);
    proof {
        T::lemma_layout_small(o);
        lemma_layout_bound(l@);
    }
    layout_size_of(&l)
}

proof fn lemma_layout_bound(l: Seq<Cell>)
    ensures
        layout_size(l) <= 8 * l.len(),
    decreases l.len(),
{
    if l.len() > 0 {
        lemma_layout_bound(l.drop_last());
    }
}

/// The bytes of `r` in byte order `o`.
pub fn dump_bytes<T: OrderedData>(r: &T, o: Endian) -> (b: Vec<u8>)
    ensures
        b@ == spec_dump(*r, o),
        b@.len() == spec_size::<T>(o),
{
    let l = T::layout(o);
    let c = r.to_cells(o);
    proof {
        r.lemma_cells(o);
        lemma_encode_len(l@, c@);
    }
    let mut b: Vec<u8> = Vec::new();
    encode_cells_into(&l, &c, &mut b);
    assert(b@ =~= spec_dump(*r, o));
    b
}

/// Appends the bytes of `r` in byte order `o`.
pub fn extend_bytes<T: OrderedData>(r: &T, o: Endian, out: &mut Vec<u8>)
    ensures
        final(out)@ == old(out)@ + spec_dump(*r, o),
{
    let l = T::layout(o);
    let c = r.to_cells(o);
    proof {
        r.lemma_cells(o);
    }
    encode_cells_into(&l, &c, out);
}

/// Reads a record of type `T` stored in byte order `o` at `off`; fails when the
/// buffer ends before the record does.
pub fn from_bytes<T: OrderedData>(data: &[u8], off: usize, o: Endian) -> (r: Result<
    T,
    CodecError,
>)
    ensures
        match r {
            Ok(x) => off + spec_size::<T>(o) <= data@.len() && x == spec_read::<T>(
                data@.skip(off as int),
                o,
            ),
            Err(e) => off + spec_size::<T>(o) > data@.len() && e == CodecError::OutOfBounds,
        },
{
    let l = T::layout(o);
    proof {
        T::lemma_layout_small(o);
        lemma_layout_bound(l@);
    }
    let n = layout_size_of(&l);
    if off > data.len() || n > data.len() - off {
        return Err(CodecError::OutOfBounds);
    }
    let c = decode_cells_at(&l, data, off);
    Ok(T::from_cells(&c, o))
}

/// Reads `num` consecutive records of type `T` stored in byte order `o` from
/// `off` on; fails when the buffer ends before the last of them does.
pub fn from_bytes_vec<T: OrderedData>(data: &[u8], off: usize, num: usize, o: Endian) -> (r:
    Result<Vec<T>, CodecError>)
    ensures
        match r {
            Ok(v) => {
                &&& off + num * spec_size::<T>(o) <= data@.len()
                &&& v@.len() == num
                &&& forall|i: int|
                    0 <= i < num ==> #[trigger] v@[i] == spec_read::<T>(
                        data@.skip(off + i * spec_size::<T>(o)),
                        o,
                    )
            },
            Err(e) => off + num * spec_size::<T>(o) > data@.len() && e == CodecError::OutOfBounds,
        },
{
    let n = size::<T>(o);
    let dl = data.len();
    let total = match n.checked_mul(num) {
        Some(t) => t,
        None => {
            proof {
                vstd::arithmetic::mul::lemma_mul_is_commutative(num as int, n as int);
            }
            return Err(CodecError::OutOfBounds);
        },
    };
    proof {
        vstd::arithmetic::mul::lemma_mul_is_commutative(num as int, n as int);
    }
    if off > data.len() || total > data.len() - off {
        return Err(CodecError::OutOfBounds);
    }
    let mut v: Vec<T> = Vec::new();
    let mut i: usize = 0;
    let mut cur: usize = off;
    while i < num
        invariant
            i <= num,
            dl == data@.len(),
            n == spec_size::<T>(o),
            off + num * n <= data@.len(),
            cur == off + i * n,
            v@.len() == i,
            forall|j: int|
                0 <= j < i ==> #[trigger] v@[j] == spec_read::<T>(data@.skip(off + j * n), o),
        decreases num - i,
    {
        proof {
            vstd::arithmetic::mul::lemma_mul_inequality(i as int + 1, num as int, n as int);
            vstd::arithmetic::mul::lemma_mul_is_distributive_add_other_way(
                n as int,
                i as int,
                1,
            );
        }
        let x = from_bytes::<T>(data, cur, o);
        match x {
            Ok(x) => {
                v.push(x);
            },
            Err(_) => {
                return Err(CodecError::OutOfBounds);
            },
        }
        cur = cur + n;
        i = i + 1;
    }
    Ok(v)
}

/// The bytes of the records `v` in byte order `o`, one after the other.
pub fn dump_bytes_vec<T: OrderedData>(v: &Vec<T>, o: Endian) -> (b: Vec<u8>)
    ensures
        b@ == spec_dump_seq(v@, o),
{
    let mut b: Vec<u8> = Vec::new();
    let mut i: usize = 0;
    while i < v.len()
        invariant
            i <= v@.len(),
            b@ == spec_dump_seq(v@.take(i as int), o),
        decreases v@.len() - i,
    {
        assert(v@.take(i + 1).drop_last() =~= v@.take(i as int));
        extend_bytes(&v[i], o, &mut b);
        i = i + 1;
    }
    assert(v@.take(i as int) =~= v@);
    b
}


/// A word takes four bytes in either byte order.
pub proof fn lemma_word_size(o: Endian)
    ensures
        spec_size::<u32>(o) == 4,
{
    reveal_with_fuel(layout_size, 2);
}

impl OrderedData for u32 {
    open spec fn spec_layout(o: Endian) -> Seq<Cell> {
        seq![Cell { prim: Prim::U32, endian: o }]
    }

    open spec fn spec_cells(&self, o: Endian) -> Seq<u64> {
        seq![*self as u64]
    }

    open spec fn spec_from_cells(c: Seq<u64>, o: Endian) -> Self {
        c[0] as u32
    }

    open spec fn spec_values(&self) -> Seq<u64> {
        seq![*self as u64]
    }

    open spec fn spec_fits(&self, o: Endian) -> bool {
        true
    }

    fn layout(o: Endian) -> (r: Vec<Cell>) {
        vec![Cell { prim: Prim::U32, endian: o }]
    }

    fn to_cells(&self, o: Endian) -> (r: Vec<u64>) {
        vec![*self as u64]
    }

    fn from_cells(c: &Vec<u64>, o: Endian) -> (r: Self) {
        c[0] as u32
    }

    open spec fn spec_keys_resolved(&self, m: Map<u32, Seq<char>>) -> bool {
        true
    }

    fn resolved(&self, table: &StringTable) -> (r: Self) {
        *self
    }

    proof fn lemma_layout_small(o: Endian) {
    }

    proof fn lemma_cells(&self, o: Endian) {
    }
}

} // verus!
