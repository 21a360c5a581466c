//! Audio tables: their records, and reading and writing a whole table.
use vstd::prelude::*;
#[allow(unused_imports)]
use crate::codec::{lemma_i32_bits, Cell, Endian, OrderedData, Prim};
#[allow(unused_imports)]
use crate::codec::{extend_from, head_cells, lemma_concat_fits, lemma_head_fits};
#[allow(unused_imports)]
use crate::types::{crc_resolved, Crc, StringTable};

use crate::codec::{dump_bytes, dump_bytes_vec, extend_bytes, from_bytes, from_bytes_vec, size, spec_dump, spec_dump_seq, spec_read, spec_size, CodecError};
use crate::level::{table_at, read_table_plain};

verus! {

/// Header of an audio table.
#[derive(Debug, Clone, Copy, PartialEq)]
pub struct Header {
    pub const0x2: u32,
    pub n1: u32,
    pub n2: u32,
    pub n3: u32,
    pub n4: u32,
    pub n5: u32,
    pub n6: u32,
    pub n7: u32,
}

impl OrderedData for Header {
    open spec fn spec_layout(o: Endian) -> Seq<Cell> {
        seq![
            Cell { prim: Prim::U32, endian: o },
            Cell { prim: Prim::U32, endian: o },
            Cell { prim: Prim::U32, endian: o },
            Cell { prim: Prim::U32, endian: o },
            Cell { prim: Prim::U32, endian: o },
            Cell { prim: Prim::U32, endian: o },
            Cell { prim: Prim::U32, endian: o },
            Cell { prim: Prim::U32, endian: o },
        ]
    }

    open spec fn spec_cells(&self, o: Endian) -> Seq<u64> {
        seq![
            self.const0x2 as u64,
            self.n1 as u64,
            self.n2 as u64,
            self.n3 as u64,
            self.n4 as u64,
            self.n5 as u64,
            self.n6 as u64,
            self.n7 as u64,
        ]
    }

    open spec fn spec_from_cells(c: Seq<u64>, o: Endian) -> Self {
        Header {
            const0x2: c[0] as u32,
            n1: c[1] as u32,
            n2: c[2] as u32,
            n3: c[3] as u32,
            n4: c[4] as u32,
            n5: c[5] as u32,
            n6: c[6] as u32,
            n7: c[7] as u32,
        }
    }

    open spec fn spec_values(&self) -> Seq<u64> {
        seq![
            self.const0x2 as u64,
            self.n1 as u64,
            self.n2 as u64,
            self.n3 as u64,
            self.n4 as u64,
            self.n5 as u64,
            self.n6 as u64,
            self.n7 as u64,
        ]
    }

    open spec fn spec_fits(&self, o: Endian) -> bool {
        true
    }

    fn layout(o: Endian) -> (r: Vec<Cell>) {
        vec![
            Cell { prim: Prim::U32, endian: o },
            Cell { prim: Prim::U32, endian: o },
            Cell { prim: Prim::U32, endian: o },
            Cell { prim: Prim::U32, endian: o },
            Cell { prim: Prim::U32, endian: o },
            Cell { prim: Prim::U32, endian: o },
            Cell { prim: Prim::U32, endian: o },
            Cell { prim: Prim::U32, endian: o },
        ]
    }

    fn to_cells(&self, o: Endian) -> (r: Vec<u64>) {
        vec![
            self.const0x2 as u64,
            self.n1 as u64,
            self.n2 as u64,
            self.n3 as u64,
            self.n4 as u64,
            self.n5 as u64,
            self.n6 as u64,
            self.n7 as u64,
        ]
    }

    fn from_cells(c: &Vec<u64>, o: Endian) -> (r: Self) {
        Header {
            const0x2: c[0] as u32,
            n1: c[1] as u32,
            n2: c[2] as u32,
            n3: c[3] as u32,
            n4: c[4] as u32,
            n5: c[5] as u32,
            n6: c[6] as u32,
            n7: c[7] as u32,
        }
    }

    open spec fn spec_keys_resolved(&self, m: Map<u32, Seq<char>>) -> bool {
        true
    }

    fn resolved(&self, table: &StringTable) -> (r: Self) {
        *self
    }

    proof fn lemma_layout_small(o: Endian) {
    }

    proof fn lemma_cells(&self, o: Endian) {
    }
}

/// An audio table entry keyed by a symbolic key.
#[derive(Debug, Clone, PartialEq)]
pub struct Obj1 {
    pub key: Crc,
    pub val: u32,
}

impl OrderedData for Obj1 {
    open spec fn spec_layout(o: Endian) -> Seq<Cell> {
        seq![
            Cell { prim: Prim::U32, endian: o },
            Cell { prim: Prim::U32, endian: o },
        ]
    }

    open spec fn spec_cells(&self, o: Endian) -> Seq<u64> {
        seq![
            self.key.spec_key() as u64,
            self.val as u64,
        ]
    }

    open spec fn spec_from_cells(c: Seq<u64>, o: Endian) -> Self {
        Obj1 {
            key: Crc::Key(c[0] as u32),
            val: c[1] as u32,
        }
    }

    open spec fn spec_values(&self) -> Seq<u64> {
        seq![
            self.key.spec_key() as u64,
            self.val as u64,
        ]
    }

    open spec fn spec_fits(&self, o: Endian) -> bool {
        true
    }

    fn layout(o: Endian) -> (r: Vec<Cell>) {
        vec![
            Cell { prim: Prim::U32, endian: o },
            Cell { prim: Prim::U32, endian: o },
        ]
    }

    fn to_cells(&self, o: Endian) -> (r: Vec<u64>) {
        vec![
            self.key.key() as u64,
            self.val as u64,
        ]
    }

    fn from_cells(c: &Vec<u64>, o: Endian) -> (r: Self) {
        Obj1 {
            key: Crc::Key(c[0] as u32),
            val: c[1] as u32,
        }
    }

    open spec fn spec_keys_resolved(&self, m: Map<u32, Seq<char>>) -> bool {
        crc_resolved(self.key, m)
    }

    fn resolved(&self, table: &StringTable) -> (r: Self) {
        Obj1 {
            key: Crc::resolve(self.key.key(), table),
            val: self.val,
        }
    }

    proof fn lemma_layout_small(o: Endian) {
    }

    proof fn lemma_cells(&self, o: Endian) {
    }
}

/// A secondary audio table entry.
#[derive(Debug, Clone, Copy, PartialEq)]
pub struct Obj2 {
    pub unk_0: u32,
    pub unk_1: u32,
    pub n: u32,
}

impl OrderedData for Obj2 {
    open spec fn spec_layout(o: Endian) -> Seq<Cell> {
        seq![
            Cell { prim: Prim::U32, endian: o },
            Cell { prim: Prim::U32, endian: o },
            Cell { prim: Prim::U32, endian: o },
        ]
    }

    open spec fn spec_cells(&self, o: Endian) -> Seq<u64> {
        seq![
            self.unk_0 as u64,
            self.unk_1 as u64,
            self.n as u64,
        ]
    }

    open spec fn spec_from_cells(c: Seq<u64>, o: Endian) -> Self {
        Obj2 {
            unk_0: c[0] as u32,
            unk_1: c[1] as u32,
            n: c[2] as u32,
        }
    }

    open spec fn spec_values(&self) -> Seq<u64> {
        seq![
            self.unk_0 as u64,
            self.unk_1 as u64,
            self.n as u64,
        ]
    }

    open spec fn spec_fits(&self, o: Endian) -> bool {
        true
    }

    fn layout(o: Endian) -> (r: Vec<Cell>) {
        vec![
            Cell { prim: Prim::U32, endian: o },
            Cell { prim: Prim::U32, endian: o },
            Cell { prim: Prim::U32, endian: o },
        ]
    }

    fn to_cells(&self, o: Endian) -> (r: Vec<u64>) {
        vec![
            self.unk_0 as u64,
            self.unk_1 as u64,
            self.n as u64,
        ]
    }

    fn from_cells(c: &Vec<u64>, o: Endian) -> (r: Self) {
        Obj2 {
            unk_0: c[0] as u32,
            unk_1: c[1] as u32,
            n: c[2] as u32,
        }
    }

    open spec fn spec_keys_resolved(&self, m: Map<u32, Seq<char>>) -> bool {
        true
    }

    fn resolved(&self, table: &StringTable) -> (r: Self) {
        *self
    }

    proof fn lemma_layout_small(o: Endian) {
    }

    proof fn lemma_cells(&self, o: Endian) {
    }
}


/// Where the last of the first `k` groups starting at `start` ends: each group
/// is an `Obj2` followed by as many `Obj1` entries as its `n` says. Nothing
/// when a group passes the end of `d`.
pub open spec fn group_end(d: Seq<u8>, start: nat, k: nat, o: Endian) -> Option<nat>
    decreases k,
{
    if k == 0 {
        Some(start)
    } else {
        match group_end(d, start, (k - 1) as nat, o) {
            None => None,
            Some(p) => if p + spec_size::<Obj2>(o) > d.len() {
                None
            } else {
                let g = spec_read::<Obj2>(d.skip(p as int), o);
                let e = (p + spec_size::<Obj2>(o) + g.n * spec_size::<Obj1>(o)) as nat;
                if e > d.len() {
                    None
                } else {
                    Some(e)
                }
            },
        }
    }
}

proof fn lemma_group_end_none(d: Seq<u8>, start: nat, k: nat, n: nat, o: Endian)
    requires
        k <= n,
        group_end(d, start, k, o) is None,
    ensures
        group_end(d, start, n, o) is None,
    decreases n - k,
{
    if k < n {
        lemma_group_end_none(d, start, k + 1, n, o);
    }
}

/// `v` holds the `k` groups starting at `start` of `d`.
pub open spec fn groups_read(v: Seq<(Obj2, Vec<Obj1>)>, d: Seq<u8>, start: nat, k: nat, o: Endian) -> bool {
    &&& v.len() == k
    &&& forall|g: int|
        0 <= g < k ==> {
            let p = group_end(d, start, g as nat, o)->Some_0;
            let h = spec_read::<Obj2>(d.skip(p as int), o);
            &&& (#[trigger] v[g]).0 == h
            &&& Some(v[g].1@) == table_at::<Obj1>(d, p + spec_size::<Obj2>(o), h.n as nat, o)
        }
}

fn read_groups(data: &[u8], start: usize, count: u32, o: Endian) -> (r: Result<(Vec<(Obj2, Vec<Obj1>)>, usize), CodecError>)
    ensures
        match r {
            Ok((v, end)) => group_end(data@, start as nat, count as nat, o) == Some(end as nat)
                && groups_read(v@, data@, start as nat, count as nat, o),
            Err(e) => e == CodecError::OutOfBounds && group_end(data@, start as nat, count as nat, o) is None,
        },
{
    let s2 = size::<Obj2>(o);
    let s1 = size::<Obj1>(o);
    let n = data.len();
    let mut v: Vec<(Obj2, Vec<Obj1>)> = Vec::new();
    let mut off = start;
    let mut k: u32 = 0;
    while k < count
        invariant
            k <= count,
            n == data@.len(),
            s2 == spec_size::<Obj2>(o),
            s1 == spec_size::<Obj1>(o),
            group_end(data@, start as nat, k as nat, o) == Some(off as nat),
            groups_read(v@, data@, start as nat, k as nat, o),
        decreases count - k,
    {
        let h: Obj2 = match from_bytes(data, off, o) {
            Ok(h) => h,
            Err(e) => {
                proof {
                    lemma_group_end_none(data@, start as nat, (k + 1) as nat, count as nat, o);
                }
                return Err(e);
            },
        };
        let entries: Vec<Obj1> = match read_table_plain(data, off + s2, h.n as usize, o) {
            Ok(e) => e,
            Err(e) => {
                proof {
                    lemma_group_end_none(data@, start as nat, (k + 1) as nat, count as nat, o);
                }
                return Err(e);
            },
        };
        let ghost old_v = v@;
        v.push((h, entries));
        proof {
            assert forall|g: int| 0 <= g < k + 1 implies {
                let p = group_end(data@, start as nat, g as nat, o)->Some_0;
                let hh = spec_read::<Obj2>(data@.skip(p as int), o);
                &&& (#[trigger] v@[g]).0 == hh
                &&& Some(v@[g].1@) == table_at::<Obj1>(data@, p + spec_size::<Obj2>(o), hh.n as nat, o)
            } by {
                if g < k {
                    assert(v@[g] == old_v[g]);
                }
            }
        }
        assert(off + s2 + (h.n as usize) * s1 <= n);
        off = off + s2 + (h.n as usize) * s1;
        k = k + 1;
    }
    Ok((v, off))
}

/// The audio table stored in `d` in byte order `o` lies wholly inside `d`:
/// its header, each list and each group.
pub open spec fn audio_fits(d: Seq<u8>, o: Endian) -> bool {
    let a = spec_size::<Header>(o);
    let s1 = spec_size::<Obj1>(o);
    a <= d.len() && {
        let h = spec_read::<Header>(d, o);
        let b = (a + h.n1 * s1) as nat;
        &&& table_at::<Obj1>(d, a, h.n1 as nat, o) is Some
        &&& group_end(d, b, h.n2 as nat, o) is Some
        &&& {
            let e2 = group_end(d, b, h.n2 as nat, o)->Some_0;
            &&& group_end(d, e2, h.n3 as nat, o) is Some
            &&& {
                let e3 = group_end(d, e2, h.n3 as nat, o)->Some_0;
                let e4 = (e3 + h.n4 * s1) as nat;
                let e5 = (e4 + h.n5 * s1) as nat;
                let e6 = (e5 + h.n6 * s1) as nat;
                &&& table_at::<Obj1>(d, e3, h.n4 as nat, o) is Some
                &&& table_at::<Obj1>(d, e4, h.n5 as nat, o) is Some
                &&& table_at::<Obj1>(d, e5, h.n6 as nat, o) is Some
                &&& table_at::<Obj1>(d, e6, h.n7 as nat, o) is Some
            }
        }
    }
}

/// An audio table: seven lists of keyed entries, two of them grouped under
/// headers, then trailing keys.
pub struct AudioTable {
    pub header: Header,
    pub obj1s: Vec<Obj1>,
    pub obj2s: Vec<(Obj2, Vec<Obj1>)>,
    pub obj3s: Vec<(Obj2, Vec<Obj1>)>,
    pub obj4s: Vec<Obj1>,
    pub obj5s: Vec<Obj1>,
    pub obj6s: Vec<Obj1>,
    pub obj7s: Vec<Obj1>,
    pub extra: Vec<Crc>,
}

/// The stored form of the groups `v`: each group's header, then its entries.
pub open spec fn groups_bytes(v: Seq<(Obj2, Vec<Obj1>)>, o: Endian) -> Seq<u8>
    decreases v.len(),
{
    if v.len() == 0 {
        seq![]
    } else {
        groups_bytes(v.drop_last(), o) + spec_dump(v.last().0, o) + spec_dump_seq(v.last().1@, o)
    }
}

/// The stored form of an audio table in byte order `o`.
pub open spec fn audio_bytes(t: AudioTable, o: Endian) -> Seq<u8> {
    spec_dump(t.header, o) + spec_dump_seq(t.obj1s@, o) + groups_bytes(t.obj2s@, o) + groups_bytes(
        t.obj3s@,
        o,
    ) + spec_dump_seq(t.obj4s@, o) + spec_dump_seq(t.obj5s@, o) + spec_dump_seq(t.obj6s@, o)
        + spec_dump_seq(t.obj7s@, o) + spec_dump_seq(t.extra@, o)
}

fn append_bytes(out: &mut Vec<u8>, b: &Vec<u8>)
    ensures
        final(out)@ == old(out)@ + b@,
{
    crate::codec::extend_from(out, b);
}

impl AudioTable {
    /// Reads an audio table stored in byte order `o`: the header, then each
    /// list in turn, its length from the header (a group's from its own
    /// header), then as many whole trailing keys as remain.
    #[verifier::rlimit(100)]
    #[verifier::spinoff_prover]
    pub fn from_data(data: &[u8], o: Endian) -> (r: Result<AudioTable, CodecError>)
        ensures
            r is Ok <==> audio_fits(data@, o),
            match r {
                Ok(t) => {
                    let d = data@;
                    let h = t.header;
                    let s1 = spec_size::<Obj1>(o);
                    let a = spec_size::<Header>(o);
                    let b = (a + h.n1 * s1) as nat;
                    let e2 = group_end(d, b, h.n2 as nat, o)->Some_0;
                    let e3 = group_end(d, e2, h.n3 as nat, o)->Some_0;
                    let e4 = (e3 + h.n4 * s1) as nat;
                    let e5 = (e4 + h.n5 * s1) as nat;
                    let e6 = (e5 + h.n6 * s1) as nat;
                    let e7 = (e6 + h.n7 * s1) as nat;
                    &&& a <= d.len()
                    &&& h == spec_read::<Header>(d, o)
                    &&& Some(t.obj1s@) == table_at::<Obj1>(d, a, h.n1 as nat, o)
                    &&& group_end(d, b, h.n2 as nat, o) is Some
                    &&& groups_read(t.obj2s@, d, b, h.n2 as nat, o)
                    &&& group_end(d, e2, h.n3 as nat, o) is Some
                    &&& groups_read(t.obj3s@, d, e2, h.n3 as nat, o)
                    &&& Some(t.obj4s@) == table_at::<Obj1>(d, e3, h.n4 as nat, o)
                    &&& Some(t.obj5s@) == table_at::<Obj1>(d, e4, h.n5 as nat, o)
                    &&& Some(t.obj6s@) == table_at::<Obj1>(d, e5, h.n6 as nat, o)
                    &&& Some(t.obj7s@) == table_at::<Obj1>(d, e6, h.n7 as nat, o)
                    &&& e7 <= d.len()
                    &&& Some(t.extra@) == table_at::<Crc>(d, e7, ((d.len() - e7) / 4) as nat, o)
                },
                Err(e) => e == CodecError::OutOfBounds,
            },
    {
        proof {
            crate::codec::lemma_word_size(o);
            assert(data@.skip(0) =~= data@);
        }
        let dl = data.len();
        let header: Header = from_bytes(data, 0, o)?;
        let s1 = size::<Obj1>(o);
        let a = size::<Header>(o);
        let obj1s: Vec<Obj1> = read_table_plain(data, a, header.n1 as usize, o)?;
        assert(a + (header.n1 as usize) * s1 <= dl);
        let b = a + (header.n1 as usize) * s1;
        let (obj2s, e2) = read_groups(data, b, header.n2, o)?;
        let (obj3s, e3) = read_groups(data, e2, header.n3, o)?;
        let obj4s: Vec<Obj1> = read_table_plain(data, e3, header.n4 as usize, o)?;
        assert(e3 + (header.n4 as usize) * s1 <= dl);
        let e4 = e3 + (header.n4 as usize) * s1;
        let obj5s: Vec<Obj1> = read_table_plain(data, e4, header.n5 as usize, o)?;
        assert(e4 + (header.n5 as usize) * s1 <= dl);
        let e5 = e4 + (header.n5 as usize) * s1;
        let obj6s: Vec<Obj1> = read_table_plain(data, e5, header.n6 as usize, o)?;
        assert(e5 + (header.n6 as usize) * s1 <= dl);
        let e6 = e5 + (header.n6 as usize) * s1;
        let obj7s: Vec<Obj1> = read_table_plain(data, e6, header.n7 as usize, o)?;
        assert(e6 + (header.n7 as usize) * s1 <= dl);
        let e7 = e6 + (header.n7 as usize) * s1;
        let words = (dl - e7) / 4;
        proof {
            reveal_with_fuel(crate::codec::layout_size, 2);
            assert(spec_size::<Crc>(o) == 4);
            assert(words * 4 <= dl - e7) by (nonlinear_arith)
                requires
                    words == (dl - e7) / 4,
                    e7 <= dl,
            ;
        }
        let extra: Vec<Crc> = read_table_plain(data, e7, words, o)?;
        Ok(AudioTable { header, obj1s, obj2s, obj3s, obj4s, obj5s, obj6s, obj7s, extra })
    }

    /// The stored form of the table in byte order `o`: the header, then each
    /// list in turn.
    pub fn to_data(&self, o: Endian) -> (r: Vec<u8>)
        ensures
            r@ == audio_bytes(*self, o),
    {
        let mut r = dump_bytes(&self.header, o);
        append_bytes(&mut r, &dump_bytes_vec(&self.obj1s, o));
        append_groups(&mut r, &self.obj2s, o);
        append_groups(&mut r, &self.obj3s, o);
        append_bytes(&mut r, &dump_bytes_vec(&self.obj4s, o));
        append_bytes(&mut r, &dump_bytes_vec(&self.obj5s, o));
        append_bytes(&mut r, &dump_bytes_vec(&self.obj6s, o));
        append_bytes(&mut r, &dump_bytes_vec(&self.obj7s, o));
        append_bytes(&mut r, &dump_bytes_vec(&self.extra, o));
        r
    }
}

fn append_groups(out: &mut Vec<u8>, v: &Vec<(Obj2, Vec<Obj1>)>, o: Endian)
    ensures
        final(out)@ == old(out)@ + groups_bytes(v@, o),
{
    let ghost start = out@;
    let mut i: usize = 0;
    while i < v.len()
        invariant
            i <= v@.len(),
            out@ == start + groups_bytes(v@.take(i as int), o),
        decreases v@.len() - i,
    {
        assert(v@.take(i + 1).drop_last() =~= v@.take(i as int));
        extend_bytes(&v[i].0, o, out);
        append_bytes(out, &dump_bytes_vec(&v[i].1, o));
        i = i + 1;
        assert(out@ =~= start + groups_bytes(v@.take(i as int), o));
    }
    assert(v@.take(i as int) =~= v@);
}

} // verus!
