//! A level's file pair: telling which byte order it was written in, parsing
//! its index and payload files (headers, string tables, asset blocks, the two
//! main blocks and their tables), and writing both files back, the payload
//! file with its cross-references relocated.
//!
//! The first word of every container holds a small version constant. Read in
//! the container's own byte order it gives that constant, so the byte that
//! holds it is the first one in little-endian files and the fourth one in
//! big-endian files.
use vstd::prelude::*;
use crate::bin::{AssetHandle, Header};
use crate::pak;
use crate::codec::{dump_bytes, dump_bytes_vec, from_bytes, from_bytes_vec, spec_dump, spec_dump_seq, spec_read, spec_size, CodecError, Endian, OrderedData};
use crate::container::{align_up, put_bytes, relocate, relocated, Container, RelocTable};
use crate::codec::extend_from;
use std::collections::HashMap;
use vstd::slice::slice_to_vec;
use crate::types::{strings_bytes, StringKeys, decoded_block, encoded_block, lossy_text, string_spans, update_strings, zlib_inflated, CompressedBlock, Crc, StringTable, Strings};
use vstd::utf8::encode_utf8;

verus! {

/// Version word of a level's index file.
pub const LEVEL_VERSION: u8 = 6;

/// Version word of the level list table.
pub const LEVEL_INFO_VERSION: u8 = 4;

/// Version word of an audio table.
pub const AUDIO_VERSION: u8 = 2;

/// The byte order of a container whose first word should read `version`, if
/// either order reads it so. Little-endian is tried first.
pub open spec fn order_of(data: Seq<u8>, version: u8) -> Result<Endian, CodecError> {
    if data.len() >= 1 && data[0] == version {
        Ok(Endian::Little)
    } else if data.len() >= 4 && data[3] == version {
        Ok(Endian::Big)
    } else {
        Err(CodecError::UnknownVersion)
    }
}

/// Decides the byte order of a container from its version byte. A container
/// that matches neither order is refused with `UnknownVersion`; no order is
/// guessed for it.
pub fn byte_order_of(data: &[u8], version: u8) -> (r: Result<Endian, CodecError>)
    ensures
        r == order_of(data@, version),
{
    if data.len() >= 1 && data[0] == version {
        Ok(Endian::Little)
    } else if data.len() >= 4 && data[3] == version {
        Ok(Endian::Big)
    } else {
        Err(CodecError::UnknownVersion)
    }
}

/// A container whose version byte matches neither supported byte order gets
/// the distinguished failure, and only such a container gets it.
pub proof fn lemma_unknown_version(data: Seq<u8>, version: u8)
    ensures
        order_of(data, version) == Err::<Endian, CodecError>(CodecError::UnknownVersion) <==> !(
        data.len() >= 1 && data[0] == version) && !(data.len() >= 4 && data[3] == version),
        order_of(data, version) is Ok || order_of(data, version) == Err::<Endian, CodecError>(
            CodecError::UnknownVersion,
        ),
{
}

/// The version number written into the headers of a rebuilt level: 1 for
/// little-endian files, 2 for big-endian ones.
pub fn header_version(o: Endian) -> (r: u32)
    ensures
        r == (if o == Endian::Little {
            1u32
        } else {
            2u32
        }),
{
    match o {
        Endian::Little => 1,
        Endian::Big => 2,
    }
}


/// The parsed index (BIN) file of a level: its byte order, header, string
/// table, asset handles and the payload block of each handle.
pub struct BinIndex {
    pub order: Endian,
    pub header: Header,
    pub strings: Strings,
    pub handles: Vec<AssetHandle>,
    pub blocks: Vec<CompressedBlock>,
}

/// An index file that cannot be parsed: its version byte matches neither byte
/// order, its header or handle table passes the end, its string table does not
/// fit, or some handle's block does not decode.
pub open spec fn bin_unreadable(d: Seq<u8>) -> bool {
    match order_of(d, LEVEL_VERSION) {
        Err(_) => true,
        Ok(o) => {
            spec_size::<Header>(o) > d.len() || {
                let h = spec_read::<Header>(d, o);
                let hs = spec_size::<AssetHandle>(o);
                ||| string_spans(d, h.strings_offset as nat, h.strings_num as nat, o) is None
                ||| h.asset_handle_offset + h.asset_handle_num * hs > d.len()
                ||| exists|i: int|
                    0 <= i < h.asset_handle_num && (#[trigger] decoded_block(
                        d,
                        spec_read::<AssetHandle>(d.skip(h.asset_handle_offset + i * hs), o).size as nat,
                        spec_read::<AssetHandle>(d.skip(h.asset_handle_offset + i * hs), o).size_comp as nat,
                        spec_read::<AssetHandle>(d.skip(h.asset_handle_offset + i * hs), o).offset as nat,
                    )) is Err
            }
        },
    }
}

/// Parses a level's index file. Its byte order comes from the version byte;
/// the strings are interned into `table` before the asset handles are read,
/// so that the handles' keys come back with their strings where known.
#[verifier::rlimit(80)]
#[verifier::spinoff_prover]
pub fn parse_bin(bin_data: &[u8], table: &mut StringTable) -> (r: Result<BinIndex, CodecError>)
    requires
        old(table).wf(),
    ensures
        final(table).wf(),
        order_of(bin_data@, LEVEL_VERSION) is Err ==> r == Err::<BinIndex, CodecError>(
            CodecError::UnknownVersion,
        ),
        r is Err ==> bin_unreadable(bin_data@),
        match r {
            Ok(x) => {
                let o = x.order;
                let h = x.header;
                let hs = spec_size::<AssetHandle>(o);
                &&& order_of(bin_data@, LEVEL_VERSION) == Ok::<Endian, CodecError>(o)
                &&& h == spec_read::<Header>(bin_data@, o)
                &&& string_spans(bin_data@, h.strings_offset as nat, h.strings_num as nat, o) is Some
                &&& x.strings@.len() == h.strings_num
                &&& final(table)@ == crate::types::interned(old(table)@, x.strings.strings@)
                &&& forall|i: int|
                    0 <= i < h.strings_num ==> {
                        let sp = string_spans(
                            bin_data@,
                            h.strings_offset as nat,
                            h.strings_num as nat,
                            o,
                        )->Some_0;
                        #[trigger] x.strings@[i] == lossy_text(
                            bin_data@.subrange(sp[i].0 as int, (sp[i].0 + sp[i].1) as int),
                        )
                    }
                &&& x.handles@.len() == h.asset_handle_num
                &&& x.blocks@.len() == h.asset_handle_num
                &&& forall|i: int|
                    0 <= i < h.asset_handle_num ==> {
                        let stored = spec_read::<AssetHandle>(
                            bin_data@.skip(h.asset_handle_offset + i * hs),
                            o,
                        );
                        &&& (#[trigger] x.handles@[i]).spec_values() == stored.spec_values()
                        &&& (x.handles@[i].key is Str <==> final(table)@.contains_key(
                            stored.key.spec_key(),
                        ))
                        &&& decoded_block(
                            bin_data@,
                            stored.size as nat,
                            stored.size_comp as nat,
                            stored.offset as nat,
                        ) == Ok::<Seq<u8>, CodecError>(x.blocks@[i].data@)
                    }
            },
            Err(_) => true,
        },
{
    let o = byte_order_of(bin_data, LEVEL_VERSION)?;
    assert(bin_data@.skip(0) =~= bin_data@);
    let header: Header = from_bytes(bin_data, 0, o)?;
    let strings = Strings::from_data(
        bin_data,
        header.strings_offset as usize,
        header.strings_num as usize,
        o,
    )?;
    update_strings(table, strings.strings.as_slice());
    let ghost after_strings = table@;
    let n = header.asset_handle_num as usize;
    let stored: Vec<AssetHandle> = from_bytes_vec(bin_data, header.asset_handle_offset as usize, n, o)?;
    let ghost hs = spec_size::<AssetHandle>(o);
    let mut handles: Vec<AssetHandle> = Vec::new();
    let mut blocks: Vec<CompressedBlock> = Vec::new();
    let mut i: usize = 0;
    while i < n
        invariant
            i <= n,
            order_of(bin_data@, LEVEL_VERSION) == Ok::<Endian, CodecError>(o),
            n == header.asset_handle_num,
            header == spec_read::<Header>(bin_data@, o),
            stored@.len() == n,
            table.wf(),
            table@ == after_strings,
            hs == spec_size::<AssetHandle>(o),
            forall|k: int|
                0 <= k < n ==> #[trigger] stored@[k] == spec_read::<AssetHandle>(
                    bin_data@.skip(header.asset_handle_offset + k * hs),
                    o,
                ),
            handles@.len() == i,
            blocks@.len() == i,
            forall|k: int|
                0 <= k < i ==> {
                    &&& (#[trigger] handles@[k]).spec_values() == stored@[k].spec_values()
                    &&& (handles@[k].key is Str <==> table@.contains_key(stored@[k].key.spec_key()))
                    &&& decoded_block(
                        bin_data@,
                        stored@[k].size as nat,
                        stored@[k].size_comp as nat,
                        stored@[k].offset as nat,
                    ) == Ok::<Seq<u8>, CodecError>(blocks@[k].data@)
                },
        decreases n - i,
    {
        let h = &stored[i];
        let b = match CompressedBlock::from_data(
            bin_data,
            h.size as usize,
            h.size_comp as usize,
            h.offset as usize,
        ) {
            Ok(b) => b,
            Err(e) => {
                assert(decoded_block(
                    bin_data@,
                    spec_read::<AssetHandle>(bin_data@.skip(header.asset_handle_offset + i * hs), o).size as nat,
                    spec_read::<AssetHandle>(bin_data@.skip(header.asset_handle_offset + i * hs), o).size_comp as nat,
                    spec_read::<AssetHandle>(bin_data@.skip(header.asset_handle_offset + i * hs), o).offset as nat,
                ) is Err);
                return Err(e);
            },
        };
        let key = Crc::resolve(h.key.key(), table);
        handles.push(
            AssetHandle {
                key,
                offset: h.offset,
                size: h.size,
                size_comp: h.size_comp,
                kind: h.kind,
            },
        );
        blocks.push(b);
        i = i + 1;
    }
    Ok(BinIndex { order: o, header, strings, handles, blocks })
}


/// A stored block decodes the same wherever it is placed in a larger buffer.
proof fn lemma_block_moved(big: Seq<u8>, stored: Seq<u8>, data: Seq<u8>, off: nat)
    requires
        off + stored.len() <= big.len(),
        big.subrange(off as int, (off + stored.len()) as int) == stored,
        decoded_block(stored, data.len(), stored.len(), 0) == Ok::<Seq<u8>, CodecError>(data),
    ensures
        decoded_block(big, data.len(), stored.len(), off) == Ok::<Seq<u8>, CodecError>(data),
{
    if stored.len() == 0 {
        assert(data.len() == 0);
        assert(big.subrange(off as int, off as int) =~= data);
    } else {
        assert(stored.subrange(0, stored.len() as int) =~= stored);
    }
}

/// The blocks that decode from a buffer still decode after more is appended.
proof fn lemma_blocks_kept(before: Seq<u8>, tail: Seq<u8>, handles: Seq<AssetHandle>, blocks: Seq<CompressedBlock>)
    requires
        handles.len() <= blocks.len(),
        forall|k: int|
            0 <= k < handles.len() ==> decoded_block(
                before,
                (#[trigger] handles[k]).size as nat,
                handles[k].size_comp as nat,
                handles[k].offset as nat,
            ) == Ok::<Seq<u8>, CodecError>(blocks[k].data@),
    ensures
        forall|k: int|
            0 <= k < handles.len() ==> decoded_block(
                before + tail,
                (#[trigger] handles[k]).size as nat,
                handles[k].size_comp as nat,
                handles[k].offset as nat,
            ) == Ok::<Seq<u8>, CodecError>(blocks[k].data@),
{
    assert forall|k: int| 0 <= k < handles.len() implies decoded_block(
        before + tail,
        (#[trigger] handles[k]).size as nat,
        handles[k].size_comp as nat,
        handles[k].offset as nat,
    ) == Ok::<Seq<u8>, CodecError>(blocks[k].data@) by {
        let hk = handles[k];
        if hk.size_comp == 0 {
            lemma_keeps_prefix(before, tail, hk.offset as int, (hk.offset + hk.size) as int);
        } else {
            lemma_keeps_prefix(before, tail, hk.offset as int, (hk.offset + hk.size_comp) as int);
        }
    }
}

/// Rewriting the front of a buffer keeps the blocks that lie past it.
proof fn lemma_blocks_kept_patch(before: Seq<u8>, front: Seq<u8>, handles: Seq<AssetHandle>, blocks: Seq<CompressedBlock>)
    requires
        handles.len() <= blocks.len(),
        front.len() <= before.len(),
        forall|k: int|
            0 <= k < handles.len() ==> (#[trigger] handles[k]).offset >= front.len() && decoded_block(
                before,
                handles[k].size as nat,
                handles[k].size_comp as nat,
                handles[k].offset as nat,
            ) == Ok::<Seq<u8>, CodecError>(blocks[k].data@),
    ensures
        forall|k: int|
            0 <= k < handles.len() ==> decoded_block(
                put_bytes(before, 0, front),
                (#[trigger] handles[k]).size as nat,
                handles[k].size_comp as nat,
                handles[k].offset as nat,
            ) == Ok::<Seq<u8>, CodecError>(blocks[k].data@),
{
    let after = put_bytes(before, 0, front);
    assert forall|k: int| 0 <= k < handles.len() implies decoded_block(
        after,
        (#[trigger] handles[k]).size as nat,
        handles[k].size_comp as nat,
        handles[k].offset as nat,
    ) == Ok::<Seq<u8>, CodecError>(blocks[k].data@) by {
        let hk = handles[k];
        if hk.size_comp == 0 {
            assert(after.subrange(hk.offset as int, (hk.offset + hk.size) as int) =~= before.subrange(hk.offset as int, (hk.offset + hk.size) as int));
        } else {
            assert(after.subrange(hk.offset as int, (hk.offset + hk.size_comp) as int) =~= before.subrange(hk.offset as int, (hk.offset + hk.size_comp) as int));
        }
    }
}

/// Appending to a buffer keeps what was in it.
proof fn lemma_keeps_prefix(a: Seq<u8>, b: Seq<u8>, lo: int, hi: int)
    requires
        0 <= lo <= hi <= a.len(),
    ensures
        (a + b).subrange(lo, hi) == a.subrange(lo, hi),
{
    assert((a + b).subrange(lo, hi) =~= a.subrange(lo, hi));
}

/// Where the last of the first `k` blocks ends when each block is stored at
/// compression level `level` on a 2048-byte boundary after a header of `hsize`
/// bytes.
pub open spec fn bin_blocks_end(hsize: nat, blocks: Seq<CompressedBlock>, level: u32, k: nat) -> nat
    decreases k,
{
    if k == 0 {
        hsize
    } else {
        align_up(bin_blocks_end(hsize, blocks, level, (k - 1) as nat), 2048) + encoded_block(
            blocks[k - 1].data@,
            level,
        ).len()
    }
}

/// The length of the index file that `build_bin` lays out: the header, each
/// block on a 2048-byte boundary, the handle table on a 2048-byte boundary,
/// the string table, and padding to 2048 bytes.
pub open spec fn bin_laid_out_len(index: BinIndex, o: Endian, level: u32) -> nat {
    let n = index.blocks@.len();
    let e = align_up(bin_blocks_end(spec_size::<Header>(o), index.blocks@, level, n), 2048);
    align_up(
        e + n * spec_size::<AssetHandle>(o) + strings_bytes(index.strings.spec_utf8(), o).len(),
        2048,
    )
}

/// Every offset, size and count of the index file fits its 32-bit field.
pub open spec fn bin_fits(index: BinIndex, o: Endian, level: u32) -> bool {
    &&& bin_laid_out_len(index, o, level) <= 0xffff_ffff
    &&& forall|i: int| 0 <= i < index.blocks@.len() ==> #[trigger] index.blocks@[i].data@.len() <= 0xffff_ffff
    &&& index.strings@.len() <= 0xffff_ffff
}

proof fn lemma_blocks_end_grows(hsize: nat, blocks: Seq<CompressedBlock>, level: u32, k: nat, n: nat)
    requires
        k <= n,
    ensures
        bin_blocks_end(hsize, blocks, level, k) <= bin_blocks_end(hsize, blocks, level, n),
    decreases n - k,
{
    if k < n {
        lemma_blocks_end_grows(hsize, blocks, level, k + 1, n);
    }
}

fn align_2048(n: usize) -> (r: u64)
    requires
        n <= 0xffff_ffff,
    ensures
        r == align_up(n as nat, 2048),
{
    let rem = n % 2048;
    if rem == 0 {
        n as u64
    } else {
        n as u64 + (2048 - rem) as u64
    }
}

/// Writes a level's index file in byte order `o`: a header, then each asset's
/// block stored at compression level `level` on a 2048-byte boundary, then the
/// asset handles pointing at them on a 2048-byte boundary and the string
/// table, the file padded to 2048 bytes. Returns the file, the header and the
/// handles it holds. Fails exactly when an offset, size or count would not
/// fit its 32-bit field.
#[verifier::rlimit(100)]
#[verifier::spinoff_prover]
pub fn build_bin(index: &BinIndex, o: Endian, level: u32) -> (r: Result<
    (Vec<u8>, Header, Vec<AssetHandle>),
    CodecError,
>)
    requires
        level <= 9,
        index.handles@.len() == index.blocks@.len(),
        forall|i: int|
            0 <= i < index.strings.strings@.len() ==> #[trigger] encode_utf8(
                index.strings.strings@[i]@,
            ).len() < 0x1_0000_0000,
    ensures
        r is Ok <==> bin_fits(*index, o, level),
        match r {
            Ok((bytes, h, handles)) => {
                let n = index.handles@.len();
                &&& bytes@.len() == bin_laid_out_len(*index, o, level)
                &&& bytes@.len() % 2048 == 0
                &&& bytes@.take(spec_size::<Header>(o) as int) == spec_dump(h, o)
                &&& h.version == (if o == Endian::Little {
                    1u32
                } else {
                    2u32
                })
                &&& h.asset_handle_num == n
                &&& h.asset_handle_offset % 2048 == 0
                &&& h.strings_num == index.strings@.len()
                &&& handles@.len() == n
                &&& bytes@.subrange(
                    h.asset_handle_offset as int,
                    h.asset_handle_offset + spec_dump_seq(handles@, o).len(),
                ) == spec_dump_seq(handles@, o)
                &&& forall|i: int|
                    0 <= i < n ==> {
                        &&& (#[trigger] handles@[i]).key.spec_key() == index.handles@[i].key.spec_key()
                        &&& handles@[i].kind == index.handles@[i].kind
                        &&& handles@[i].offset % 2048 == 0
                        &&& spec_size::<Header>(o) <= handles@[i].offset
                        &&& handles@[i].offset + handles@[i].size_comp <= h.asset_handle_offset
                        &&& decoded_block(
                            bytes@,
                            handles@[i].size as nat,
                            handles@[i].size_comp as nat,
                            handles@[i].offset as nat,
                        ) == Ok::<Seq<u8>, CodecError>(index.blocks@[i].data@)
                    }
                &&& forall|i: int, j: int|
                    0 <= i < j < n ==> #[trigger] handles@[i].offset + handles@[i].size_comp
                        <= #[trigger] handles@[j].offset
            },
            Err(e) => e == CodecError::Malformed,
        },
{
    let hsize = crate::codec::size::<Header>(o);
    let mut c = Container::new();
    let mut zeros: Vec<u8> = Vec::new();
    let mut k: usize = 0;
    while k < hsize
        invariant
            k <= hsize,
            zeros@.len() == k,
        decreases hsize - k,
    {
        zeros.push(0);
        k = k + 1;
    }
    assert(usize::MAX >= 0xffff_ffff);
    c.append(zeros.as_slice(), 1);
    let n = index.handles.len();
    let ghost blocks = index.blocks@;
    let ghost fin = bin_laid_out_len(*index, o, level);
    let mut handles: Vec<AssetHandle> = Vec::new();
    let mut i: usize = 0;
    while i < n
        invariant
            i <= n,
            level <= 9,
            n == index.handles@.len(),
            n == index.blocks@.len(),
            blocks == index.blocks@,
            fin == bin_laid_out_len(*index, o, level),
            c.wf(),
            c.data@.len() == bin_blocks_end(hsize as nat, blocks, level, i as nat),
            c.data@.len() <= 0xffff_ffff,
            hsize == spec_size::<Header>(o),
            handles@.len() == i,
            forall|k: int|
                0 <= k < i ==> {
                    &&& (#[trigger] handles@[k]).key.spec_key() == index.handles@[k].key.spec_key()
                    &&& handles@[k].kind == index.handles@[k].kind
                    &&& handles@[k].offset % 2048 == 0
                    &&& handles@[k].offset >= hsize
                    &&& handles@[k].offset + handles@[k].size_comp <= c.data@.len()
                    &&& decoded_block(
                        c.data@,
                        handles@[k].size as nat,
                        handles@[k].size_comp as nat,
                        handles@[k].offset as nat,
                    ) == Ok::<Seq<u8>, CodecError>(index.blocks@[k].data@)
                },
            forall|a: int, b: int|
                0 <= a < b < i ==> #[trigger] handles@[a].offset + handles@[a].size_comp
                    <= #[trigger] handles@[b].offset,
            forall|k: int| 0 <= k < i ==> #[trigger] blocks[k].data@.len() <= 0xffff_ffff,
        decreases n - i,
    {
        let stored = index.blocks[i].dump(level);
        let len = c.len();
        let off_pred = align_2048(len);
        proof {
            lemma_blocks_end_grows(hsize as nat, blocks, level, (i + 1) as nat, n as nat);
        }
        if index.blocks[i].data.len() > 0xffff_ffff {
            assert(blocks[i as int].data@.len() > 0xffff_ffff);
            return Err(CodecError::Malformed);
        }
        if off_pred > 0xffff_ffff || stored.len() as u64 > 0xffff_ffff - off_pred {
            return Err(CodecError::Malformed);
        }
        let ghost before = c.data@;
        let off = c.append(stored.as_slice(), 2048);
        proof {
            let pad = Seq::new((off - before.len()) as nat, |q: int| 0u8);
            assert(c.data@ == before + pad + stored@);
            assert(c.data@ =~= before + (pad + stored@));
            lemma_blocks_kept(before, pad + stored@, handles@, index.blocks@);
            assert(c.data@.subrange(off as int, off + stored@.len()) =~= stored@);
            lemma_block_moved(c.data@, stored@, index.blocks@[i as int].data@, off as nat);
        }
        let h = &index.handles[i];
        let ghost old_handles = handles@;
        handles.push(
            AssetHandle {
                key: h.key.clone_key(),
                offset: off as u32,
                size: index.blocks[i].data.len() as u32,
                size_comp: stored.len() as u32,
                kind: h.kind,
            },
        );
        proof {
            assert forall|a: int, b: int|
                0 <= a < b < i + 1 implies #[trigger] handles@[a].offset + handles@[a].size_comp
                <= #[trigger] handles@[b].offset by {
                if b == i {
                    assert(handles@[a] == old_handles[a]);
                }
            }
            assert forall|k: int| 0 <= k < i + 1 implies {
                &&& (#[trigger] handles@[k]).key.spec_key() == index.handles@[k].key.spec_key()
                &&& handles@[k].kind == index.handles@[k].kind
                &&& handles@[k].offset % 2048 == 0
                &&& handles@[k].offset >= hsize
                &&& handles@[k].offset + handles@[k].size_comp <= c.data@.len()
                &&& decoded_block(
                    c.data@,
                    handles@[k].size as nat,
                    handles@[k].size_comp as nat,
                    handles@[k].offset as nat,
                ) == Ok::<Seq<u8>, CodecError>(index.blocks@[k].data@)
            } by {
                if k < i {
                    assert(handles@[k] == old_handles[k]);
                } else {
                    lemma_blocks_end_grows(hsize as nat, blocks, level, 0, i as nat);
                    assert(off >= len);
                    assert(handles@[k].offset == off);
                    assert(handles@[k].size_comp == stored@.len());
                    assert(handles@[k].size == index.blocks@[k].data@.len());
                }
            }
        }
        i = i + 1;
    }
    proof {
        reveal_with_fuel(crate::codec::layout_size, 6);
        assert(spec_size::<AssetHandle>(o) == 20);
    }
    let hb = dump_bytes_vec(&handles, o);
    let sb = index.strings.dump(o);
    proof {
        crate::codec::lemma_dump_seq_len(handles@, o);
    }
    let hoff_pred = align_2048(c.len());
    if hb.len() > 0xffff_ffff || sb.len() > 0xffff_ffff || index.strings.strings.len() > 0xffff_ffff {
        return Err(CodecError::Malformed);
    }
    let total: u64 = hoff_pred + hb.len() as u64 + sb.len() as u64;
    if total > 0xffff_ffff {
        return Err(CodecError::Malformed);
    }
    let fin_pred = align_2048(total as usize);
    if fin_pred > 0xffff_ffff {
        return Err(CodecError::Malformed);
    }
    let ghost before = c.data@;
    let hoff = c.append(hb.as_slice(), 2048);
    proof {
        assert(c.data@ =~= before + (Seq::new((hoff - before.len()) as nat, |q: int| 0u8) + hb@));
        lemma_blocks_kept(before, Seq::new((hoff - before.len()) as nat, |q: int| 0u8) + hb@, handles@, index.blocks@);
        assert(c.data@.subrange(hoff as int, hoff + hb@.len()) =~= hb@);
    }
    let ghost before = c.data@;
    let soff = c.append(sb.as_slice(), 1);
    proof {
        let tail = Seq::new((soff - before.len()) as nat, |q: int| 0u8) + sb@;
        assert(c.data@ =~= before + tail);
        lemma_blocks_kept(before, tail, handles@, index.blocks@);
        lemma_keeps_prefix(before, tail, hoff as int, hoff + hb@.len());
    }
    let empty: Vec<u8> = Vec::new();
    let ghost before = c.data@;
    let end = c.append(empty.as_slice(), 2048);
    proof {
        let tail = Seq::new((end - before.len()) as nat, |q: int| 0u8) + empty@;
        assert(c.data@ =~= before + tail);
        lemma_blocks_kept(before, tail, handles@, index.blocks@);
        lemma_keeps_prefix(before, tail, hoff as int, hoff + hb@.len());
    }
    let mut h = index.header;
    h.version = header_version(o);
    h.asset_handle_offset = hoff as u32;
    h.asset_handle_num = n as u32;
    h.strings_offset = soff as u32;
    h.strings_size = sb.len() as u32;
    h.strings_num = index.strings.strings.len() as u32;
    let front = dump_bytes(&h, o);
    let ghost before = c.data@;
    c.patch(0, front.as_slice());
    proof {
        lemma_blocks_kept_patch(before, front@, handles@, index.blocks@);
        assert(c.data@.subrange(hoff as int, hoff + hb@.len()) =~= before.subrange(hoff as int, hoff + hb@.len()));
        assert(c.data@.take(hsize as int) =~= front@);
    }
    Ok((c.finish(), h, handles))
}


/// The parsed payload (PAK) file of a level, up to its two main blocks: the
/// header, the string table, both blocks inflated, and the string key table
/// of the first block.
pub struct PakIndex {
    pub header: pak::Header,
    pub strings: Strings,
    pub block1: CompressedBlock,
    pub block2: CompressedBlock,
    pub string_keys: StringKeys,
    pub block2_offsets: Vec<u32>,
    pub tables: InfoTables,
}

/// A payload file that cannot be parsed in byte order `o`: its header passes
/// the end, its string table does not fit, one of its two blocks does not
/// decode, or the string key table of the first block cannot be read.
pub open spec fn pak_unreadable(d: Seq<u8>, o: Endian) -> bool {
    spec_size::<pak::Header>(o) > d.len() || {
        let h = spec_read::<pak::Header>(d, o);
        let b1 = decoded_block(d, h.block1_size as nat, h.block1_size_comp as nat, h.block1_offset as nat);
        ||| string_spans(d, h.strings_offset as nat, h.strings_num as nat, o) is None
        ||| b1 is Err
        ||| decoded_block(d, h.block2_size as nat, h.block2_size_comp as nat, h.block2_offset as nat) is Err
        ||| crate::types::string_keys_error(b1->Ok_0, h.string_keys_offset as nat, o) is Some
        ||| !info_tables_fit(b1->Ok_0, h, o)
        ||| h.block2_offsets_offset + h.block2_offsets_num * 4 > decoded_block(
            d,
            h.block2_size as nat,
            h.block2_size_comp as nat,
            h.block2_offset as nat,
        )->Ok_0.len()
    }
}

/// Parses a level's payload file in byte order `o`, which its index file
/// decides. The strings are interned into `table` first.
#[verifier::rlimit(80)]
#[verifier::spinoff_prover]
pub fn parse_pak(pak_data: &[u8], o: Endian, table: &mut StringTable) -> (r: Result<PakIndex, CodecError>)
    requires
        old(table).wf(),
    ensures
        final(table).wf(),
        r is Err ==> pak_unreadable(pak_data@, o),
        match r {
            Ok(x) => {
                let h = x.header;
                &&& final(table)@ == crate::types::interned(old(table)@, x.strings.strings@)
                &&& h == spec_read::<pak::Header>(pak_data@, o)
                &&& x.strings@.len() == h.strings_num
                &&& string_spans(pak_data@, h.strings_offset as nat, h.strings_num as nat, o) is Some
                &&& forall|i: int|
                    0 <= i < x.strings.strings@.len() ==> #[trigger] final(table)@.contains_key(
                        crate::types::hash_of(encode_utf8(x.strings.strings@[i]@), None),
                    )
                &&& decoded_block(
                    pak_data@,
                    h.block1_size as nat,
                    h.block1_size_comp as nat,
                    h.block1_offset as nat,
                ) == Ok::<Seq<u8>, CodecError>(x.block1.data@)
                &&& decoded_block(
                    pak_data@,
                    h.block2_size as nat,
                    h.block2_size_comp as nat,
                    h.block2_offset as nat,
                ) == Ok::<Seq<u8>, CodecError>(x.block2.data@)
                &&& x.string_keys.header == spec_read::<crate::types::StringKeysHeader>(
                    x.block1.data@.skip(h.string_keys_offset as int),
                    o,
                )
                &&& info_tables_fit(x.block1.data@, h, o)
                &&& info_tables_read(x.tables, x.block1.data@, h, o, final(table)@)
                &&& x.string_keys.vals@.len() == x.string_keys.header.num_a
                &&& forall|i: int|
                    0 <= i < x.string_keys.vals@.len() ==> {
                        &&& (#[trigger] x.string_keys.vals@[i]).spec_values()
                            == spec_read::<crate::types::StringKeysVal>(
                            x.block1.data@.skip(
                                h.string_keys_offset + spec_size::<crate::types::StringKeysHeader>(o)
                                    + i * spec_size::<crate::types::StringKeysVal>(o),
                            ),
                            o,
                        ).spec_values()
                        &&& x.string_keys.vals@[i].spec_keys_resolved(final(table)@)
                    }
                &&& x.block2_offsets@.len() == h.block2_offsets_num
                &&& forall|i: int|
                    0 <= i < h.block2_offsets_num ==> #[trigger] x.block2_offsets@[i]
                        == spec_read::<u32>(x.block2.data@.skip(h.block2_offsets_offset + i * 4), o)
            },
            Err(_) => true,
        },
{
    assert(pak_data@.skip(0) =~= pak_data@);
    let header: pak::Header = from_bytes(pak_data, 0, o)?;
    let strings = Strings::from_data(
        pak_data,
        header.strings_offset as usize,
        header.strings_num as usize,
        o,
    )?;
    update_strings(table, strings.strings.as_slice());
    let block1 = CompressedBlock::from_data(
        pak_data,
        header.block1_size as usize,
        header.block1_size_comp as usize,
        header.block1_offset as usize,
    )?;
    let block2 = CompressedBlock::from_data(
        pak_data,
        header.block2_size as usize,
        header.block2_size_comp as usize,
        header.block2_offset as usize,
    )?;
    let mut string_keys = StringKeys::from_data(
        block1.data.as_slice(),
        header.string_keys_offset as usize,
        o,
    )?;
    let ghost read_vals = string_keys.vals@;
    string_keys.vals = resolve_all(&string_keys.vals, table);
    proof {
        crate::codec::lemma_word_size(o);
    }
    let block2_offsets: Vec<u32> = from_bytes_vec(
        block2.data.as_slice(),
        header.block2_offsets_offset as usize,
        header.block2_offsets_num as usize,
        o,
    )?;
    let tables = read_info_tables(block1.data.as_slice(), &header, o, table)?;
    Ok(PakIndex { header, strings, block1, block2, string_keys, block2_offsets, tables })
}


/// Where the last of the first `k` animation blocks ends when each is stored
/// at compression level `level` on a 4096-byte boundary after `hsize` bytes.
pub open spec fn anim_blocks_end(hsize: nat, blocks: Seq<CompressedBlock>, level: u32, k: nat) -> nat
    decreases k,
{
    if k == 0 {
        hsize
    } else {
        align_up(anim_blocks_end(hsize, blocks, level, (k - 1) as nat) + 1, 4096) + encoded_block(
            blocks[k - 1].data@,
            level,
        ).len()
    }
}

proof fn lemma_anim_end_grows(hsize: nat, blocks: Seq<CompressedBlock>, level: u32, k: nat, n: nat)
    requires
        k <= n,
    ensures
        anim_blocks_end(hsize, blocks, level, k) <= anim_blocks_end(hsize, blocks, level, n),
    decreases n - k,
{
    if k < n {
        lemma_anim_end_grows(hsize, blocks, level, k + 1, n);
    }
}

fn align_4096(n: usize) -> (r: u64)
    requires
        n <= 0xffff_ffff,
    ensures
        r == align_up(n as nat, 4096),
{
    let rem = n % 4096;
    if rem == 0 {
        n as u64
    } else {
        n as u64 + (4096 - rem) as u64
    }
}

/// Block 1 as rebuilt: every relocated slot rewritten through `moved`.
pub open spec fn pak_block1(index: PakIndex, relocs: RelocTable, moved: Map<u32, u32>, o: Endian) -> Seq<u8> {
    relocated(index.block1.data@, relocs.locs@, moved, o)
}

/// Block 2 as rebuilt: its bytes followed by the list of its offsets.
pub open spec fn pak_block2(index: PakIndex, o: Endian) -> Seq<u8> {
    index.block2.data@ + spec_dump_seq(index.block2_offsets@, o)
}

/// The length of the payload file that `build_pak` lays out: the header, each
/// animation block, block 1, block 2 and the string table, each on a
/// 4096-byte boundary, and padding to 4096 bytes.
pub open spec fn pak_laid_out_len(index: PakIndex, anims: Seq<CompressedBlock>, b1: Seq<u8>, o: Endian, level: u32) -> nat {
    pak_tail_len(
        anim_blocks_end(spec_size::<pak::Header>(o), anims, level, anims.len()),
        b1,
        pak_block2(index, o),
        strings_bytes(index.strings.spec_utf8(), o).len(),
        level,
    )
}

/// The length of a payload file whose animation blocks end at `ea`: block 1,
/// block 2 and `sl` bytes of strings follow, each on a 4096-byte boundary,
/// and the file is padded to 4096 bytes.
pub open spec fn pak_tail_len(ea: nat, b1: Seq<u8>, b2: Seq<u8>, sl: nat, level: u32) -> nat {
    let off1 = align_up(ea + 1, 4096);
    let off2 = align_up(off1 + encoded_block(b1, level).len() + 1, 4096);
    let soff = align_up(off2 + encoded_block(b2, level).len() + 1, 4096);
    align_up(soff + sl, 4096)
}

/// Every offset, size and count of the payload file fits its 32-bit field.
pub open spec fn pak_fits(index: PakIndex, anims: Seq<CompressedBlock>, b1: Seq<u8>, o: Endian, level: u32) -> bool {
    &&& pak_laid_out_len(index, anims, b1, o, level) <= 0xffff_ffff
    &&& b1.len() <= 0xffff_ffff
    &&& pak_block2(index, o).len() <= 0xffff_ffff
    &&& index.strings@.len() <= 0xffff_ffff
    &&& index.block2_offsets@.len() <= 0xffff_ffff
    &&& forall|i: int| 0 <= i < anims.len() ==> #[trigger] anims[i].data@.len() <= 0xffff_ffff
}

proof fn lemma_decode_kept(before: Seq<u8>, tail: Seq<u8>, size: nat, comp: nat, off: nat, data: Seq<u8>)
    requires
        decoded_block(before, size, comp, off) == Ok::<Seq<u8>, CodecError>(data),
    ensures
        decoded_block(before + tail, size, comp, off) == Ok::<Seq<u8>, CodecError>(data),
{
    if comp == 0 {
        lemma_keeps_prefix(before, tail, off as int, (off + size) as int);
    } else {
        lemma_keeps_prefix(before, tail, off as int, (off + comp) as int);
    }
}

proof fn lemma_decode_kept_patch(before: Seq<u8>, front: Seq<u8>, size: nat, comp: nat, off: nat, data: Seq<u8>)
    requires
        front.len() <= off,
        decoded_block(before, size, comp, off) == Ok::<Seq<u8>, CodecError>(data),
    ensures
        decoded_block(put_bytes(before, 0, front), size, comp, off) == Ok::<Seq<u8>, CodecError>(data),
{
    let after = put_bytes(before, 0, front);
    if comp == 0 {
        assert(after.subrange(off as int, (off + size) as int) =~= before.subrange(off as int, (off + size) as int));
    } else {
        assert(after.subrange(off as int, (off + comp) as int) =~= before.subrange(off as int, (off + comp) as int));
    }
}

/// Every slot of `locs` lies inside `b`.
pub open spec fn slots_in_bounds(b: Seq<u8>, locs: Seq<usize>) -> bool {
    forall|k: int| 0 <= k < locs.len() ==> #[trigger] locs[k] + 4 <= b.len()
}

/// Every slot of `locs` in `b` holds an old offset that `moved` knows.
pub open spec fn slots_mapped(b: Seq<u8>, locs: Seq<usize>, moved: Map<u32, u32>, o: Endian) -> bool {
    forall|k: int|
        0 <= k < locs.len() ==> moved.contains_key(
            #[trigger] crate::container::offset_at(b, locs[k] as int, o) as u32,
        )
}

proof fn lemma_pak_len_bounds(ea: nat, b1: Seq<u8>, b2: Seq<u8>, sl: nat, level: u32)
    ensures
        ({
            let off1 = align_up(ea + 1, 4096);
            let off2 = align_up(off1 + encoded_block(b1, level).len() + 1, 4096);
            let soff = align_up(off2 + encoded_block(b2, level).len() + 1, 4096);
            let fin = pak_tail_len(ea, b1, b2, sl, level);
            &&& ea < off1
            &&& off1 + encoded_block(b1, level).len() < off2
            &&& off2 + encoded_block(b2, level).len() < soff
            &&& soff + sl <= fin
        }),
{
}

/// One stored block of a built file: where it starts, its size, its stored size.
pub open spec fn frame_decodes(bytes: Seq<u8>, f: (u32, u32, u32), data: Seq<u8>) -> bool {
    decoded_block(bytes, f.1 as nat, f.2 as nat, f.0 as nat) == Ok::<Seq<u8>, CodecError>(data)
}

/// Appends `data` stored at level `level` on the first 4096-byte boundary
/// strictly past the current end, and returns where it lies; fails when it
/// would pass the 32-bit range.
fn place_block(c: &mut Container, data: &Vec<u8>, level: u32) -> (r: Option<(u32, u32, u32)>)
    requires
        old(c).wf(),
        old(c).data@.len() <= 0xffff_ffff,
        level <= 9,
    ensures
        match r {
            Some(f) => {
                &&& final(c).wf()
                &&& f.0 == align_up(old(c).data@.len() + 1, 4096)
                &&& f.1 == data@.len()
                &&& f.2 == encoded_block(data@, level).len()
                &&& final(c).data@.len() == f.0 + f.2
                &&& final(c).data@.len() <= 0xffff_ffff
                &&& final(c).data@.take(old(c).data@.len() as int) == old(c).data@
                &&& frame_decodes(final(c).data@, f, data@)
            },
            None => *final(c) == *old(c) && (data@.len() > 0xffff_ffff || align_up(
                old(c).data@.len() + 1,
                4096,
            ) + encoded_block(data@, level).len() > 0xffff_ffff),
        },
{
    if data.len() > 0xffff_ffff {
        return None;
    }
    let stored = CompressedBlock { data: slice_to_vec(data.as_slice()) }.dump(level);
    let len = c.len();
    if len >= 0xffff_ffff {
        return None;
    }
    let off_pred = align_4096(len + 1);
    if off_pred > 0xffff_ffff || stored.len() as u64 > 0xffff_ffff - off_pred {
        return None;
    }
    let ghost before = c.data@;
    let gap: [u8; 1] = [0u8];
    c.append(&gap, 1);
    assert(c.data@.len() == before.len() + 1);
    let ghost mid = c.data@;
    let off = c.append(stored.as_slice(), 4096);
    proof {
        let pad = Seq::new((off - mid.len()) as nat, |q: int| 0u8);
        assert(c.data@ =~= mid + (pad + stored@));
        assert(c.data@.take(before.len() as int) =~= before);
        assert(c.data@.subrange(off as int, off + stored@.len()) =~= stored@);
        lemma_block_moved(c.data@, stored@, data@, off as nat);
    }
    Some((off as u32, data.len() as u32, stored.len() as u32))
}

/// Lays out block 1, block 2 and the string table of a payload file after
/// its animation blocks, each on a 4096-byte boundary, pads the file and
/// writes the header; fails when the file would pass the 32-bit range.
#[verifier::rlimit(100)]
#[verifier::spinoff_prover]
fn pak_tail(
    c: Container,
    frames: Vec<(u32, u32, u32)>,
    fdata: Ghost<Seq<Seq<u8>>>,
    b1: &Vec<u8>,
    b2: &Vec<u8>,
    index: &PakIndex,
    o: Endian,
    level: u32,
) -> (r: Option<(Vec<u8>, pak::Header, Vec<(u32, u32, u32)>)>)
    requires
        level <= 9,
        c.wf(),
        spec_size::<pak::Header>(o) <= c.data@.len() <= 0xffff_ffff,
        frames@.len() == fdata@.len(),
        forall|k: int|
            0 <= k < frames@.len() ==> {
                &&& (#[trigger] frames@[k]).0 % 4096 == 0
                &&& frames@[k].0 >= spec_size::<pak::Header>(o)
                &&& frames@[k].0 + frames@[k].2 <= c.data@.len()
                &&& frame_decodes(c.data@, frames@[k], fdata@[k])
            },
        b1@.len() <= 0xffff_ffff,
        b2@.len() <= 0xffff_ffff,
        index.block2.data@.len() <= 0xffff_ffff,
        index.strings.strings@.len() <= 0xffff_ffff,
        index.block2_offsets@.len() <= 0xffff_ffff,
        forall|i: int|
            0 <= i < index.strings.strings@.len() ==> #[trigger] encode_utf8(
                index.strings.strings@[i]@,
            ).len() < 0x1_0000_0000,
    ensures
        ({
            let len = pak_tail_len(
                c.data@.len(),
                b1@,
                b2@,
                strings_bytes(index.strings.spec_utf8(), o).len(),
                level,
            );
            match r {
                Some((bytes, h, fr)) => {
                    &&& len <= 0xffff_ffff
                    &&& fr@ == frames@
                    &&& bytes@.len() == len
                    &&& bytes@.len() % 4096 == 0
                    &&& bytes@.take(spec_size::<pak::Header>(o) as int) == spec_dump(h, o)
                    &&& h.block1_offset % 4096 == 0
                    &&& h.block2_offset % 4096 == 0
                    &&& h.strings_offset % 4096 == 0
                    &&& c.data@.len() < h.block1_offset
                    &&& h.block1_offset + h.block1_size_comp < h.block2_offset
                    &&& h.block2_offset + h.block2_size_comp < h.strings_offset
                    &&& decoded_block(
                        bytes@,
                        h.block1_size as nat,
                        h.block1_size_comp as nat,
                        h.block1_offset as nat,
                    ) == Ok::<Seq<u8>, CodecError>(b1@)
                    &&& decoded_block(
                        bytes@,
                        h.block2_size as nat,
                        h.block2_size_comp as nat,
                        h.block2_offset as nat,
                    ) == Ok::<Seq<u8>, CodecError>(b2@)
                    &&& h.block2_offsets_offset == index.block2.data@.len()
                    &&& h.block2_offsets_num == index.block2_offsets@.len()
                    &&& h.strings_num == index.strings@.len()
                    &&& bytes@.subrange(h.strings_offset as int, h.strings_offset + h.strings_size)
                        == strings_bytes(index.strings.spec_utf8(), o)
                    &&& forall|k: int|
                        0 <= k < frames@.len() ==> #[trigger] frame_decodes(bytes@, frames@[k], fdata@[k])
                },
                None => len > 0xffff_ffff,
            }
        }),
{
    let mut c = c;
    let hsize = crate::codec::size::<pak::Header>(o);
    let n = frames.len();
    let ghost ea = c.data@.len();
    proof {
        lemma_pak_len_bounds(ea, b1@, b2@, strings_bytes(index.strings.spec_utf8(), o).len(), level);
    }
    let ghost before = c.data@;
    let f1 = match place_block(&mut c, b1, level) {
        Some(f) => f,
        None => {
            return None;
        },
    };
    proof {
        let tail = c.data@.skip(before.len() as int);
        assert(c.data@ =~= before + tail);
        assert forall|k: int| 0 <= k < n implies #[trigger] frame_decodes(c.data@, frames@[k], fdata@[k]) by {
            assert(frame_decodes(before, frames@[k], fdata@[k]));
            lemma_decode_kept(before, tail, frames@[k].1 as nat, frames@[k].2 as nat, frames@[k].0 as nat, fdata@[k]);
        }
    }
    let ghost before = c.data@;
    let f2 = match place_block(&mut c, b2, level) {
        Some(f) => f,
        None => {
            return None;
        },
    };
    proof {
        let tail = c.data@.skip(before.len() as int);
        assert(c.data@ =~= before + tail);
        assert forall|k: int| 0 <= k < n implies #[trigger] frame_decodes(c.data@, frames@[k], fdata@[k]) by {
            assert(frame_decodes(before, frames@[k], fdata@[k]));
            lemma_decode_kept(before, tail, frames@[k].1 as nat, frames@[k].2 as nat, frames@[k].0 as nat, fdata@[k]);
        }
        assert(frame_decodes(before, f1, b1@));
        lemma_decode_kept(before, tail, f1.1 as nat, f1.2 as nat, f1.0 as nat, b1@);
    }
    let sb = index.strings.dump(o);
    if c.len() >= 0xffff_ffff {
        return None;
    }
    let spred = align_4096(c.len() + 1);
    if sb.len() > 0xffff_ffff || spred > 0xffff_ffff || sb.len() as u64 > 0xffff_ffff - spred {
        return None;
    }
    let total = (spred + sb.len() as u64) as usize;
    let fin_pred = align_4096(total);
    if fin_pred > 0xffff_ffff {
        return None;
    }
    let ghost before = c.data@;
    let gap: [u8; 1] = [0u8];
    c.append(&gap, 1);
    let soff = c.append(sb.as_slice(), 4096);
    let empty: Vec<u8> = Vec::new();
    let end = c.append(empty.as_slice(), 4096);
    proof {
        let tail = c.data@.skip(before.len() as int);
        assert(c.data@ =~= before + tail);
        assert forall|k: int| 0 <= k < n implies #[trigger] frame_decodes(c.data@, frames@[k], fdata@[k]) by {
            assert(frame_decodes(before, frames@[k], fdata@[k]));
            lemma_decode_kept(before, tail, frames@[k].1 as nat, frames@[k].2 as nat, frames@[k].0 as nat, fdata@[k]);
        }
        assert(frame_decodes(before, f1, b1@));
        assert(frame_decodes(before, f2, b2@));
        lemma_decode_kept(before, tail, f1.1 as nat, f1.2 as nat, f1.0 as nat, b1@);
        lemma_decode_kept(before, tail, f2.1 as nat, f2.2 as nat, f2.0 as nat, b2@);
        assert(c.data@.subrange(soff as int, soff + sb@.len()) =~= sb@);
    }
    let mut h = index.header;
    h.version = header_version(o);
    h.block1_offset = f1.0;
    h.block1_size = f1.1;
    h.block1_size_comp = f1.2;
    h.block2_offset = f2.0;
    h.block2_size = f2.1;
    h.block2_size_comp = f2.2;
    h.block2_offsets_offset = index.block2.data.len() as u32;
    h.block2_offsets_num = index.block2_offsets.len() as u32;
    h.strings_offset = soff as u32;
    h.strings_size = sb.len() as u32;
    h.strings_num = index.strings.strings.len() as u32;
    let front = dump_bytes(&h, o);
    let ghost before = c.data@;
    c.patch(0, front.as_slice());
    proof {
        assert forall|k: int| 0 <= k < n implies #[trigger] frame_decodes(c.data@, frames@[k], fdata@[k]) by {
            assert(frame_decodes(before, frames@[k], fdata@[k]));
            lemma_decode_kept_patch(before, front@, frames@[k].1 as nat, frames@[k].2 as nat, frames@[k].0 as nat, fdata@[k]);
        }
        assert(frame_decodes(before, f1, b1@));
        assert(frame_decodes(before, f2, b2@));
        lemma_decode_kept_patch(before, front@, f1.1 as nat, f1.2 as nat, f1.0 as nat, b1@);
        lemma_decode_kept_patch(before, front@, f2.1 as nat, f2.2 as nat, f2.0 as nat, b2@);
        assert(c.data@.subrange(soff as int, soff + sb@.len()) =~= before.subrange(soff as int, soff + sb@.len()));
        assert(c.data@.take(hsize as int) =~= front@);
    }
    assert(c.data@.len() == pak_tail_len(
        ea,
        b1@,
        b2@,
        strings_bytes(index.strings.spec_utf8(), o).len(),
        level,
    ));
    assert(index.strings@.len() == index.strings.strings@.len());
    Some((c.finish(), h, frames))
}

/// Writes a level's payload file in byte order `o`: the header, each
/// animation block, block 1 with every slot of `relocs` rewritten through
/// `moved`, block 2 followed by its offset list, and the string table, each
/// on a 4096-byte boundary, blocks stored at compression level `level`.
/// Returns the file, its header and where each animation block lies. Fails
/// when a slot lies outside block 1, when a slot's old offset has no new one,
/// or when an offset, size or count would not fit its 32-bit field.
#[verifier::rlimit(100)]
#[verifier::spinoff_prover]
pub fn build_pak(
    index: &PakIndex,
    anims: &Vec<CompressedBlock>,
    relocs: &RelocTable,
    moved: &HashMap<u32, u32>,
    o: Endian,
    level: u32,
) -> (r: Result<(Vec<u8>, pak::Header, Vec<(u32, u32, u32)>), CodecError>)
    requires
        level <= 9,
        relocs.wf(),
        forall|i: int|
            0 <= i < index.strings.strings@.len() ==> #[trigger] encode_utf8(
                index.strings.strings@[i]@,
            ).len() < 0x1_0000_0000,
    ensures
        ({
            let in_bounds = slots_in_bounds(index.block1.data@, relocs.locs@);
            let mapped = slots_mapped(index.block1.data@, relocs.locs@, moved@, o);
            let nb1 = pak_block1(*index, *relocs, moved@, o);
            match r {
                Ok((bytes, h, frames)) => {
                    &&& in_bounds && mapped && pak_fits(*index, anims@, nb1, o, level)
                    &&& bytes@.len() == pak_laid_out_len(*index, anims@, nb1, o, level)
                    &&& bytes@.len() % 4096 == 0
                    &&& bytes@.take(spec_size::<pak::Header>(o) as int) == spec_dump(h, o)
                    &&& h.block1_offset % 4096 == 0
                    &&& h.block2_offset % 4096 == 0
                    &&& h.strings_offset % 4096 == 0
                    &&& spec_size::<pak::Header>(o) < h.block1_offset
                    &&& h.block1_offset + h.block1_size_comp < h.block2_offset
                    &&& h.block2_offset + h.block2_size_comp < h.strings_offset
                    &&& decoded_block(
                        bytes@,
                        h.block1_size as nat,
                        h.block1_size_comp as nat,
                        h.block1_offset as nat,
                    ) == Ok::<Seq<u8>, CodecError>(nb1)
                    &&& decoded_block(
                        bytes@,
                        h.block2_size as nat,
                        h.block2_size_comp as nat,
                        h.block2_offset as nat,
                    ) == Ok::<Seq<u8>, CodecError>(pak_block2(*index, o))
                    &&& h.block2_offsets_offset == index.block2.data@.len()
                    &&& h.block2_offsets_num == index.block2_offsets@.len()
                    &&& h.strings_num == index.strings@.len()
                    &&& bytes@.subrange(h.strings_offset as int, h.strings_offset + h.strings_size)
                        == strings_bytes(index.strings.spec_utf8(), o)
                    &&& frames@.len() == anims@.len()
                    &&& forall|i: int|
                        0 <= i < frames@.len() ==> {
                            &&& (#[trigger] frames@[i]).0 % 4096 == 0
                            &&& spec_size::<pak::Header>(o) <= frames@[i].0
                            &&& frames@[i].0 + frames@[i].2 < h.block1_offset
                            &&& frame_decodes(bytes@, frames@[i], anims@[i].data@)
                        }
                    &&& forall|i: int, j: int|
                        0 <= i < j < frames@.len() ==> #[trigger] frames@[i].0 + frames@[i].2
                            < #[trigger] frames@[j].0
                },
                Err(e) => {
                    &&& (e == CodecError::OutOfBounds <==> !in_bounds)
                    &&& (e == CodecError::MissingRelocation <==> in_bounds && !mapped)
                    &&& (e == CodecError::Malformed <==> in_bounds && mapped && !pak_fits(
                        *index,
                        anims@,
                        nb1,
                        o,
                        level,
                    ))
                },
            }
        }),
{
    let mut b1 = slice_to_vec(index.block1.data.as_slice());
    match relocate(&mut b1, relocs, moved, o) {
        Ok(()) => {},
        Err(e) => {
            return Err(e);
        },
    }
    let mut b2 = slice_to_vec(index.block2.data.as_slice());
    let list = dump_bytes_vec(&index.block2_offsets, o);
    extend_from(&mut b2, &list);
    let ghost nb1 = b1@;
    assert(b2@ == pak_block2(*index, o));
    assert(index.block2.data@.len() <= b2@.len());
    if b1.len() > 0xffff_ffff || b2.len() > 0xffff_ffff || index.strings.strings.len() > 0xffff_ffff
        || index.block2_offsets.len() > 0xffff_ffff {
        return Err(CodecError::Malformed);
    }
    let hsize = crate::codec::size::<pak::Header>(o);
    let mut c = Container::new();
    let mut zeros: Vec<u8> = Vec::new();
    let mut k: usize = 0;
    while k < hsize
        invariant
            k <= hsize,
            zeros@.len() == k,
        decreases hsize - k,
    {
        zeros.push(0);
        k = k + 1;
    }
    assert(usize::MAX >= 0xffff_ffff);
    c.append(zeros.as_slice(), 1);
    let n = anims.len();
    let ghost blocks = anims@;
    let mut frames: Vec<(u32, u32, u32)> = Vec::new();
    let mut i: usize = 0;
    while i < n
        invariant
            i <= n,
            level <= 9,
            n == anims@.len(),
            blocks == anims@,
            b1@ == pak_block1(*index, *relocs, moved@, o),
            slots_in_bounds(index.block1.data@, relocs.locs@),
            slots_mapped(index.block1.data@, relocs.locs@, moved@, o),
            c.wf(),
            c.data@.len() == anim_blocks_end(hsize as nat, blocks, level, i as nat),
            c.data@.len() <= 0xffff_ffff,
            hsize == spec_size::<pak::Header>(o),
            frames@.len() == i,
            forall|k: int|
                0 <= k < i ==> {
                    &&& (#[trigger] frames@[k]).0 % 4096 == 0
                    &&& frames@[k].0 >= hsize
                    &&& frames@[k].0 + frames@[k].2 <= c.data@.len()
                    &&& frame_decodes(c.data@, frames@[k], blocks[k].data@)
                },
            forall|k: int| 0 <= k < i ==> #[trigger] blocks[k].data@.len() <= 0xffff_ffff,
            forall|a: int, b: int|
                0 <= a < b < i ==> #[trigger] frames@[a].0 + frames@[a].2 < #[trigger] frames@[b].0,
        decreases n - i,
    {
        proof {
            lemma_anim_end_grows(hsize as nat, blocks, level, (i + 1) as nat, n as nat);
            lemma_anim_end_grows(hsize as nat, blocks, level, 0, i as nat);
        }
        let ghost before = c.data@;
        match place_block(&mut c, &anims[i].data, level) {
            Some(f) => {
                proof {
                    let tail = c.data@.skip(before.len() as int);
                    assert(c.data@ =~= before + tail);
                    assert forall|k: int| 0 <= k < i implies #[trigger] frame_decodes(
                        c.data@,
                        frames@[k],
                        blocks[k].data@,
                    ) by {
                        assert(frame_decodes(before, frames@[k], blocks[k].data@));
                        lemma_decode_kept(before, tail, frames@[k].1 as nat, frames@[k].2 as nat, frames@[k].0 as nat, blocks[k].data@);
                    }
                }
                let ghost old_frames = frames@;
                frames.push(f);
                proof {
                    assert forall|a: int, b: int|
                        0 <= a < b < i + 1 implies #[trigger] frames@[a].0 + frames@[a].2
                        < #[trigger] frames@[b].0 by {
                        assert(frames@[a] == old_frames[a]);
                        if b < i {
                            assert(frames@[b] == old_frames[b]);
                        }
                    }
                    assert forall|k: int| 0 <= k < i + 1 implies {
                        &&& (#[trigger] frames@[k]).0 % 4096 == 0
                        &&& frames@[k].0 >= hsize
                        &&& frames@[k].0 + frames@[k].2 <= c.data@.len()
                        &&& frame_decodes(c.data@, frames@[k], blocks[k].data@)
                    } by {
                        if k < i {
                            assert(frames@[k] == old_frames[k]);
                        }
                    }
                }
            },
            None => {
                proof {
                    lemma_pak_len_bounds(
                        anim_blocks_end(hsize as nat, blocks, level, n as nat),
                        b1@,
                        b2@,
                        strings_bytes(index.strings.spec_utf8(), o).len(),
                        level,
                    );
                }
                if anims[i].data.len() > 0xffff_ffff {
                    assert(blocks[i as int].data@.len() > 0xffff_ffff);
                }
                return Err(CodecError::Malformed);
            },
        }
        i = i + 1;
    }
    proof {
        lemma_anim_end_grows(hsize as nat, blocks, level, 0, n as nat);
    }
    let ghost fdata = Seq::new(n as nat, |k: int| blocks[k].data@);
    assert forall|k: int| 0 <= k < n implies #[trigger] frame_decodes(c.data@, frames@[k], fdata[k]) by {
        assert(frame_decodes(c.data@, frames@[k], blocks[k].data@));
    }
    match pak_tail(c, frames, Ghost(fdata), &b1, &b2, index, o, level) {
        Some((bytes, h, frames)) => {
            assert forall|i: int| 0 <= i < frames@.len() implies #[trigger] frame_decodes(bytes@, frames@[i], anims@[i].data@) by {
                assert(frame_decodes(bytes@, frames@[i], fdata[i]));
            }
            Ok((bytes, h, frames))
        },
        None => Err(CodecError::Malformed),
    }
}


/// The table of `num` records of type `T` at `off` of `b`, or nothing when it
/// passes the end.
pub open spec fn table_at<T: OrderedData>(b: Seq<u8>, off: nat, num: nat, o: Endian) -> Option<Seq<T>> {
    if off + num * spec_size::<T>(o) <= b.len() {
        Some(Seq::new(num, |i: int| spec_read::<T>(b.skip(off + i * spec_size::<T>(o)), o)))
    } else {
        None
    }
}

/// The records `v` with each symbolic key looked up in `table`.
pub fn resolve_all<T: OrderedData>(v: &Vec<T>, table: &StringTable) -> (r: Vec<T>)
    requires
        table.wf(),
    ensures
        r@.len() == v@.len(),
        forall|i: int|
            0 <= i < v@.len() ==> (#[trigger] r@[i]).spec_values() == v@[i].spec_values()
                && r@[i].spec_keys_resolved(table@),
{
    let mut r: Vec<T> = Vec::new();
    let mut i: usize = 0;
    while i < v.len()
        invariant
            i <= v@.len(),
            table.wf(),
            r@.len() == i,
            forall|k: int|
                0 <= k < i ==> (#[trigger] r@[k]).spec_values() == v@[k].spec_values()
                    && r@[k].spec_keys_resolved(table@),
        decreases v@.len() - i,
    {
        r.push(v[i].resolved(table));
        i = i + 1;
    }
    r
}

/// Reads the table of `num` records at `off`, keys as stored.
pub fn read_table_plain<T: OrderedData>(b: &[u8], off: usize, num: usize, o: Endian) -> (r: Result<Vec<T>, CodecError>)
    ensures
        match r {
            Ok(v) => Some(v@) == table_at::<T>(b@, off as nat, num as nat, o),
            Err(e) => e == CodecError::OutOfBounds && table_at::<T>(b@, off as nat, num as nat, o) is None,
        },
{
    let v: Vec<T> = from_bytes_vec(b, off, num, o)?;
    assert(v@ =~= table_at::<T>(b@, off as nat, num as nat, o)->Some_0);
    Ok(v)
}

/// `v` is the table of `num` records at `off` of `b`, with each symbolic key
/// looked up in the string table `m`.
pub open spec fn table_read<T: OrderedData>(v: Seq<T>, b: Seq<u8>, off: nat, num: nat, o: Endian, m: Map<u32, Seq<char>>) -> bool {
    &&& table_at::<T>(b, off, num, o) is Some
    &&& v.len() == num
    &&& forall|i: int|
        0 <= i < num ==> (#[trigger] v[i]).spec_values() == table_at::<T>(b, off, num, o)->Some_0[i].spec_values()
            && v[i].spec_keys_resolved(m)
}

/// Reads the table of `num` records at `off`, looking each symbolic key up in
/// `table`.
pub fn read_table<T: OrderedData>(b: &[u8], off: usize, num: usize, o: Endian, table: &StringTable) -> (r: Result<Vec<T>, CodecError>)
    requires
        table.wf(),
    ensures
        match r {
            Ok(v) => table_read(v@, b@, off as nat, num as nat, o, table@),
            Err(e) => e == CodecError::OutOfBounds && table_at::<T>(b@, off as nat, num as nat, o) is None,
        },
{
    let v: Vec<T> = from_bytes_vec(b, off, num, o)?;
    assert(v@ =~= table_at::<T>(b@, off as nat, num as nat, o)->Some_0);
    Ok(resolve_all(&v, table))
}

/// The info tables of a payload file's first block, each a run of
/// fixed-size records that the header locates.
pub struct InfoTables {
    pub objas: Vec<pak::ObjA>,
    pub obj0s: Vec<pak::Obj0>,
    pub mesh_infos: Vec<pak::MeshInfo>,
    pub buffer_infos: Vec<pak::BufferInfo>,
    pub mat1s: Vec<pak::Mat1>,
    pub mat2s: Vec<pak::Mat2>,
    pub mat3s: Vec<pak::Mat3>,
    pub mat4s: Vec<pak::Mat4>,
    pub mat_extras: Vec<pak::MatExtra>,
    pub shape_infos: Vec<pak::ShapeInfo>,
    pub hk_constraint_datas: Vec<pak::HkConstraintData>,
    pub vbuff_infos: Vec<pak::VBuffInfo>,
    pub ibuff_infos: Vec<pak::IBuffInfo>,
    pub texture_infos: Vec<pak::TextureInfo>,
    pub animation_infos: Vec<pak::AnimationInfo>,
    pub effect_infos: Vec<pak::EffectInfo>,
    pub pfield_infos: Vec<pak::PFieldInfo>,
    pub gfx_block_infos: Vec<pak::GFXBlockInfo>,
    pub animation_block_infos: Vec<pak::AnimationBlockInfo>,
    pub foliage_infos: Vec<pak::FoliageInfo>,
    pub illumination_infos: Vec<pak::IlluminationInfo>,
}

/// Every info table that header `h` locates lies inside block 1 `b`.
pub open spec fn info_tables_fit(b: Seq<u8>, h: pak::Header, o: Endian) -> bool {
    &&& table_at::<pak::ObjA>(b, h.obja_offset as nat, h.obja_num as nat, o) is Some
    &&& table_at::<pak::Obj0>(b, h.obj0_offset as nat, h.obj0_num as nat, o) is Some
    &&& table_at::<pak::MeshInfo>(b, h.mesh_info_offset as nat, h.mesh_info_num as nat, o) is Some
    &&& table_at::<pak::BufferInfo>(b, h.buffer_info_offset as nat, h.buffer_info_num as nat, o) is Some
    &&& table_at::<pak::Mat1>(b, h.mat1_offset as nat, h.mat1_num as nat, o) is Some
    &&& table_at::<pak::Mat2>(b, h.mat2_offset as nat, h.mat2_num as nat, o) is Some
    &&& table_at::<pak::Mat3>(b, h.mat3_offset as nat, h.mat3_num as nat, o) is Some
    &&& table_at::<pak::Mat4>(b, h.mat4_offset as nat, h.mat4_num as nat, o) is Some
    &&& table_at::<pak::MatExtra>(b, h.mat_extra_offset as nat, h.mat_extra_num as nat, o) is Some
    &&& table_at::<pak::ShapeInfo>(b, h.shape_info_offset as nat, h.shape_info_num as nat, o) is Some
    &&& table_at::<pak::HkConstraintData>(b, h.hk_constraint_data_offset as nat, h.hk_constraint_data_num as nat, o) is Some
    &&& table_at::<pak::VBuffInfo>(b, h.vbuff_info_offset as nat, h.vbuff_info_num as nat, o) is Some
    &&& table_at::<pak::IBuffInfo>(b, h.ibuff_info_offset as nat, h.ibuff_info_num as nat, o) is Some
    &&& table_at::<pak::TextureInfo>(b, h.texture_info_offset as nat, h.texture_info_num as nat, o) is Some
    &&& table_at::<pak::AnimationInfo>(b, h.animation_info_offset as nat, h.animation_info_num as nat, o) is Some
    &&& table_at::<pak::EffectInfo>(b, h.effect_info_offset as nat, h.effect_info_num as nat, o) is Some
    &&& table_at::<pak::PFieldInfo>(b, h.pfield_info_offset as nat, h.pfield_info_num as nat, o) is Some
    &&& table_at::<pak::GFXBlockInfo>(b, h.gfx_block_info_offset as nat, h.gfx_block_info_num as nat, o) is Some
    &&& table_at::<pak::AnimationBlockInfo>(b, h.animation_block_info_offset as nat, h.animation_block_info_num as nat, o) is Some
    &&& table_at::<pak::FoliageInfo>(b, h.foliage_info_offset as nat, h.foliage_info_num as nat, o) is Some
    &&& table_at::<pak::IlluminationInfo>(b, h.illumination_info_offset as nat, h.illumination_info_num as nat, o) is Some
}

/// `t` holds every info table that header `h` locates in block 1 `b`.
pub open spec fn info_tables_read(t: InfoTables, b: Seq<u8>, h: pak::Header, o: Endian, m: Map<u32, Seq<char>>) -> bool {
    &&& table_read::<pak::ObjA>(t.objas@, b, h.obja_offset as nat, h.obja_num as nat, o, m)
    &&& table_read::<pak::Obj0>(t.obj0s@, b, h.obj0_offset as nat, h.obj0_num as nat, o, m)
    &&& table_read::<pak::MeshInfo>(t.mesh_infos@, b, h.mesh_info_offset as nat, h.mesh_info_num as nat, o, m)
    &&& table_read::<pak::BufferInfo>(t.buffer_infos@, b, h.buffer_info_offset as nat, h.buffer_info_num as nat, o, m)
    &&& table_read::<pak::Mat1>(t.mat1s@, b, h.mat1_offset as nat, h.mat1_num as nat, o, m)
    &&& table_read::<pak::Mat2>(t.mat2s@, b, h.mat2_offset as nat, h.mat2_num as nat, o, m)
    &&& table_read::<pak::Mat3>(t.mat3s@, b, h.mat3_offset as nat, h.mat3_num as nat, o, m)
    &&& table_read::<pak::Mat4>(t.mat4s@, b, h.mat4_offset as nat, h.mat4_num as nat, o, m)
    &&& table_read::<pak::MatExtra>(t.mat_extras@, b, h.mat_extra_offset as nat, h.mat_extra_num as nat, o, m)
    &&& table_read::<pak::ShapeInfo>(t.shape_infos@, b, h.shape_info_offset as nat, h.shape_info_num as nat, o, m)
    &&& table_read::<pak::HkConstraintData>(t.hk_constraint_datas@, b, h.hk_constraint_data_offset as nat, h.hk_constraint_data_num as nat, o, m)
    &&& table_read::<pak::VBuffInfo>(t.vbuff_infos@, b, h.vbuff_info_offset as nat, h.vbuff_info_num as nat, o, m)
    &&& table_read::<pak::IBuffInfo>(t.ibuff_infos@, b, h.ibuff_info_offset as nat, h.ibuff_info_num as nat, o, m)
    &&& table_read::<pak::TextureInfo>(t.texture_infos@, b, h.texture_info_offset as nat, h.texture_info_num as nat, o, m)
    &&& table_read::<pak::AnimationInfo>(t.animation_infos@, b, h.animation_info_offset as nat, h.animation_info_num as nat, o, m)
    &&& table_read::<pak::EffectInfo>(t.effect_infos@, b, h.effect_info_offset as nat, h.effect_info_num as nat, o, m)
    &&& table_read::<pak::PFieldInfo>(t.pfield_infos@, b, h.pfield_info_offset as nat, h.pfield_info_num as nat, o, m)
    &&& table_read::<pak::GFXBlockInfo>(t.gfx_block_infos@, b, h.gfx_block_info_offset as nat, h.gfx_block_info_num as nat, o, m)
    &&& table_read::<pak::AnimationBlockInfo>(t.animation_block_infos@, b, h.animation_block_info_offset as nat, h.animation_block_info_num as nat, o, m)
    &&& table_read::<pak::FoliageInfo>(t.foliage_infos@, b, h.foliage_info_offset as nat, h.foliage_info_num as nat, o, m)
    &&& table_read::<pak::IlluminationInfo>(t.illumination_infos@, b, h.illumination_info_offset as nat, h.illumination_info_num as nat, o, m)
}

/// Reads every info table of block 1 `block1` that header `h` locates.
#[verifier::rlimit(100)]
pub fn read_info_tables(block1: &[u8], h: &pak::Header, o: Endian, table: &StringTable) -> (r: Result<InfoTables, CodecError>)
    requires
        table.wf(),
    ensures
        r is Ok <==> info_tables_fit(block1@, *h, o),
        match r {
            Ok(t) => info_tables_read(t, block1@, *h, o, table@),
            Err(e) => e == CodecError::OutOfBounds,
        },
{
    let objas = read_table::<pak::ObjA>(block1, h.obja_offset as usize, h.obja_num as usize, o, table)?;
    let obj0s = read_table::<pak::Obj0>(block1, h.obj0_offset as usize, h.obj0_num as usize, o, table)?;
    let mesh_infos = read_table::<pak::MeshInfo>(block1, h.mesh_info_offset as usize, h.mesh_info_num as usize, o, table)?;
    let buffer_infos = read_table::<pak::BufferInfo>(block1, h.buffer_info_offset as usize, h.buffer_info_num as usize, o, table)?;
    let mat1s = read_table::<pak::Mat1>(block1, h.mat1_offset as usize, h.mat1_num as usize, o, table)?;
    let mat2s = read_table::<pak::Mat2>(block1, h.mat2_offset as usize, h.mat2_num as usize, o, table)?;
    let mat3s = read_table::<pak::Mat3>(block1, h.mat3_offset as usize, h.mat3_num as usize, o, table)?;
    let mat4s = read_table::<pak::Mat4>(block1, h.mat4_offset as usize, h.mat4_num as usize, o, table)?;
    let mat_extras = read_table::<pak::MatExtra>(block1, h.mat_extra_offset as usize, h.mat_extra_num as usize, o, table)?;
    let shape_infos = read_table::<pak::ShapeInfo>(block1, h.shape_info_offset as usize, h.shape_info_num as usize, o, table)?;
    let hk_constraint_datas = read_table::<pak::HkConstraintData>(block1, h.hk_constraint_data_offset as usize, h.hk_constraint_data_num as usize, o, table)?;
    let vbuff_infos = read_table::<pak::VBuffInfo>(block1, h.vbuff_info_offset as usize, h.vbuff_info_num as usize, o, table)?;
    let ibuff_infos = read_table::<pak::IBuffInfo>(block1, h.ibuff_info_offset as usize, h.ibuff_info_num as usize, o, table)?;
    let texture_infos = read_table::<pak::TextureInfo>(block1, h.texture_info_offset as usize, h.texture_info_num as usize, o, table)?;
    let animation_infos = read_table::<pak::AnimationInfo>(block1, h.animation_info_offset as usize, h.animation_info_num as usize, o, table)?;
    let effect_infos = read_table::<pak::EffectInfo>(block1, h.effect_info_offset as usize, h.effect_info_num as usize, o, table)?;
    let pfield_infos = read_table::<pak::PFieldInfo>(block1, h.pfield_info_offset as usize, h.pfield_info_num as usize, o, table)?;
    let gfx_block_infos = read_table::<pak::GFXBlockInfo>(block1, h.gfx_block_info_offset as usize, h.gfx_block_info_num as usize, o, table)?;
    let animation_block_infos = read_table::<pak::AnimationBlockInfo>(block1, h.animation_block_info_offset as usize, h.animation_block_info_num as usize, o, table)?;
    let foliage_infos = read_table::<pak::FoliageInfo>(block1, h.foliage_info_offset as usize, h.foliage_info_num as usize, o, table)?;
    let illumination_infos = read_table::<pak::IlluminationInfo>(block1, h.illumination_info_offset as usize, h.illumination_info_num as usize, o, table)?;
    Ok(InfoTables { objas, obj0s, mesh_infos, buffer_infos, mat1s, mat2s, mat3s, mat4s, mat_extras, shape_infos, hk_constraint_datas, vbuff_infos, ibuff_infos, texture_infos, animation_infos, effect_infos, pfield_infos, gfx_block_infos, animation_block_infos, foliage_infos, illumination_infos })
}

} // verus!
