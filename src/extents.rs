use vstd::prelude::*;

use crate::codec::{
    bytes16, bytes32, le16, le32, lemma_int_round_trips, lemma_join, push_u16, push_u32, read_u16,
    read_u32,
};
use crate::error::{Feature, FsError};

verus! {

/// Magic number of every extent-tree node header.
pub const EXTENT_MAGIC: u16 = 0xF30A;

/// Extents longer than this are uninitialized; their length is offset by it.
pub const EXTENT_INIT_MAX_LEN: u16 = 32768;

/// Size in bytes of an on-disk extent-tree node header.
pub const EXTENT_HEADER_LEN: usize = 12;

/// The header that starts every node of an extent tree.
#[derive(Clone, Copy, Debug, PartialEq, Eq, Structural)]
pub struct ExtentHeader {
    /// Magic number, 0xF30A.
    pub eh_magic: u16,
    /// Number of valid entries following the header.
    pub eh_entries: u16,
    /// Maximum number of entries that could follow the header.
    pub eh_max: u16,
    /// Depth of this node in the tree: 0 means its entries point at data
    /// blocks, otherwise they point at further extent nodes. A tree is at
    /// most 5 levels deep.
    pub eh_depth: u16,
    /// Generation of the tree (used by Lustre, not by standard ext4).
    pub eh_generation: u32,
}

impl ExtentHeader {
    /// Whether every field holds what `b[off..off + EXTENT_HEADER_LEN]` encodes.
    pub open spec fn decodes(&self, b: Seq<u8>, off: int) -> bool {
        *self == Self::spec_from_bytes(b, off)
    }

    /// The on-disk bytes of this record.
    pub open spec fn encoding(&self) -> Seq<u8> {
        bytes16(self.eh_magic)
            + bytes16(self.eh_entries)
            + bytes16(self.eh_max)
            + bytes16(self.eh_depth)
            + bytes32(self.eh_generation)
    }

    /// The record that `b[off..off + EXTENT_HEADER_LEN]` encodes.
    pub open spec fn spec_from_bytes(b: Seq<u8>, off: int) -> Self {
        ExtentHeader {
            eh_magic: le16(b, off),
            eh_entries: le16(b, off + 2),
            eh_max: le16(b, off + 4),
            eh_depth: le16(b, off + 6),
            eh_generation: le32(b, off + 8),
        }
    }

    /// Decodes the record that starts at byte `off` of `buf`.
    pub fn from_bytes(buf: &[u8], off: usize) -> (r: Result<Self, FsError>)
        ensures
            match r {
                Ok(x) => off + EXTENT_HEADER_LEN <= buf@.len() && x.decodes(buf@, off as int),
                Err(e) => off + EXTENT_HEADER_LEN > buf@.len() && e == FsError::Truncated,
            },
    {
        if off > buf.len() || buf.len() - off < EXTENT_HEADER_LEN {
            return Err(FsError::Truncated);
        }
        Ok(ExtentHeader {
            eh_magic: read_u16(buf, off),
            eh_entries: read_u16(buf, off + 2),
            eh_max: read_u16(buf, off + 4),
            eh_depth: read_u16(buf, off + 6),
            eh_generation: read_u32(buf, off + 8),
        })
    }

    /// Encodes the record in its on-disk layout.
    pub fn to_bytes(&self) -> (r: Vec<u8>)
        ensures
            r@ == self.encoding(),
    {
        let mut v: Vec<u8> = Vec::new();
        push_u16(&mut v, self.eh_magic);
        push_u16(&mut v, self.eh_entries);
        push_u16(&mut v, self.eh_max);
        push_u16(&mut v, self.eh_depth);
        push_u32(&mut v, self.eh_generation);
        assert(v@ =~= self.encoding());
        v
    }
}

/// Decoding one extent-tree node header from the first 12 bytes of a buffer and encoding it
/// again gives back those bytes: every byte of the layout belongs to one field.
pub proof fn lemma_extent_header_round_trip(x: ExtentHeader, b: Seq<u8>)
    requires
        b.len() >= EXTENT_HEADER_LEN,
        x.decodes(b, 0),
    ensures
        x.encoding() == b.subrange(0, EXTENT_HEADER_LEN as int),
{
    lemma_int_round_trips();
    lemma_join(b, 0, 2, 4);
    lemma_join(b, 0, 4, 6);
    lemma_join(b, 0, 6, 8);
    lemma_join(b, 0, 8, 12);
}

/// Encoding one extent-tree node header and decoding the bytes again gives back every field.
pub proof fn lemma_extent_header_decode_encoding(x: ExtentHeader)
    ensures
        ExtentHeader::spec_from_bytes(x.encoding(), 0) == x,
{
    lemma_int_round_trips();
    let e = x.encoding();
    assert(e.subrange(0, 2) =~= bytes16(x.eh_magic));
    assert(e.subrange(2, 4) =~= bytes16(x.eh_entries));
    assert(e.subrange(4, 6) =~= bytes16(x.eh_max));
    assert(e.subrange(6, 8) =~= bytes16(x.eh_depth));
    assert(e.subrange(8, 12) =~= bytes32(x.eh_generation));
}

/// Size in bytes of an on-disk extent index entry.
pub const EXTENT_IDX_LEN: usize = 12;

/// An entry of an internal extent-tree node.
#[derive(Clone, Copy, Debug, PartialEq, Eq, Structural)]
pub struct ExtentIdx {
    /// This index entry covers file blocks from this one onward.
    pub ei_block: u32,
    /// Lower 32 bits of the block number of the next node down the tree.
    pub ei_leaf_lo: u32,
    /// Upper 16 bits of that block number.
    pub ei_leaf_hi: u16,
    /// Unused.
    pub ei_unused: u16,
}

impl ExtentIdx {
    /// Whether every field holds what `b[off..off + EXTENT_IDX_LEN]` encodes.
    pub open spec fn decodes(&self, b: Seq<u8>, off: int) -> bool {
        *self == Self::spec_from_bytes(b, off)
    }

    /// The on-disk bytes of this record.
    pub open spec fn encoding(&self) -> Seq<u8> {
        bytes32(self.ei_block)
            + bytes32(self.ei_leaf_lo)
            + bytes16(self.ei_leaf_hi)
            + bytes16(self.ei_unused)
    }

    /// The record that `b[off..off + EXTENT_IDX_LEN]` encodes.
    pub open spec fn spec_from_bytes(b: Seq<u8>, off: int) -> Self {
        ExtentIdx {
            ei_block: le32(b, off),
            ei_leaf_lo: le32(b, off + 4),
            ei_leaf_hi: le16(b, off + 8),
            ei_unused: le16(b, off + 10),
        }
    }

    /// Decodes the record that starts at byte `off` of `buf`.
    pub fn from_bytes(buf: &[u8], off: usize) -> (r: Result<Self, FsError>)
        ensures
            match r {
                Ok(x) => off + EXTENT_IDX_LEN <= buf@.len() && x.decodes(buf@, off as int),
                Err(e) => off + EXTENT_IDX_LEN > buf@.len() && e == FsError::Truncated,
            },
    {
        if off > buf.len() || buf.len() - off < EXTENT_IDX_LEN {
            return Err(FsError::Truncated);
        }
        Ok(ExtentIdx {
            ei_block: read_u32(buf, off),
            ei_leaf_lo: read_u32(buf, off + 4),
            ei_leaf_hi: read_u16(buf, off + 8),
            ei_unused: read_u16(buf, off + 10),
        })
    }

    /// Encodes the record in its on-disk layout.
    pub fn to_bytes(&self) -> (r: Vec<u8>)
        ensures
            r@ == self.encoding(),
    {
        let mut v: Vec<u8> = Vec::new();
        push_u32(&mut v, self.ei_block);
        push_u32(&mut v, self.ei_leaf_lo);
        push_u16(&mut v, self.ei_leaf_hi);
        push_u16(&mut v, self.ei_unused);
        assert(v@ =~= self.encoding());
        v
    }
}

/// Decoding one extent index entry from the first 12 bytes of a buffer and encoding it
/// again gives back those bytes: every byte of the layout belongs to one field.
pub proof fn lemma_extent_idx_round_trip(x: ExtentIdx, b: Seq<u8>)
    requires
        b.len() >= EXTENT_IDX_LEN,
        x.decodes(b, 0),
    ensures
        x.encoding() == b.subrange(0, EXTENT_IDX_LEN as int),
{
    lemma_int_round_trips();
    lemma_join(b, 0, 4, 8);
    lemma_join(b, 0, 8, 10);
    lemma_join(b, 0, 10, 12);
}

/// Encoding one extent index entry and decoding the bytes again gives back every field.
pub proof fn lemma_extent_idx_decode_encoding(x: ExtentIdx)
    ensures
        ExtentIdx::spec_from_bytes(x.encoding(), 0) == x,
{
    lemma_int_round_trips();
    let e = x.encoding();
    assert(e.subrange(0, 4) =~= bytes32(x.ei_block));
    assert(e.subrange(4, 8) =~= bytes32(x.ei_leaf_lo));
    assert(e.subrange(8, 10) =~= bytes16(x.ei_leaf_hi));
    assert(e.subrange(10, 12) =~= bytes16(x.ei_unused));
}

/// Size in bytes of an on-disk extent leaf entry.
pub const EXTENT_LEN: usize = 12;

/// An entry of a leaf extent-tree node: a run of contiguous blocks.
#[derive(Clone, Copy, Debug, PartialEq, Eq, Structural)]
pub struct Extent {
    /// First file block number that this extent covers.
    pub ee_block: u32,
    /// Number of blocks covered. Above 32768 the extent is uninitialized and
    /// covers `ee_len - 32768` blocks.
    pub ee_len: u16,
    /// Upper 16 bits of the first physical block.
    pub ee_start_hi: u16,
    /// Lower 32 bits of the first physical block.
    pub ee_start_lo: u32,
}

impl Extent {
    /// Whether every field holds what `b[off..off + EXTENT_LEN]` encodes.
    pub open spec fn decodes(&self, b: Seq<u8>, off: int) -> bool {
        *self == Self::spec_from_bytes(b, off)
    }

    /// The on-disk bytes of this record.
    pub open spec fn encoding(&self) -> Seq<u8> {
        bytes32(self.ee_block)
            + bytes16(self.ee_len)
            + bytes16(self.ee_start_hi)
            + bytes32(self.ee_start_lo)
    }

    /// The record that `b[off..off + EXTENT_LEN]` encodes.
    pub open spec fn spec_from_bytes(b: Seq<u8>, off: int) -> Self {
        Extent {
            ee_block: le32(b, off),
            ee_len: le16(b, off + 4),
            ee_start_hi: le16(b, off + 6),
            ee_start_lo: le32(b, off + 8),
        }
    }

    /// Decodes the record that starts at byte `off` of `buf`.
    pub fn from_bytes(buf: &[u8], off: usize) -> (r: Result<Self, FsError>)
        ensures
            match r {
                Ok(x) => off + EXTENT_LEN <= buf@.len() && x.decodes(buf@, off as int),
                Err(e) => off + EXTENT_LEN > buf@.len() && e == FsError::Truncated,
            },
    {
        if off > buf.len() || buf.len() - off < EXTENT_LEN {
            return Err(FsError::Truncated);
        }
        Ok(Extent {
            ee_block: read_u32(buf, off),
            ee_len: read_u16(buf, off + 4),
            ee_start_hi: read_u16(buf, off + 6),
            ee_start_lo: read_u32(buf, off + 8),
        })
    }

    /// Encodes the record in its on-disk layout.
    pub fn to_bytes(&self) -> (r: Vec<u8>)
        ensures
            r@ == self.encoding(),
    {
        let mut v: Vec<u8> = Vec::new();
        push_u32(&mut v, self.ee_block);
        push_u16(&mut v, self.ee_len);
        push_u16(&mut v, self.ee_start_hi);
        push_u32(&mut v, self.ee_start_lo);
        assert(v@ =~= self.encoding());
        v
    }
}

/// Decoding one extent leaf entry from the first 12 bytes of a buffer and encoding it
/// again gives back those bytes: every byte of the layout belongs to one field.
pub proof fn lemma_extent_round_trip(x: Extent, b: Seq<u8>)
    requires
        b.len() >= EXTENT_LEN,
        x.decodes(b, 0),
    ensures
        x.encoding() == b.subrange(0, EXTENT_LEN as int),
{
    lemma_int_round_trips();
    lemma_join(b, 0, 4, 6);
    lemma_join(b, 0, 6, 8);
    lemma_join(b, 0, 8, 12);
}

/// Encoding one extent leaf entry and decoding the bytes again gives back every field.
pub proof fn lemma_extent_decode_encoding(x: Extent)
    ensures
        Extent::spec_from_bytes(x.encoding(), 0) == x,
{
    lemma_int_round_trips();
    let e = x.encoding();
    assert(e.subrange(0, 4) =~= bytes32(x.ee_block));
    assert(e.subrange(4, 6) =~= bytes16(x.ee_len));
    assert(e.subrange(6, 8) =~= bytes16(x.ee_start_hi));
    assert(e.subrange(8, 12) =~= bytes32(x.ee_start_lo));
}

/// Size in bytes of an on-disk extent block tail.
pub const EXTENT_TAIL_LEN: usize = 4;

/// The checksum that ends an extent-tree block.
#[derive(Clone, Copy, Debug, PartialEq, Eq, Structural)]
pub struct ExtentTail {
    /// crc32c(uuid + inode number + inode generation + extent block).
    pub et_checksum: u32,
}

impl ExtentTail {
    /// Whether every field holds what `b[off..off + EXTENT_TAIL_LEN]` encodes.
    pub open spec fn decodes(&self, b: Seq<u8>, off: int) -> bool {
        *self == Self::spec_from_bytes(b, off)
    }

    /// The on-disk bytes of this record.
    pub open spec fn encoding(&self) -> Seq<u8> {
        bytes32(self.et_checksum)
    }

    /// The record that `b[off..off + EXTENT_TAIL_LEN]` encodes.
    pub open spec fn spec_from_bytes(b: Seq<u8>, off: int) -> Self {
        ExtentTail {
            et_checksum: le32(b, off),
        }
    }

    /// Decodes the record that starts at byte `off` of `buf`.
    pub fn from_bytes(buf: &[u8], off: usize) -> (r: Result<Self, FsError>)
        ensures
            match r {
                Ok(x) => off + EXTENT_TAIL_LEN <= buf@.len() && x.decodes(buf@, off as int),
                Err(e) => off + EXTENT_TAIL_LEN > buf@.len() && e == FsError::Truncated,
            },
    {
        if off > buf.len() || buf.len() - off < EXTENT_TAIL_LEN {
            return Err(FsError::Truncated);
        }
        Ok(ExtentTail {
            et_checksum: read_u32(buf, off),
        })
    }

    /// Encodes the record in its on-disk layout.
    pub fn to_bytes(&self) -> (r: Vec<u8>)
        ensures
            r@ == self.encoding(),
    {
        let mut v: Vec<u8> = Vec::new();
        push_u32(&mut v, self.et_checksum);
        assert(v@ =~= self.encoding());
        v
    }
}

/// Decoding one extent block tail from the first 4 bytes of a buffer and encoding it
/// again gives back those bytes: every byte of the layout belongs to one field.
pub proof fn lemma_extent_tail_round_trip(x: ExtentTail, b: Seq<u8>)
    requires
        b.len() >= EXTENT_TAIL_LEN,
        x.decodes(b, 0),
    ensures
        x.encoding() == b.subrange(0, EXTENT_TAIL_LEN as int),
{
    lemma_int_round_trips();
}

/// Encoding one extent block tail and decoding the bytes again gives back every field.
pub proof fn lemma_extent_tail_decode_encoding(x: ExtentTail)
    ensures
        ExtentTail::spec_from_bytes(x.encoding(), 0) == x,
{
    lemma_int_round_trips();
    let e = x.encoding();
    assert(e.subrange(0, 4) =~= bytes32(x.et_checksum));
}

impl Extent {
    /// The first physical block: the upper and lower halves combined.
    pub open spec fn spec_start_block(&self) -> nat {
        (self.ee_start_hi as nat) * 0x1_0000_0000 + self.ee_start_lo as nat
    }

    /// The number of blocks covered, for initialized and uninitialized extents alike.
    pub open spec fn spec_block_count(&self) -> nat {
        if self.ee_len > EXTENT_INIT_MAX_LEN {
            (self.ee_len - EXTENT_INIT_MAX_LEN) as nat
        } else {
            self.ee_len as nat
        }
    }

    /// The first physical block of this extent.
    pub fn start_block(&self) -> (r: u64)
        ensures
            r == self.spec_start_block(),
    {
        (self.ee_start_hi as u64) * 0x1_0000_0000 + self.ee_start_lo as u64
    }

    /// The number of blocks covered.
    pub fn block_count(&self) -> (r: u16)
        ensures
            r == self.spec_block_count(),
    {
        if self.ee_len > EXTENT_INIT_MAX_LEN {
            self.ee_len - EXTENT_INIT_MAX_LEN
        } else {
            self.ee_len
        }
    }

    /// Whether the extent is allocated but not yet written.
    pub fn is_uninitialized(&self) -> (r: bool)
        ensures
            r == (self.ee_len > EXTENT_INIT_MAX_LEN),
    {
        self.ee_len > EXTENT_INIT_MAX_LEN
    }
}

impl ExtentIdx {
    /// The block of the child node: the upper and lower halves combined.
    pub open spec fn spec_leaf_block(&self) -> nat {
        (self.ei_leaf_hi as nat) * 0x1_0000_0000 + self.ei_leaf_lo as nat
    }

    /// The block that holds the child node.
    pub fn leaf_block(&self) -> (r: u64)
        ensures
            r == self.spec_leaf_block(),
    {
        (self.ei_leaf_hi as u64) * 0x1_0000_0000 + self.ei_leaf_lo as u64
    }
}

/// The extents that a tree root stored in `area` lists, in on-disk order.
pub open spec fn spec_extent_root(area: Seq<u8>) -> Result<Seq<Extent>, FsError> {
    if area.len() < EXTENT_HEADER_LEN {
        Err(FsError::Truncated)
    } else {
        let h = ExtentHeader::spec_from_bytes(area, 0);
        if h.eh_magic != EXTENT_MAGIC {
            Err(FsError::CorruptFormat)
        } else if h.eh_depth != 0 {
            Err(FsError::UnsupportedFeature(Feature::InternalExtentNode))
        } else if h.eh_entries > h.eh_max {
            Err(FsError::CorruptFormat)
        } else if EXTENT_HEADER_LEN + EXTENT_LEN * h.eh_entries > area.len() {
            Err(FsError::CorruptFormat)
        } else {
            Ok(
                Seq::new(
                    h.eh_entries as nat,
                    |i: int| Extent::spec_from_bytes(area, EXTENT_HEADER_LEN + EXTENT_LEN * i),
                ),
            )
        }
    }
}

/// Reads the extent-tree root stored in `area` (an inode's block-mapping
/// area) and lists the extents of a leaf root, in on-disk order. A root
/// that lists more entries than its capacity (`eh_max`) or than the area
/// holds is corrupt.
pub fn walk_extent_root(area: &[u8]) -> (r: Result<Vec<Extent>, FsError>)
    ensures
        match r {
            Ok(v) => spec_extent_root(area@) == Ok::<Seq<Extent>, FsError>(v@),
            Err(e) => spec_extent_root(area@) == Err::<Seq<Extent>, FsError>(e),
        },
{
    let h = match ExtentHeader::from_bytes(area, 0) {
        Ok(h) => h,
        Err(e) => return Err(e),
    };
    if h.eh_magic != EXTENT_MAGIC {
        return Err(FsError::CorruptFormat);
    }
    if h.eh_depth != 0 {
        return Err(FsError::UnsupportedFeature(Feature::InternalExtentNode));
    }
    if h.eh_entries > h.eh_max {
        return Err(FsError::CorruptFormat);
    }
    let n = h.eh_entries as usize;
    if area.len() < EXTENT_HEADER_LEN + EXTENT_LEN * n {
        return Err(FsError::CorruptFormat);
    }
    let mut v: Vec<Extent> = Vec::new();
    let mut i: usize = 0;
    while i < n
        invariant
            i <= n,
            n == h.eh_entries,
            h == ExtentHeader::spec_from_bytes(area@, 0),
            EXTENT_HEADER_LEN + EXTENT_LEN * n <= area@.len(),
            v@ =~= Seq::new(
                i as nat,
                |j: int| Extent::spec_from_bytes(area@, EXTENT_HEADER_LEN + EXTENT_LEN * j),
            ),
        decreases n - i,
    {
        let e = match Extent::from_bytes(area, EXTENT_HEADER_LEN + EXTENT_LEN * i) {
            Ok(e) => e,
            Err(_) => return Err(FsError::Truncated),
        };
        v.push(e);
        i = i + 1;
    }
    Ok(v)
}

/// A tree root whose header is valid but not a leaf is reported as an
/// unsupported internal node, whatever follows the header.
pub proof fn lemma_internal_node_unsupported(area: Seq<u8>)
    requires
        area.len() >= EXTENT_HEADER_LEN,
        le16(area, 0) == EXTENT_MAGIC,
        le16(area, 6) != 0,
    ensures
        spec_extent_root(area) == Err::<Seq<Extent>, FsError>(
            FsError::UnsupportedFeature(Feature::InternalExtentNode),
        ),
{
}

} // verus!
