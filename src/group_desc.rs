use vstd::prelude::*;

use crate::codec::{
    bytes16, bytes32, le16, le32, lemma_int_round_trips, lemma_join, push_u16, push_u32, read_u16,
    read_u32,
};
use crate::error::FsError;

verus! {

/// Group flag: the inode table and bitmap are not initialized.
pub const BG_INODE_UNINIT: u16 = 0x1;

/// Group flag: the block bitmap is not initialized.
pub const BG_BLOCK_UNINIT: u16 = 0x2;

/// Group flag: the inode table is zeroed.
pub const BG_INODE_ZEROED: u16 = 0x4;

/// Size in bytes of a group descriptor in the layout without the 64bit feature.
pub const GROUP_DESC_SHORT_LEN: usize = 32;

/// Size in bytes of an on-disk block group descriptor.
pub const GROUP_DESC_LEN: usize = 64;

/// A block group descriptor in its 64-byte layout. In the 32-byte layout
/// of file systems without the 64bit feature the upper halves are absent and
/// read as zero.
#[derive(Clone, Copy, Debug, PartialEq, Eq, Structural)]
pub struct GroupDesc {
    /// Lower 32 bits of the location of the block bitmap.
    pub bg_block_bitmap_lo: u32,
    /// Lower 32 bits of the location of the inode bitmap.
    pub bg_inode_bitmap_lo: u32,
    /// Lower 32 bits of the location of the inode table.
    pub bg_inode_table_lo: u32,
    /// Lower 16 bits of the free block count.
    pub bg_free_blocks_count_lo: u16,
    /// Lower 16 bits of the free inode count.
    pub bg_free_inodes_count_lo: u16,
    /// Lower 16 bits of the directory count.
    pub bg_used_dirs_count_lo: u16,
    /// Block group flags (`BG_*`).
    pub bg_flags: u16,
    /// Lower 32 bits of the location of the snapshot exclusion bitmap.
    pub bg_exclude_bitmap_lo: u32,
    /// Lower 16 bits of the block bitmap checksum.
    pub bg_block_bitmap_csum_lo: u16,
    /// Lower 16 bits of the inode bitmap checksum.
    pub bg_inode_bitmap_csum_lo: u16,
    /// Lower 16 bits of the unused inode count.
    pub bg_itable_unused_lo: u16,
    /// Group descriptor checksum.
    pub bg_checksum: u16,
    /// Upper 32 bits of the location of the block bitmap.
    pub bg_block_bitmap_hi: u32,
    /// Upper 32 bits of the location of the inode bitmap.
    pub bg_inode_bitmap_hi: u32,
    /// Upper 32 bits of the location of the inode table.
    pub bg_inode_table_hi: u32,
    /// Upper 16 bits of the free block count.
    pub bg_free_blocks_count_hi: u16,
    /// Upper 16 bits of the free inode count.
    pub bg_free_inodes_count_hi: u16,
    /// Upper 16 bits of the directory count.
    pub bg_used_dirs_count_hi: u16,
    /// Upper 16 bits of the unused inode count.
    pub bg_itable_unused_hi: u16,
    /// Upper 32 bits of the location of the snapshot exclusion bitmap.
    pub bg_exclude_bitmap_hi: u32,
    /// Upper 16 bits of the block bitmap checksum.
    pub bg_block_bitmap_csum_hi: u16,
    /// Upper 16 bits of the inode bitmap checksum.
    pub bg_inode_bitmap_csum_hi: u16,
    /// Padding to 64 bytes.
    pub bg_reserved: u32,
}

impl GroupDesc {
    /// Whether every field holds what `b[off..off + GROUP_DESC_LEN]` encodes.
    pub open spec fn decodes(&self, b: Seq<u8>, off: int) -> bool {
        *self == Self::spec_from_bytes(b, off)
    }

    /// The on-disk bytes of this record.
    pub open spec fn encoding(&self) -> Seq<u8> {
        bytes32(self.bg_block_bitmap_lo)
            + bytes32(self.bg_inode_bitmap_lo)
            + bytes32(self.bg_inode_table_lo)
            + bytes16(self.bg_free_blocks_count_lo)
            + bytes16(self.bg_free_inodes_count_lo)
            + bytes16(self.bg_used_dirs_count_lo)
            + bytes16(self.bg_flags)
            + bytes32(self.bg_exclude_bitmap_lo)
            + bytes16(self.bg_block_bitmap_csum_lo)
            + bytes16(self.bg_inode_bitmap_csum_lo)
            + bytes16(self.bg_itable_unused_lo)
            + bytes16(self.bg_checksum)
            + bytes32(self.bg_block_bitmap_hi)
            + bytes32(self.bg_inode_bitmap_hi)
            + bytes32(self.bg_inode_table_hi)
            + bytes16(self.bg_free_blocks_count_hi)
            + bytes16(self.bg_free_inodes_count_hi)
            + bytes16(self.bg_used_dirs_count_hi)
            + bytes16(self.bg_itable_unused_hi)
            + bytes32(self.bg_exclude_bitmap_hi)
            + bytes16(self.bg_block_bitmap_csum_hi)
            + bytes16(self.bg_inode_bitmap_csum_hi)
            + bytes32(self.bg_reserved)
    }

    /// The record that `b[off..off + GROUP_DESC_LEN]` encodes.
    pub open spec fn spec_from_bytes(b: Seq<u8>, off: int) -> Self {
        GroupDesc {
            bg_block_bitmap_lo: le32(b, off),
            bg_inode_bitmap_lo: le32(b, off + 4),
            bg_inode_table_lo: le32(b, off + 8),
            bg_free_blocks_count_lo: le16(b, off + 12),
            bg_free_inodes_count_lo: le16(b, off + 14),
            bg_used_dirs_count_lo: le16(b, off + 16),
            bg_flags: le16(b, off + 18),
            bg_exclude_bitmap_lo: le32(b, off + 20),
            bg_block_bitmap_csum_lo: le16(b, off + 24),
            bg_inode_bitmap_csum_lo: le16(b, off + 26),
            bg_itable_unused_lo: le16(b, off + 28),
            bg_checksum: le16(b, off + 30),
            bg_block_bitmap_hi: le32(b, off + 32),
            bg_inode_bitmap_hi: le32(b, off + 36),
            bg_inode_table_hi: le32(b, off + 40),
            bg_free_blocks_count_hi: le16(b, off + 44),
            bg_free_inodes_count_hi: le16(b, off + 46),
            bg_used_dirs_count_hi: le16(b, off + 48),
            bg_itable_unused_hi: le16(b, off + 50),
            bg_exclude_bitmap_hi: le32(b, off + 52),
            bg_block_bitmap_csum_hi: le16(b, off + 56),
            bg_inode_bitmap_csum_hi: le16(b, off + 58),
            bg_reserved: le32(b, off + 60),
        }
    }

    /// Decodes the record that starts at byte `off` of `buf`.
    pub fn from_bytes(buf: &[u8], off: usize) -> (r: Result<Self, FsError>)
        ensures
            match r {
                Ok(x) => off + GROUP_DESC_LEN <= buf@.len() && x.decodes(buf@, off as int),
                Err(e) => off + GROUP_DESC_LEN > buf@.len() && e == FsError::Truncated,
            },
    {
        if off > buf.len() || buf.len() - off < GROUP_DESC_LEN {
            return Err(FsError::Truncated);
        }
        Ok(GroupDesc {
            bg_block_bitmap_lo: read_u32(buf, off),
            bg_inode_bitmap_lo: read_u32(buf, off + 4),
            bg_inode_table_lo: read_u32(buf, off + 8),
            bg_free_blocks_count_lo: read_u16(buf, off + 12),
            bg_free_inodes_count_lo: read_u16(buf, off + 14),
            bg_used_dirs_count_lo: read_u16(buf, off + 16),
            bg_flags: read_u16(buf, off + 18),
            bg_exclude_bitmap_lo: read_u32(buf, off + 20),
            bg_block_bitmap_csum_lo: read_u16(buf, off + 24),
            bg_inode_bitmap_csum_lo: read_u16(buf, off + 26),
            bg_itable_unused_lo: read_u16(buf, off + 28),
            bg_checksum: read_u16(buf, off + 30),
            bg_block_bitmap_hi: read_u32(buf, off + 32),
            bg_inode_bitmap_hi: read_u32(buf, off + 36),
            bg_inode_table_hi: read_u32(buf, off + 40),
            bg_free_blocks_count_hi: read_u16(buf, off + 44),
            bg_free_inodes_count_hi: read_u16(buf, off + 46),
            bg_used_dirs_count_hi: read_u16(buf, off + 48),
            bg_itable_unused_hi: read_u16(buf, off + 50),
            bg_exclude_bitmap_hi: read_u32(buf, off + 52),
            bg_block_bitmap_csum_hi: read_u16(buf, off + 56),
            bg_inode_bitmap_csum_hi: read_u16(buf, off + 58),
            bg_reserved: read_u32(buf, off + 60),
        })
    }

    /// Encodes the record in its on-disk layout.
    pub fn to_bytes(&self) -> (r: Vec<u8>)
        ensures
            r@ == self.encoding(),
    {
        let mut v: Vec<u8> = Vec::new();
        push_u32(&mut v, self.bg_block_bitmap_lo);
        push_u32(&mut v, self.bg_inode_bitmap_lo);
        push_u32(&mut v, self.bg_inode_table_lo);
        push_u16(&mut v, self.bg_free_blocks_count_lo);
        push_u16(&mut v, self.bg_free_inodes_count_lo);
        push_u16(&mut v, self.bg_used_dirs_count_lo);
        push_u16(&mut v, self.bg_flags);
        push_u32(&mut v, self.bg_exclude_bitmap_lo);
        push_u16(&mut v, self.bg_block_bitmap_csum_lo);
        push_u16(&mut v, self.bg_inode_bitmap_csum_lo);
        push_u16(&mut v, self.bg_itable_unused_lo);
        push_u16(&mut v, self.bg_checksum);
        push_u32(&mut v, self.bg_block_bitmap_hi);
        push_u32(&mut v, self.bg_inode_bitmap_hi);
        push_u32(&mut v, self.bg_inode_table_hi);
        push_u16(&mut v, self.bg_free_blocks_count_hi);
        push_u16(&mut v, self.bg_free_inodes_count_hi);
        push_u16(&mut v, self.bg_used_dirs_count_hi);
        push_u16(&mut v, self.bg_itable_unused_hi);
        push_u32(&mut v, self.bg_exclude_bitmap_hi);
        push_u16(&mut v, self.bg_block_bitmap_csum_hi);
        push_u16(&mut v, self.bg_inode_bitmap_csum_hi);
        push_u32(&mut v, self.bg_reserved);
        assert(v@ =~= self.encoding());
        v
    }
}

/// Decoding one block group descriptor from the first 64 bytes of a buffer and encoding it
/// again gives back those bytes: every byte of the layout belongs to one field.
pub proof fn lemma_group_desc_round_trip(x: GroupDesc, b: Seq<u8>)
    requires
        b.len() >= GROUP_DESC_LEN,
        x.decodes(b, 0),
    ensures
        x.encoding() == b.subrange(0, GROUP_DESC_LEN as int),
{
    lemma_int_round_trips();
    lemma_join(b, 0, 4, 8);
    lemma_join(b, 0, 8, 12);
    lemma_join(b, 0, 12, 14);
    lemma_join(b, 0, 14, 16);
    lemma_join(b, 0, 16, 18);
    lemma_join(b, 0, 18, 20);
    lemma_join(b, 0, 20, 24);
    lemma_join(b, 0, 24, 26);
    lemma_join(b, 0, 26, 28);
    lemma_join(b, 0, 28, 30);
    lemma_join(b, 0, 30, 32);
    lemma_join(b, 0, 32, 36);
    lemma_join(b, 0, 36, 40);
    lemma_join(b, 0, 40, 44);
    lemma_join(b, 0, 44, 46);
    lemma_join(b, 0, 46, 48);
    lemma_join(b, 0, 48, 50);
    lemma_join(b, 0, 50, 52);
    lemma_join(b, 0, 52, 56);
    lemma_join(b, 0, 56, 58);
    lemma_join(b, 0, 58, 60);
    lemma_join(b, 0, 60, 64);
}

/// Encoding one block group descriptor and decoding the bytes again gives back every field.
pub proof fn lemma_group_desc_decode_encoding(x: GroupDesc)
    ensures
        GroupDesc::spec_from_bytes(x.encoding(), 0) == x,
{
    lemma_int_round_trips();
    let e = x.encoding();
    assert(e.subrange(0, 4) =~= bytes32(x.bg_block_bitmap_lo));
    assert(e.subrange(4, 8) =~= bytes32(x.bg_inode_bitmap_lo));
    assert(e.subrange(8, 12) =~= bytes32(x.bg_inode_table_lo));
    assert(e.subrange(12, 14) =~= bytes16(x.bg_free_blocks_count_lo));
    assert(e.subrange(14, 16) =~= bytes16(x.bg_free_inodes_count_lo));
    assert(e.subrange(16, 18) =~= bytes16(x.bg_used_dirs_count_lo));
    assert(e.subrange(18, 20) =~= bytes16(x.bg_flags));
    assert(e.subrange(20, 24) =~= bytes32(x.bg_exclude_bitmap_lo));
    assert(e.subrange(24, 26) =~= bytes16(x.bg_block_bitmap_csum_lo));
    assert(e.subrange(26, 28) =~= bytes16(x.bg_inode_bitmap_csum_lo));
    assert(e.subrange(28, 30) =~= bytes16(x.bg_itable_unused_lo));
    assert(e.subrange(30, 32) =~= bytes16(x.bg_checksum));
    assert(e.subrange(32, 36) =~= bytes32(x.bg_block_bitmap_hi));
    assert(e.subrange(36, 40) =~= bytes32(x.bg_inode_bitmap_hi));
    assert(e.subrange(40, 44) =~= bytes32(x.bg_inode_table_hi));
    assert(e.subrange(44, 46) =~= bytes16(x.bg_free_blocks_count_hi));
    assert(e.subrange(46, 48) =~= bytes16(x.bg_free_inodes_count_hi));
    assert(e.subrange(48, 50) =~= bytes16(x.bg_used_dirs_count_hi));
    assert(e.subrange(50, 52) =~= bytes16(x.bg_itable_unused_hi));
    assert(e.subrange(52, 56) =~= bytes32(x.bg_exclude_bitmap_hi));
    assert(e.subrange(56, 58) =~= bytes16(x.bg_block_bitmap_csum_hi));
    assert(e.subrange(58, 60) =~= bytes16(x.bg_inode_bitmap_csum_hi));
    assert(e.subrange(60, 64) =~= bytes32(x.bg_reserved));
}

impl GroupDesc {
    /// The descriptor that the 32-byte layout at `b[off..off + 32]` encodes.
    pub open spec fn spec_from_short_bytes(b: Seq<u8>, off: int) -> Self {
        GroupDesc {
            bg_block_bitmap_lo: le32(b, off),
            bg_inode_bitmap_lo: le32(b, off + 4),
            bg_inode_table_lo: le32(b, off + 8),
            bg_free_blocks_count_lo: le16(b, off + 12),
            bg_free_inodes_count_lo: le16(b, off + 14),
            bg_used_dirs_count_lo: le16(b, off + 16),
            bg_flags: le16(b, off + 18),
            bg_exclude_bitmap_lo: le32(b, off + 20),
            bg_block_bitmap_csum_lo: le16(b, off + 24),
            bg_inode_bitmap_csum_lo: le16(b, off + 26),
            bg_itable_unused_lo: le16(b, off + 28),
            bg_checksum: le16(b, off + 30),
            bg_block_bitmap_hi: 0,
            bg_inode_bitmap_hi: 0,
            bg_inode_table_hi: 0,
            bg_free_blocks_count_hi: 0,
            bg_free_inodes_count_hi: 0,
            bg_used_dirs_count_hi: 0,
            bg_itable_unused_hi: 0,
            bg_exclude_bitmap_hi: 0,
            bg_block_bitmap_csum_hi: 0,
            bg_inode_bitmap_csum_hi: 0,
            bg_reserved: 0,
        }
    }

    /// Decodes the 32-byte layout that starts at byte `off` of `buf`; the
    /// upper halves, which that layout lacks, are zero.
    pub fn from_short_bytes(buf: &[u8], off: usize) -> (r: Result<Self, FsError>)
        ensures
            match r {
                Ok(x) => off + GROUP_DESC_SHORT_LEN <= buf@.len() && x == Self::spec_from_short_bytes(
                    buf@,
                    off as int,
                ),
                Err(e) => off + GROUP_DESC_SHORT_LEN > buf@.len() && e == FsError::Truncated,
            },
    {
        if off > buf.len() || buf.len() - off < GROUP_DESC_SHORT_LEN {
            return Err(FsError::Truncated);
        }
        Ok(GroupDesc {
            bg_block_bitmap_lo: read_u32(buf, off),
            bg_inode_bitmap_lo: read_u32(buf, off + 4),
            bg_inode_table_lo: read_u32(buf, off + 8),
            bg_free_blocks_count_lo: read_u16(buf, off + 12),
            bg_free_inodes_count_lo: read_u16(buf, off + 14),
            bg_used_dirs_count_lo: read_u16(buf, off + 16),
            bg_flags: read_u16(buf, off + 18),
            bg_exclude_bitmap_lo: read_u32(buf, off + 20),
            bg_block_bitmap_csum_lo: read_u16(buf, off + 24),
            bg_inode_bitmap_csum_lo: read_u16(buf, off + 26),
            bg_itable_unused_lo: read_u16(buf, off + 28),
            bg_checksum: read_u16(buf, off + 30),
            bg_block_bitmap_hi: 0,
            bg_inode_bitmap_hi: 0,
            bg_inode_table_hi: 0,
            bg_free_blocks_count_hi: 0,
            bg_free_inodes_count_hi: 0,
            bg_used_dirs_count_hi: 0,
            bg_itable_unused_hi: 0,
            bg_exclude_bitmap_hi: 0,
            bg_block_bitmap_csum_hi: 0,
            bg_inode_bitmap_csum_hi: 0,
            bg_reserved: 0,
        })
    }

    /// The first block of the group's inode table: the halves combined.
    pub open spec fn spec_inode_table(&self) -> nat {
        (self.bg_inode_table_hi as nat) * 0x1_0000_0000 + self.bg_inode_table_lo as nat
    }

    /// The first block of the group's inode table.
    pub fn inode_table(&self) -> (r: u64)
        ensures
            r == self.spec_inode_table(),
    {
        (self.bg_inode_table_hi as u64) * 0x1_0000_0000 + self.bg_inode_table_lo as u64
    }

    /// Whether the group's flags include all bits of `flag`.
    pub fn has_flag(&self, flag: u16) -> (r: bool)
        ensures
            r == (self.bg_flags & flag == flag),
    {
        self.bg_flags & flag == flag
    }
}

/// The block group descriptor, under its ext4 name.
pub type Ext4GroupDesc = GroupDesc;

} // verus!
