use vstd::prelude::*;

use crate::codec::{
    bytes16, bytes32, le16, le32, lemma_int_round_trips, lemma_join, push_bytes, push_u16,
    push_u32, read_bytes, read_u16, read_u32,
};
use crate::error::{Feature, FsError};
use crate::extents::{
    lemma_internal_node_unsupported, spec_extent_root, walk_extent_root, Extent, EXTENT_HEADER_LEN,
    EXTENT_MAGIC,
};

verus! {

/// Mode: others may execute.
pub const S_IXOTH: u16 = 0x1;
/// Mode: others may write.
pub const S_IWOTH: u16 = 0x2;
/// Mode: others may read.
pub const S_IROTH: u16 = 0x4;
/// Mode: group members may execute.
pub const S_IXGRP: u16 = 0x8;
/// Mode: group members may write.
pub const S_IWGRP: u16 = 0x10;
/// Mode: group members may read.
pub const S_IRGRP: u16 = 0x20;
/// Mode: the owner may execute.
pub const S_IXUSR: u16 = 0x40;
/// Mode: the owner may write.
pub const S_IWUSR: u16 = 0x80;
/// Mode: the owner may read.
pub const S_IRUSR: u16 = 0x100;
/// Mode: sticky bit.
pub const S_ISVTX: u16 = 0x200;
/// Mode: set group id.
pub const S_ISGID: u16 = 0x400;
/// Mode: set user id.
pub const S_ISUID: u16 = 0x800;
/// Mode: the bits that hold the file kind.
pub const S_IFMT: u16 = 0xF000;
/// File kind: FIFO.
pub const S_IFIFO: u16 = 0x1000;
/// File kind: character device.
pub const S_IFCHR: u16 = 0x2000;
/// File kind: directory.
pub const S_IFDIR: u16 = 0x4000;
/// File kind: block device.
pub const S_IFBLK: u16 = 0x6000;
/// File kind: regular file.
pub const S_IFREG: u16 = 0x8000;
/// File kind: symbolic link.
pub const S_IFLNK: u16 = 0xA000;
/// File kind: socket.
pub const S_IFSOCK: u16 = 0xC000;

/// Inode flag: secure deletion.
pub const EXT4_SECRM_FL: u32 = 0x0000_0001;
/// Inode flag: undelete.
pub const EXT4_UNRM_FL: u32 = 0x0000_0002;
/// Inode flag: compress file.
pub const EXT4_COMPR_FL: u32 = 0x0000_0004;
/// Inode flag: synchronous updates.
pub const EXT4_SYNC_FL: u32 = 0x0000_0008;
/// Inode flag: immutable file.
pub const EXT4_IMMUTABLE_FL: u32 = 0x0000_0010;
/// Inode flag: writes may only append.
pub const EXT4_APPEND_FL: u32 = 0x0000_0020;
/// Inode flag: do not dump the file.
pub const EXT4_NODUMP_FL: u32 = 0x0000_0040;
/// Inode flag: do not update the access time.
pub const EXT4_NOATIME_FL: u32 = 0x0000_0080;
/// Inode flag: dirty (compression).
pub const EXT4_DIRTY_FL: u32 = 0x0000_0100;
/// Inode flag: one or more compressed clusters.
pub const EXT4_COMPRBLK_FL: u32 = 0x0000_0200;
/// Inode flag: do not compress.
pub const EXT4_NOCOMPR_FL: u32 = 0x0000_0400;
/// Inode flag: encrypted file.
pub const EXT4_ENCRYPT_FL: u32 = 0x0000_0800;
/// Inode flag: hash-indexed directory.
pub const EXT4_INDEX_FL: u32 = 0x0000_1000;
/// Inode flag: AFS directory.
pub const EXT4_IMAGIC_FL: u32 = 0x0000_2000;
/// Inode flag: file data is journaled.
pub const EXT4_JOURNAL_DATA_FL: u32 = 0x0000_4000;
/// Inode flag: the file tail is not merged.
pub const EXT4_NOTAIL_FL: u32 = 0x0000_8000;
/// Inode flag: synchronous directory updates.
pub const EXT4_DIRSYNC_FL: u32 = 0x0001_0000;
/// Inode flag: top of a directory hierarchy.
pub const EXT4_TOPDIR_FL: u32 = 0x0002_0000;
/// Inode flag: huge file.
pub const EXT4_HUGE_FILE_FL: u32 = 0x0004_0000;
/// Inode flag: the inode uses extents.
pub const EXT4_EXTENTS_FL: u32 = 0x0008_0000;
/// Inode flag: verity protected.
pub const EXT4_VERITY_FL: u32 = 0x0010_0000;
/// Inode flag: the inode holds a large extended attribute.
pub const EXT4_EA_INODE_FL: u32 = 0x0020_0000;
/// Inode flag: DAX.
pub const EXT4_DAX_FL: u32 = 0x0200_0000;
/// Inode flag: the inode holds its data inline.
pub const EXT4_INLINE_DATA_FL: u32 = 0x1000_0000;
/// Inode flag: children inherit the project id.
pub const EXT4_PROJINHERIT_FL: u32 = 0x2000_0000;
/// Inode flag: casefolded directory.
pub const EXT4_CASEFOLD_FL: u32 = 0x4000_0000;
/// Inode flag: reserved for the ext4 library.
pub const EXT4_RESERVED_FL: u32 = 0x8000_0000;

/// Size in bytes of an on-disk inode.
pub const INODE_LEN: usize = 160;

/// The fixed-layout prefix of an inode record. The record on disk may be
/// longer (the superblock's `s_inode_size`); the rest is not decoded.
#[derive(Clone, Debug)]
pub struct Inode {
    /// File mode: permission bits and file kind (`S_*`).
    pub i_mode: u16,
    /// Lower 16 bits of the owner's user id.
    pub i_uid: u16,
    /// Lower 32 bits of the size in bytes.
    pub i_size_lo: u32,
    /// Last access time, in seconds since the epoch.
    pub i_atime: u32,
    /// Last inode change time, in seconds since the epoch.
    pub i_ctime: u32,
    /// Last data modification time, in seconds since the epoch.
    pub i_mtime: u32,
    /// Deletion time, in seconds since the epoch.
    pub i_dtime: u32,
    /// Lower 16 bits of the group id.
    pub i_gid: u16,
    /// Hard link count.
    pub i_links_count: u16,
    /// Lower 32 bits of the block count.
    pub i_blocks_lo: u32,
    /// Inode flags (`EXT4_*_FL`).
    pub i_flags: u32,
    /// Inode version.
    pub l_i_version: u32,
    /// Block map or extent tree root.
    pub i_block: Vec<u8>,
    /// File version (for NFS).
    pub i_generation: u32,
    /// Lower 32 bits of the extended attribute block.
    pub i_file_acl_lo: u32,
    /// Upper 32 bits of the size in bytes.
    pub i_size_high: u32,
    /// Obsolete fragment address.
    pub i_obso_faddr: u32,
    /// Upper 16 bits of the block count.
    pub l_i_blocks_high: u16,
    /// Upper 16 bits of the extended attribute block.
    pub l_i_file_acl_high: u16,
    /// Upper 16 bits of the owner's user id.
    pub l_i_uid_high: u16,
    /// Upper 16 bits of the group id.
    pub l_i_gid_high: u16,
    /// Lower 16 bits of the inode checksum.
    pub l_i_checksum_lo: u16,
    /// Unused.
    pub l_i_reserved: u16,
    /// Size of the fields beyond the original 128-byte record.
    pub i_extra_isize: u16,
    /// Upper 16 bits of the inode checksum.
    pub i_checksum_hi: u16,
    /// Extra change time bits, for sub-second precision.
    pub i_ctime_extra: u32,
    /// Extra modification time bits, for sub-second precision.
    pub i_mtime_extra: u32,
    /// Extra access time bits, for sub-second precision.
    pub i_atime_extra: u32,
    /// File creation time, in seconds since the epoch.
    pub i_crtime: u32,
    /// Extra creation time bits, for sub-second precision.
    pub i_crtime_extra: u32,
    /// Upper 32 bits of the version number.
    pub i_version_hi: u32,
    /// Project id.
    pub i_projid: u32,
}

impl Inode {
    /// Whether every field holds what `b[off..off + INODE_LEN]` encodes.
    pub open spec fn decodes(&self, b: Seq<u8>, off: int) -> bool {
        &&& self.i_mode == le16(b, off)
        &&& self.i_uid == le16(b, off + 2)
        &&& self.i_size_lo == le32(b, off + 4)
        &&& self.i_atime == le32(b, off + 8)
        &&& self.i_ctime == le32(b, off + 12)
        &&& self.i_mtime == le32(b, off + 16)
        &&& self.i_dtime == le32(b, off + 20)
        &&& self.i_gid == le16(b, off + 24)
        &&& self.i_links_count == le16(b, off + 26)
        &&& self.i_blocks_lo == le32(b, off + 28)
        &&& self.i_flags == le32(b, off + 32)
        &&& self.l_i_version == le32(b, off + 36)
        &&& self.i_block@ == b.subrange(off + 40, off + 100)
        &&& self.i_generation == le32(b, off + 100)
        &&& self.i_file_acl_lo == le32(b, off + 104)
        &&& self.i_size_high == le32(b, off + 108)
        &&& self.i_obso_faddr == le32(b, off + 112)
        &&& self.l_i_blocks_high == le16(b, off + 116)
        &&& self.l_i_file_acl_high == le16(b, off + 118)
        &&& self.l_i_uid_high == le16(b, off + 120)
        &&& self.l_i_gid_high == le16(b, off + 122)
        &&& self.l_i_checksum_lo == le16(b, off + 124)
        &&& self.l_i_reserved == le16(b, off + 126)
        &&& self.i_extra_isize == le16(b, off + 128)
        &&& self.i_checksum_hi == le16(b, off + 130)
        &&& self.i_ctime_extra == le32(b, off + 132)
        &&& self.i_mtime_extra == le32(b, off + 136)
        &&& self.i_atime_extra == le32(b, off + 140)
        &&& self.i_crtime == le32(b, off + 144)
        &&& self.i_crtime_extra == le32(b, off + 148)
        &&& self.i_version_hi == le32(b, off + 152)
        &&& self.i_projid == le32(b, off + 156)
    }

    /// The on-disk bytes of this record.
    pub open spec fn encoding(&self) -> Seq<u8> {
        bytes16(self.i_mode)
            + bytes16(self.i_uid)
            + bytes32(self.i_size_lo)
            + bytes32(self.i_atime)
            + bytes32(self.i_ctime)
            + bytes32(self.i_mtime)
            + bytes32(self.i_dtime)
            + bytes16(self.i_gid)
            + bytes16(self.i_links_count)
            + bytes32(self.i_blocks_lo)
            + bytes32(self.i_flags)
            + bytes32(self.l_i_version)
            + self.i_block@
            + bytes32(self.i_generation)
            + bytes32(self.i_file_acl_lo)
            + bytes32(self.i_size_high)
            + bytes32(self.i_obso_faddr)
            + bytes16(self.l_i_blocks_high)
            + bytes16(self.l_i_file_acl_high)
            + bytes16(self.l_i_uid_high)
            + bytes16(self.l_i_gid_high)
            + bytes16(self.l_i_checksum_lo)
            + bytes16(self.l_i_reserved)
            + bytes16(self.i_extra_isize)
            + bytes16(self.i_checksum_hi)
            + bytes32(self.i_ctime_extra)
            + bytes32(self.i_mtime_extra)
            + bytes32(self.i_atime_extra)
            + bytes32(self.i_crtime)
            + bytes32(self.i_crtime_extra)
            + bytes32(self.i_version_hi)
            + bytes32(self.i_projid)
    }

    /// Whether each array field has its fixed length.
    pub open spec fn well_formed(&self) -> bool {
        &&& self.i_block@.len() == 60
    }

    /// Decodes the record that starts at byte `off` of `buf`.
    pub fn from_bytes(buf: &[u8], off: usize) -> (r: Result<Self, FsError>)
        ensures
            match r {
                Ok(x) => off + INODE_LEN <= buf@.len() && x.decodes(buf@, off as int) && x.well_formed(),
                Err(e) => off + INODE_LEN > buf@.len() && e == FsError::Truncated,
            },
    {
        if off > buf.len() || buf.len() - off < INODE_LEN {
            return Err(FsError::Truncated);
        }
        Ok(Inode {
            i_mode: read_u16(buf, off),
            i_uid: read_u16(buf, off + 2),
            i_size_lo: read_u32(buf, off + 4),
            i_atime: read_u32(buf, off + 8),
            i_ctime: read_u32(buf, off + 12),
            i_mtime: read_u32(buf, off + 16),
            i_dtime: read_u32(buf, off + 20),
            i_gid: read_u16(buf, off + 24),
            i_links_count: read_u16(buf, off + 26),
            i_blocks_lo: read_u32(buf, off + 28),
            i_flags: read_u32(buf, off + 32),
            l_i_version: read_u32(buf, off + 36),
            i_block: read_bytes(buf, off + 40, 60),
            i_generation: read_u32(buf, off + 100),
            i_file_acl_lo: read_u32(buf, off + 104),
            i_size_high: read_u32(buf, off + 108),
            i_obso_faddr: read_u32(buf, off + 112),
            l_i_blocks_high: read_u16(buf, off + 116),
            l_i_file_acl_high: read_u16(buf, off + 118),
            l_i_uid_high: read_u16(buf, off + 120),
            l_i_gid_high: read_u16(buf, off + 122),
            l_i_checksum_lo: read_u16(buf, off + 124),
            l_i_reserved: read_u16(buf, off + 126),
            i_extra_isize: read_u16(buf, off + 128),
            i_checksum_hi: read_u16(buf, off + 130),
            i_ctime_extra: read_u32(buf, off + 132),
            i_mtime_extra: read_u32(buf, off + 136),
            i_atime_extra: read_u32(buf, off + 140),
            i_crtime: read_u32(buf, off + 144),
            i_crtime_extra: read_u32(buf, off + 148),
            i_version_hi: read_u32(buf, off + 152),
            i_projid: read_u32(buf, off + 156),
        })
    }

    /// Encodes the record in its on-disk layout.
    pub fn to_bytes(&self) -> (r: Vec<u8>)
        ensures
            r@ == self.encoding(),
    {
        let mut v: Vec<u8> = Vec::new();
        push_u16(&mut v, self.i_mode);
        push_u16(&mut v, self.i_uid);
        push_u32(&mut v, self.i_size_lo);
        push_u32(&mut v, self.i_atime);
        push_u32(&mut v, self.i_ctime);
        push_u32(&mut v, self.i_mtime);
        push_u32(&mut v, self.i_dtime);
        push_u16(&mut v, self.i_gid);
        push_u16(&mut v, self.i_links_count);
        push_u32(&mut v, self.i_blocks_lo);
        push_u32(&mut v, self.i_flags);
        push_u32(&mut v, self.l_i_version);
        push_bytes(&mut v, &self.i_block);
        push_u32(&mut v, self.i_generation);
        push_u32(&mut v, self.i_file_acl_lo);
        push_u32(&mut v, self.i_size_high);
        push_u32(&mut v, self.i_obso_faddr);
        push_u16(&mut v, self.l_i_blocks_high);
        push_u16(&mut v, self.l_i_file_acl_high);
        push_u16(&mut v, self.l_i_uid_high);
        push_u16(&mut v, self.l_i_gid_high);
        push_u16(&mut v, self.l_i_checksum_lo);
        push_u16(&mut v, self.l_i_reserved);
        push_u16(&mut v, self.i_extra_isize);
        push_u16(&mut v, self.i_checksum_hi);
        push_u32(&mut v, self.i_ctime_extra);
        push_u32(&mut v, self.i_mtime_extra);
        push_u32(&mut v, self.i_atime_extra);
        push_u32(&mut v, self.i_crtime);
        push_u32(&mut v, self.i_crtime_extra);
        push_u32(&mut v, self.i_version_hi);
        push_u32(&mut v, self.i_projid);
        assert(v@ =~= self.encoding());
        v
    }
}

/// Decoding one inode from the first 160 bytes of a buffer and encoding it
/// again gives back those bytes: every byte of the layout belongs to one field.
pub proof fn lemma_inode_round_trip(x: Inode, b: Seq<u8>)
    requires
        b.len() >= INODE_LEN,
        x.decodes(b, 0),
    ensures
        x.encoding() == b.subrange(0, INODE_LEN as int),
{
    lemma_int_round_trips();
    lemma_join(b, 0, 2, 4);
    lemma_join(b, 0, 4, 8);
    lemma_join(b, 0, 8, 12);
    lemma_join(b, 0, 12, 16);
    lemma_join(b, 0, 16, 20);
    lemma_join(b, 0, 20, 24);
    lemma_join(b, 0, 24, 26);
    lemma_join(b, 0, 26, 28);
    lemma_join(b, 0, 28, 32);
    lemma_join(b, 0, 32, 36);
    lemma_join(b, 0, 36, 40);
    lemma_join(b, 0, 40, 100);
    lemma_join(b, 0, 100, 104);
    lemma_join(b, 0, 104, 108);
    lemma_join(b, 0, 108, 112);
    lemma_join(b, 0, 112, 116);
    lemma_join(b, 0, 116, 118);
    lemma_join(b, 0, 118, 120);
    lemma_join(b, 0, 120, 122);
    lemma_join(b, 0, 122, 124);
    lemma_join(b, 0, 124, 126);
    lemma_join(b, 0, 126, 128);
    lemma_join(b, 0, 128, 130);
    lemma_join(b, 0, 130, 132);
    lemma_join(b, 0, 132, 136);
    lemma_join(b, 0, 136, 140);
    lemma_join(b, 0, 140, 144);
    lemma_join(b, 0, 144, 148);
    lemma_join(b, 0, 148, 152);
    lemma_join(b, 0, 152, 156);
    lemma_join(b, 0, 156, 160);
}

impl Inode {
    /// Whether the inode's flags include all bits of `flag`.
    pub fn has_flag(&self, flag: u32) -> (r: bool)
        ensures
            r == (self.i_flags & flag == flag),
    {
        self.i_flags & flag == flag
    }

    /// Whether the inode is a directory.
    pub fn is_dir(&self) -> (r: bool)
        ensures
            r == (self.i_mode & S_IFMT == S_IFDIR),
    {
        self.i_mode & S_IFMT == S_IFDIR
    }

    /// The extents that back the inode's data, in on-disk order.
    pub open spec fn spec_extents(&self) -> Result<Seq<Extent>, FsError> {
        if self.i_flags & EXT4_INLINE_DATA_FL != 0 {
            Err(FsError::UnsupportedFeature(Feature::InlineData))
        } else {
            spec_extent_root(self.i_block@)
        }
    }

    /// Lists the extents that back the inode's data, in on-disk order.
    /// Only a leaf tree root is read; inline data is not decoded.
    pub fn get_extents(&self) -> (r: Result<Vec<Extent>, FsError>)
        ensures
            match r {
                Ok(v) => self.spec_extents() == Ok::<Seq<Extent>, FsError>(v@),
                Err(e) => self.spec_extents() == Err::<Seq<Extent>, FsError>(e),
            },
    {
        if self.i_flags & EXT4_INLINE_DATA_FL != 0 {
            return Err(FsError::UnsupportedFeature(Feature::InlineData));
        }
        walk_extent_root(self.i_block.as_slice())
    }
}

/// Encoding one inode and decoding the bytes again gives back every field.
pub proof fn lemma_inode_decode_encoding(x: Inode)
    requires
        x.well_formed(),
    ensures
        x.decodes(x.encoding(), 0),
{
    lemma_int_round_trips();
    let e = x.encoding();
    assert(e.subrange(0, 2) =~= bytes16(x.i_mode));
    assert(e.subrange(2, 4) =~= bytes16(x.i_uid));
    assert(e.subrange(4, 8) =~= bytes32(x.i_size_lo));
    assert(e.subrange(8, 12) =~= bytes32(x.i_atime));
    assert(e.subrange(12, 16) =~= bytes32(x.i_ctime));
    assert(e.subrange(16, 20) =~= bytes32(x.i_mtime));
    assert(e.subrange(20, 24) =~= bytes32(x.i_dtime));
    assert(e.subrange(24, 26) =~= bytes16(x.i_gid));
    assert(e.subrange(26, 28) =~= bytes16(x.i_links_count));
    assert(e.subrange(28, 32) =~= bytes32(x.i_blocks_lo));
    assert(e.subrange(32, 36) =~= bytes32(x.i_flags));
    assert(e.subrange(36, 40) =~= bytes32(x.l_i_version));
    assert(e.subrange(40, 100) =~= x.i_block@);
    assert(e.subrange(100, 104) =~= bytes32(x.i_generation));
    assert(e.subrange(104, 108) =~= bytes32(x.i_file_acl_lo));
    assert(e.subrange(108, 112) =~= bytes32(x.i_size_high));
    assert(e.subrange(112, 116) =~= bytes32(x.i_obso_faddr));
    assert(e.subrange(116, 118) =~= bytes16(x.l_i_blocks_high));
    assert(e.subrange(118, 120) =~= bytes16(x.l_i_file_acl_high));
    assert(e.subrange(120, 122) =~= bytes16(x.l_i_uid_high));
    assert(e.subrange(122, 124) =~= bytes16(x.l_i_gid_high));
    assert(e.subrange(124, 126) =~= bytes16(x.l_i_checksum_lo));
    assert(e.subrange(126, 128) =~= bytes16(x.l_i_reserved));
    assert(e.subrange(128, 130) =~= bytes16(x.i_extra_isize));
    assert(e.subrange(130, 132) =~= bytes16(x.i_checksum_hi));
    assert(e.subrange(132, 136) =~= bytes32(x.i_ctime_extra));
    assert(e.subrange(136, 140) =~= bytes32(x.i_mtime_extra));
    assert(e.subrange(140, 144) =~= bytes32(x.i_atime_extra));
    assert(e.subrange(144, 148) =~= bytes32(x.i_crtime));
    assert(e.subrange(148, 152) =~= bytes32(x.i_crtime_extra));
    assert(e.subrange(152, 156) =~= bytes32(x.i_version_hi));
    assert(e.subrange(156, 160) =~= bytes32(x.i_projid));
}

/// An inode without inline data whose tree root is valid but not a leaf
/// is reported as an unsupported internal node.
pub proof fn lemma_inode_internal_node(inode: Inode)
    requires
        inode.i_flags & EXT4_INLINE_DATA_FL == 0,
        inode.i_block@.len() >= EXTENT_HEADER_LEN,
        le16(inode.i_block@, 0) == EXTENT_MAGIC,
        le16(inode.i_block@, 6) != 0,
    ensures
        inode.spec_extents() == Err::<Seq<Extent>, FsError>(
            FsError::UnsupportedFeature(Feature::InternalExtentNode),
        ),
{
    lemma_internal_node_unsupported(inode.i_block@);
}

} // verus!
