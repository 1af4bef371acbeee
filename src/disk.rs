use vstd::arithmetic::power2::{lemma_pow2_pos, pow2};
use vstd::bits::{lemma_u32_pow2_no_overflow, lemma_u32_shl_is_mul};
use vstd::prelude::*;

use crate::error::{Feature, FsError};
use crate::extents::{spec_extent_root, Extent};
use crate::group_desc::{GroupDesc, GROUP_DESC_LEN, GROUP_DESC_SHORT_LEN};
use crate::inode::{Inode, EXT4_INDEX_FL, EXT4_INLINE_DATA_FL};
use crate::layout::{group_has_backup, spec_group_has_backup};
use crate::superblock::{Ext4SuperBlock, EXT4_SUPER_MAGIC, INCOMPAT_64BIT, SUPERBLOCK_LEN};

verus! {

/// Largest `s_log_block_size` accepted: the block size must fit in a `u32`.
pub const MAX_LOG_BLOCK_SIZE: u32 = 21;

/// Largest `s_log_groups_per_flex` accepted: the flex group size must fit in a `u32`.
pub const MAX_LOG_GROUPS_PER_FLEX: u8 = 31;

/// Whether a decoded superblock describes a file system that can be
/// addressed: the right magic, non-zero divisors, representable sizes.
pub open spec fn superblock_usable(sb: Ext4SuperBlock) -> bool {
    &&& sb.s_magic == EXT4_SUPER_MAGIC
    &&& sb.s_blocks_per_group > 0
    &&& sb.s_inodes_per_group > 0
    &&& sb.s_inode_size > 0
    &&& sb.s_log_block_size <= MAX_LOG_BLOCK_SIZE
    &&& sb.s_log_groups_per_flex <= MAX_LOG_GROUPS_PER_FLEX
}

/// The parameters of an opened file system that all address computations use.
pub struct Disk {
    /// The decoded primary superblock.
    pub super_block: Ext4SuperBlock,
    /// Bytes per block.
    pub block_size: u32,
    /// Block groups per flexible block group.
    pub groups_per_flex: u32,
}

impl Disk {
    /// Whether the parameters are those of a usable superblock.
    pub open spec fn wf(&self) -> bool {
        &&& superblock_usable(self.super_block)
        &&& self.block_size == pow2((10 + self.super_block.s_log_block_size) as nat)
        &&& self.groups_per_flex == pow2(self.super_block.s_log_groups_per_flex as nat)
    }

    /// Opens a file system from the bytes of its primary superblock (read
    /// at byte `SUPERBLOCK_OFFSET` of the device). Fewer bytes than a
    /// superblock are a short read.
    pub fn new(sb_bytes: &[u8]) -> (r: Result<Disk, FsError>)
        ensures
            match r {
                Ok(d) => sb_bytes@.len() >= SUPERBLOCK_LEN && d.wf() && d.super_block.decodes(
                    sb_bytes@,
                    0,
                ),
                Err(e) => (e == FsError::Io && sb_bytes@.len() < SUPERBLOCK_LEN) || (e
                    == FsError::CorruptFormat && sb_bytes@.len() >= SUPERBLOCK_LEN && forall|
                    sb: Ext4SuperBlock,
                | sb.decodes(sb_bytes@, 0) ==> !superblock_usable(sb)),
            },
    {
        let sb = match Ext4SuperBlock::from_bytes(sb_bytes, 0) {
            Ok(sb) => sb,
            Err(_) => return Err(FsError::Io),
        };
        if sb.s_magic != EXT4_SUPER_MAGIC || sb.s_blocks_per_group == 0
            || sb.s_inodes_per_group == 0 || sb.s_inode_size == 0
            || sb.s_log_block_size > MAX_LOG_BLOCK_SIZE
            || sb.s_log_groups_per_flex > MAX_LOG_GROUPS_PER_FLEX {
            return Err(FsError::CorruptFormat);
        }
        let log_bs: u32 = 10 + sb.s_log_block_size;
        let log_gpf: u32 = sb.s_log_groups_per_flex as u32;
        proof {
            lemma_u32_pow2_no_overflow(log_bs as nat);
            lemma_u32_shl_is_mul(1, log_bs);
            lemma_u32_pow2_no_overflow(log_gpf as nat);
            lemma_u32_shl_is_mul(1, log_gpf);
        }
        let bs: u32 = 1u32 << log_bs;
        let gpf: u32 = 1u32 << log_gpf;
        Ok(Disk { super_block: sb, block_size: bs, groups_per_flex: gpf })
    }

    /// Whether block group `g` carries its own copy of the superblock and
    /// group descriptor table.
    pub open spec fn spec_has_backup(&self, g: nat) -> Result<bool, FsError> {
        spec_group_has_backup(
            self.super_block.s_feature_compat,
            self.super_block.s_feature_ro_compat,
            g,
        )
    }

    /// Whether block group `bg_num` carries its own copy of the superblock
    /// and group descriptor table.
    pub fn block_group_has_redundant_copy(&self, bg_num: u32) -> (r: Result<bool, FsError>)
        ensures
            r == self.spec_has_backup(bg_num as nat),
    {
        group_has_backup(self.super_block.s_feature_compat, self.super_block.s_feature_ro_compat, bg_num)
    }

    /// The number of block groups: the blocks after the first data block,
    /// split into groups of `s_blocks_per_group`, the last one maybe partial.
    pub open spec fn spec_group_count(&self) -> nat {
        let bc = self.super_block.spec_blocks_count();
        let first = self.super_block.s_first_data_block as nat;
        let per = self.super_block.s_blocks_per_group as nat;
        if bc <= first {
            0
        } else if (bc - first) as nat % per == 0 {
            (bc - first) as nat / per
        } else {
            (bc - first) as nat / per + 1
        }
    }

    /// The number of block groups.
    pub fn group_count(&self) -> (r: u64)
        requires
            self.wf(),
        ensures
            r == self.spec_group_count(),
    {
        let bc = self.super_block.blocks_count();
        let first = self.super_block.s_first_data_block as u64;
        let per = self.super_block.s_blocks_per_group as u64;
        if bc <= first {
            0
        } else if (bc - first) % per == 0 {
            (bc - first) / per
        } else {
            proof {
                let d = (bc - first) as int;
                let p = per as int;
                assert(d / p < 0xFFFF_FFFF_FFFF_FFFF) by (nonlinear_arith)
                    requires p >= 1, d % p != 0, d <= 0xFFFF_FFFF_FFFF_FFFF;
            }
            (bc - first) / per + 1
        }
    }

    /// Size in bytes of one entry of the group descriptor table.
    pub open spec fn spec_desc_size(&self) -> nat {
        if self.super_block.s_feature_incompat & INCOMPAT_64BIT != 0 {
            GROUP_DESC_LEN as nat
        } else {
            GROUP_DESC_SHORT_LEN as nat
        }
    }

    /// Size in bytes of one entry of the group descriptor table: 64 with
    /// the 64bit feature, 32 without.
    pub fn desc_size(&self) -> (r: u64)
        ensures
            r == self.spec_desc_size(),
    {
        if self.super_block.s_feature_incompat & INCOMPAT_64BIT != 0 {
            GROUP_DESC_LEN as u64
        } else {
            GROUP_DESC_SHORT_LEN as u64
        }
    }

    /// Byte offset of the copy of the descriptor table that follows the
    /// superblock copy of group `g`.
    pub open spec fn spec_table_offset(&self, g: nat) -> nat {
        (g * self.super_block.s_blocks_per_group as nat + self.super_block.s_first_data_block as nat
            + 1) * self.block_size as nat
    }

    /// Byte offset of the table copy that follows the superblock copy of group `g`.
    fn table_offset(&self, g: u32) -> (r: u128)
        ensures
            r == self.spec_table_offset(g as nat),
            r <= 0x1_0000_0000_0000_0000_0000_0000,
    {
        let per = self.super_block.s_blocks_per_group as u128;
        let first = self.super_block.s_first_data_block as u128;
        let bs = self.block_size as u128;
        let gg = g as u128;
        proof {
            assert(gg * per <= 0xFFFF_FFFF * 0xFFFF_FFFF) by (nonlinear_arith)
                requires gg <= 0xFFFF_FFFF, per <= 0xFFFF_FFFF;
            assert((gg * per + first + 1) * bs <= 0x1_0000_0000_0000_0000_0000_0000) by (nonlinear_arith)
                requires gg * per <= 0xFFFF_FFFF * 0xFFFF_FFFF, first <= 0xFFFF_FFFF, bs <= 0xFFFF_FFFF;
        }
        (gg * per + first + 1) * bs
    }

    /// Byte offset of the table copy whose entry for group `g` is read:
    /// the group's own copy, else that of the first group of its flexible
    /// group, else the primary copy after group 0's superblock.
    pub open spec fn spec_table_for(&self, g: nat) -> Result<nat, FsError> {
        match self.spec_has_backup(g) {
            Err(e) => Err(e),
            Ok(true) => Ok(self.spec_table_offset(g)),
            Ok(false) => {
                let primary = (g - g % self.groups_per_flex as nat) as nat;
                match self.spec_has_backup(primary) {
                    Err(e) => Err(e),
                    Ok(true) => Ok(self.spec_table_offset(primary)),
                    Ok(false) => Ok(self.spec_table_offset(0)),
                }
            },
        }
    }

    /// Byte offset of the descriptor of block group `g`.
    pub open spec fn spec_desc_offset(&self, g: nat) -> Result<nat, FsError> {
        if g >= self.spec_group_count() {
            Err(FsError::OutOfRange)
        } else {
            match self.spec_table_for(g) {
                Err(e) => Err(e),
                Ok(t) => if t + g * self.spec_desc_size() > u64::MAX {
                    Err(FsError::OutOfRange)
                } else {
                    Ok(t + g * self.spec_desc_size())
                },
            }
        }
    }

    /// Computes the byte offset of the descriptor of block group `group_num`.
    pub fn desc_offset(&self, group_num: u32) -> (r: Result<u64, FsError>)
        requires
            self.wf(),
        ensures
            match r {
                Ok(o) => self.spec_desc_offset(group_num as nat) == Ok::<nat, FsError>(o as nat),
                Err(e) => self.spec_desc_offset(group_num as nat) == Err::<nat, FsError>(e),
            },
    {
        if group_num as u64 >= self.group_count() {
            return Err(FsError::OutOfRange);
        }
        let table: u128 = match self.block_group_has_redundant_copy(group_num) {
            Err(e) => return Err(e),
            Ok(true) => self.table_offset(group_num),
            Ok(false) => {
                proof {
                    lemma_pow2_pos(self.super_block.s_log_groups_per_flex as nat);
                    let gpf = self.groups_per_flex as int;
                    let gn = group_num as int;
                    assert(gn % gpf <= gn) by (nonlinear_arith)
                        requires gpf > 0, gn >= 0;
                }
                let primary = group_num - group_num % self.groups_per_flex;
                match self.block_group_has_redundant_copy(primary) {
                    Err(e) => return Err(e),
                    Ok(true) => self.table_offset(primary),
                    Ok(false) => self.table_offset(0),
                }
            },
        };
        let ds = self.desc_size() as u128;
        let g = group_num as u128;
        proof {
            assert(g * ds <= 0xFFFF_FFFF * 64) by (nonlinear_arith)
                requires g <= 0xFFFF_FFFF, ds <= 64;
        }
        let off = table + g * ds;
        if off > u64::MAX as u128 {
            return Err(FsError::OutOfRange);
        }
        Ok(off as u64)
    }
}

impl Disk {
    /// The descriptor that the bytes `b` of one table entry encode, in the
    /// layout that the file system's features select.
    pub open spec fn spec_desc(&self, b: Seq<u8>) -> GroupDesc {
        if self.super_block.s_feature_incompat & INCOMPAT_64BIT != 0 {
            GroupDesc::spec_from_bytes(b, 0)
        } else {
            GroupDesc::spec_from_short_bytes(b, 0)
        }
    }

    /// The first block of the inode table that the descriptor bytes `b` name.
    pub open spec fn spec_itable(&self, b: Seq<u8>) -> Result<nat, FsError> {
        if b.len() < self.spec_desc_size() {
            Err(FsError::Truncated)
        } else if self.spec_desc(b).spec_inode_table() >= self.super_block.spec_blocks_count() {
            Err(FsError::CorruptFormat)
        } else {
            Ok(self.spec_desc(b).spec_inode_table())
        }
    }

    /// Decodes the descriptor entry `desc` of a block group and returns the
    /// first block of the group's inode table, which must lie on the device.
    pub fn get_itable_blk_num(&self, desc: &[u8]) -> (r: Result<u64, FsError>)
        ensures
            match r {
                Ok(t) => self.spec_itable(desc@) == Ok::<nat, FsError>(t as nat),
                Err(e) => self.spec_itable(desc@) == Err::<nat, FsError>(e),
            },
    {
        let gd = if self.super_block.s_feature_incompat & INCOMPAT_64BIT != 0 {
            GroupDesc::from_bytes(desc, 0)
        } else {
            GroupDesc::from_short_bytes(desc, 0)
        };
        let gd = match gd {
            Ok(gd) => gd,
            Err(e) => return Err(e),
        };
        let t = gd.inode_table();
        if t >= self.super_block.blocks_count() {
            return Err(FsError::CorruptFormat);
        }
        Ok(t)
    }

    /// Whether `n` names an inode of the file system: inode numbers start at 1.
    pub open spec fn spec_inode_in_range(&self, n: nat) -> bool {
        1 <= n <= self.super_block.s_inodes_count
    }

    /// The block group that holds inode `n`.
    pub open spec fn spec_inode_group(&self, n: nat) -> nat {
        ((n - 1) as nat) / (self.super_block.s_inodes_per_group as nat)
    }

    /// The index of inode `n` within its group's inode table.
    pub open spec fn spec_inode_index(&self, n: nat) -> nat {
        ((n - 1) as nat) % (self.super_block.s_inodes_per_group as nat)
    }

    /// Byte offset of inode `n`, given the first block of its group's inode table.
    pub open spec fn spec_inode_offset(&self, n: nat, itable: nat) -> nat {
        itable * self.block_size as nat + self.spec_inode_index(n) * self.super_block.s_inode_size as nat
    }

    /// The block group that holds inode `inode_num` and the inode's index
    /// within that group's inode table.
    pub fn inode_location(&self, inode_num: u32) -> (r: Result<(u32, u32), FsError>)
        requires
            self.wf(),
        ensures
            match r {
                Ok((g, i)) => self.spec_inode_in_range(inode_num as nat) && g == self.spec_inode_group(
                    inode_num as nat,
                ) && i == self.spec_inode_index(inode_num as nat),
                Err(e) => !self.spec_inode_in_range(inode_num as nat) && e == FsError::OutOfRange,
            },
    {
        if inode_num == 0 || inode_num > self.super_block.s_inodes_count {
            return Err(FsError::OutOfRange);
        }
        let per = self.super_block.s_inodes_per_group;
        Ok(((inode_num - 1) / per, (inode_num - 1) % per))
    }

    /// Byte offset of inode `inode_num`, given the first block `itable` of
    /// its group's inode table.
    pub fn inode_offset(&self, inode_num: u32, itable: u64) -> (r: Result<u64, FsError>)
        requires
            self.wf(),
        ensures
            match r {
                Ok(o) => self.spec_inode_in_range(inode_num as nat) && o == self.spec_inode_offset(
                    inode_num as nat,
                    itable as nat,
                ),
                Err(e) => e == FsError::OutOfRange && (!self.spec_inode_in_range(inode_num as nat)
                    || self.spec_inode_offset(inode_num as nat, itable as nat) > u64::MAX),
            },
    {
        let (_g, index) = match self.inode_location(inode_num) {
            Ok(loc) => loc,
            Err(e) => return Err(e),
        };
        let t = itable as u128;
        let bs = self.block_size as u128;
        let i = index as u128;
        let isz = self.super_block.s_inode_size as u128;
        proof {
            assert(t * bs <= 0xFFFF_FFFF_FFFF_FFFF * 0xFFFF_FFFF) by (nonlinear_arith)
                requires t <= 0xFFFF_FFFF_FFFF_FFFF, bs <= 0xFFFF_FFFF;
            assert(i * isz <= 0xFFFF_FFFF * 0xFFFF) by (nonlinear_arith)
                requires i <= 0xFFFF_FFFF, isz <= 0xFFFF;
        }
        let off = t * bs + i * isz;
        if off > u64::MAX as u128 {
            return Err(FsError::OutOfRange);
        }
        Ok(off as u64)
    }

    /// The data block of a directory whose inode has flags `flags` and
    /// block-mapping area `area`: only a directory held in one extent and
    /// not indexed by a hashed tree is read.
    pub open spec fn spec_dir_block(&self, flags: u32, area: Seq<u8>) -> Result<nat, FsError> {
        if flags & EXT4_INDEX_FL != 0 {
            Err(FsError::UnsupportedFeature(Feature::HashedTreeDirectory))
        } else {
            let extents = if flags & EXT4_INLINE_DATA_FL != 0 {
                Err(FsError::UnsupportedFeature(Feature::InlineData))
            } else {
                spec_extent_root(area)
            };
            match extents {
                Err(e) => Err(e),
                Ok(s) => if s.len() == 0 {
                    Err(FsError::CorruptFormat)
                } else if s.len() > 1 {
                    Err(FsError::UnsupportedFeature(Feature::MultiExtentDirectory))
                } else if s[0].spec_start_block() >= self.super_block.spec_blocks_count() {
                    Err(FsError::CorruptFormat)
                } else {
                    Ok(s[0].spec_start_block())
                },
            }
        }
    }

    /// The block that holds the entries of the directory `inode`.
    pub fn dir_block_of(&self, inode: &Inode) -> (r: Result<u64, FsError>)
        ensures
            match r {
                Ok(b) => self.spec_dir_block(inode.i_flags, inode.i_block@) == Ok::<nat, FsError>(b as nat),
                Err(e) => self.spec_dir_block(inode.i_flags, inode.i_block@) == Err::<nat, FsError>(e),
            },
    {
        if inode.i_flags & EXT4_INDEX_FL != 0 {
            return Err(FsError::UnsupportedFeature(Feature::HashedTreeDirectory));
        }
        let extents: Vec<Extent> = match inode.get_extents() {
            Ok(v) => v,
            Err(e) => return Err(e),
        };
        if extents.len() == 0 {
            return Err(FsError::CorruptFormat);
        }
        if extents.len() > 1 {
            return Err(FsError::UnsupportedFeature(Feature::MultiExtentDirectory));
        }
        let blk = extents[0].start_block();
        if blk >= self.super_block.blocks_count() {
            return Err(FsError::CorruptFormat);
        }
        Ok(blk)
    }

    /// Byte offset of block `blk`.
    pub open spec fn spec_block_offset(&self, blk: nat) -> nat {
        blk * self.block_size as nat
    }

    /// Byte offset of block `blk`; an error where it does not fit in 64 bits.
    pub fn block_offset(&self, blk: u64) -> (r: Result<u64, FsError>)
        ensures
            match r {
                Ok(o) => o == self.spec_block_offset(blk as nat),
                Err(e) => e == FsError::OutOfRange && self.spec_block_offset(blk as nat) > u64::MAX,
            },
    {
        let b = blk as u128;
        let bs = self.block_size as u128;
        proof {
            assert(b * bs <= 0xFFFF_FFFF_FFFF_FFFF * 0xFFFF_FFFF) by (nonlinear_arith)
                requires b <= 0xFFFF_FFFF_FFFF_FFFF, bs <= 0xFFFF_FFFF;
        }
        let off = b * bs;
        if off > u64::MAX as u128 {
            return Err(FsError::OutOfRange);
        }
        Ok(off as u64)
    }
}

} // verus!
