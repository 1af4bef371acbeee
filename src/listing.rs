use vstd::prelude::*;

use crate::codec::{le16, le32};
use crate::directories::{entries_at, parse_dir_block, spec_entry_offsets, DirEntry2};
use crate::disk::Disk;
use crate::error::{Feature, FsError};
use crate::extents::{lemma_internal_node_unsupported, EXTENT_MAGIC};
use crate::inode::{Inode, EXT4_INDEX_FL, EXT4_INLINE_DATA_FL, INODE_LEN};

verus! {

/// What the bytes of a pending read are for, in the listing of a directory.
#[derive(Clone, Copy, Debug, PartialEq, Eq, Structural)]
pub enum DirStage {
    /// The group descriptor of the group that holds the directory's inode.
    Descriptor { inode_num: u32 },
    /// The directory's inode record.
    InodeRecord,
    /// The block that holds the directory's entries.
    DataBlock,
}

/// The next thing to do in the listing of a directory.
#[derive(Debug)]
pub enum DirStep {
    /// Read `len` bytes at byte `offset` of the device and hand them, with
    /// `stage`, to `Disk::read_dir_resume`.
    Read { stage: DirStage, offset: u64, len: u64 },
    /// The directory's entries, in on-disk order.
    Done(Vec<DirEntry2>),
    /// The listing failed.
    Failed(FsError),
}

/// Whether `step` asks for the read that `plan` gives (an offset and a
/// length) for `stage`, or fails with the error of `plan`.
pub open spec fn step_follows(step: DirStep, stage: DirStage, plan: Result<(nat, nat), FsError>) -> bool {
    match plan {
        Ok((o, l)) => step matches DirStep::Read { stage: s, offset, len } && s == stage && offset
            == o && len == l,
        Err(e) => step matches DirStep::Failed(f) && f == e,
    }
}

impl Disk {
    /// The first read of the listing of directory `n`: its group's descriptor.
    pub open spec fn spec_dir_start(&self, n: nat) -> Result<(nat, nat), FsError> {
        if !self.spec_inode_in_range(n) {
            Err(FsError::OutOfRange)
        } else {
            match self.spec_desc_offset(self.spec_inode_group(n)) {
                Err(e) => Err(e),
                Ok(o) => Ok((o, self.spec_desc_size())),
            }
        }
    }

    /// The read that follows the descriptor bytes `b`: inode `n`'s record.
    pub open spec fn spec_dir_after_descriptor(&self, n: nat, b: Seq<u8>) -> Result<(nat, nat), FsError> {
        if b.len() < self.spec_desc_size() {
            Err(FsError::Io)
        } else {
            match self.spec_itable(b) {
                Err(e) => Err(e),
                Ok(t) => if !self.spec_inode_in_range(n) {
                    Err(FsError::OutOfRange)
                } else if self.spec_inode_offset(n, t) > u64::MAX {
                    Err(FsError::OutOfRange)
                } else {
                    Ok((self.spec_inode_offset(n, t), INODE_LEN as nat))
                },
            }
        }
    }

    /// The read that follows the inode record bytes `b`: the directory's block.
    pub open spec fn spec_dir_after_inode(&self, b: Seq<u8>) -> Result<(nat, nat), FsError> {
        if b.len() < INODE_LEN {
            Err(FsError::Io)
        } else {
            match self.spec_dir_block(le32(b, 32), b.subrange(40, 100)) {
                Err(e) => Err(e),
                Ok(blk) => if self.spec_block_offset(blk) > u64::MAX {
                    Err(FsError::OutOfRange)
                } else {
                    Ok((self.spec_block_offset(blk), self.block_size as nat))
                },
            }
        }
    }

    /// Starts listing the directory with inode number `inode_num`.
    pub fn read_dir(&self, inode_num: u32) -> (r: DirStep)
        requires
            self.wf(),
        ensures
            step_follows(
                r,
                DirStage::Descriptor { inode_num },
                self.spec_dir_start(inode_num as nat),
            ),
    {
        let (group, _index) = match self.inode_location(inode_num) {
            Ok(loc) => loc,
            Err(e) => return DirStep::Failed(e),
        };
        match self.desc_offset(group) {
            Ok(offset) => DirStep::Read {
                stage: DirStage::Descriptor { inode_num },
                offset,
                len: self.desc_size(),
            },
            Err(e) => DirStep::Failed(e),
        }
    }

    /// Goes on listing a directory with the bytes read for `stage`.
    pub fn read_dir_resume(&self, stage: DirStage, bytes: &[u8]) -> (r: DirStep)
        requires
            self.wf(),
        ensures
            match stage {
                DirStage::Descriptor { inode_num } => step_follows(
                    r,
                    DirStage::InodeRecord,
                    self.spec_dir_after_descriptor(inode_num as nat, bytes@),
                ),
                DirStage::InodeRecord => step_follows(
                    r,
                    DirStage::DataBlock,
                    self.spec_dir_after_inode(bytes@),
                ),
                DirStage::DataBlock => if bytes@.len() < self.block_size {
                    r matches DirStep::Failed(e) && e == FsError::Io
                } else {
                    match spec_entry_offsets(bytes@, 0) {
                        Ok(offs) => r matches DirStep::Done(v) && entries_at(v@, bytes@, offs),
                        Err(e) => r matches DirStep::Failed(f) && f == e,
                    }
                },
            },
    {
        match stage {
            DirStage::Descriptor { inode_num } => {
                if (bytes.len() as u64) < self.desc_size() {
                    return DirStep::Failed(FsError::Io);
                }
                let t = match self.get_itable_blk_num(bytes) {
                    Ok(t) => t,
                    Err(e) => return DirStep::Failed(e),
                };
                match self.inode_offset(inode_num, t) {
                    Ok(offset) => DirStep::Read {
                        stage: DirStage::InodeRecord,
                        offset,
                        len: INODE_LEN as u64,
                    },
                    Err(e) => DirStep::Failed(e),
                }
            },
            DirStage::InodeRecord => {
                let inode = match Inode::from_bytes(bytes, 0) {
                    Ok(i) => i,
                    Err(_) => return DirStep::Failed(FsError::Io),
                };
                let blk = match self.dir_block_of(&inode) {
                    Ok(b) => b,
                    Err(e) => return DirStep::Failed(e),
                };
                match self.block_offset(blk) {
                    Ok(offset) => DirStep::Read {
                        stage: DirStage::DataBlock,
                        offset,
                        len: self.block_size as u64,
                    },
                    Err(e) => DirStep::Failed(e),
                }
            },
            DirStage::DataBlock => {
                if (bytes.len() as u64) < self.block_size as u64 {
                    return DirStep::Failed(FsError::Io);
                }
                match parse_dir_block(bytes) {
                    Ok(v) => DirStep::Done(v),
                    Err(e) => DirStep::Failed(e),
                }
            },
        }
    }
}

/// Listing an inode number that is 0 or above the superblock's inode count
/// fails with `OutOfRange` before any read.
pub proof fn lemma_out_of_range_inode(d: Disk, n: nat)
    requires
        d.wf(),
        n == 0 || n > d.super_block.s_inodes_count,
    ensures
        d.spec_dir_start(n) == Err::<(nat, nat), FsError>(FsError::OutOfRange),
{
}

/// When the inode record read for a listing holds a valid extent root that
/// is not a leaf (and the directory is neither hash-indexed nor inline),
/// the listing fails with an unsupported internal node: `read_dir_resume`
/// then asks for no further read.
pub proof fn lemma_internal_node_ends_listing(d: Disk, b: Seq<u8>)
    requires
        b.len() >= INODE_LEN,
        le32(b, 32) & EXT4_INDEX_FL == 0,
        le32(b, 32) & EXT4_INLINE_DATA_FL == 0,
        le16(b, 40) == EXTENT_MAGIC,
        le16(b, 46) != 0,
    ensures
        d.spec_dir_after_inode(b) == Err::<(nat, nat), FsError>(
            FsError::UnsupportedFeature(Feature::InternalExtentNode),
        ),
{
    let area = b.subrange(40, 100);
    assert(area.subrange(0, 2) =~= b.subrange(40, 42));
    assert(area.subrange(6, 8) =~= b.subrange(46, 48));
    lemma_internal_node_unsupported(area);
}

} // verus!
