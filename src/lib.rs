//! A read-only decoder for the on-disk layout of ext4 file systems.
//!
//! The library turns raw bytes into superblocks, group descriptors, inodes,
//! extent trees and directory entries, and computes where on the device each
//! of them lives. It never touches the device itself: the caller reads the
//! bytes that the library asks for and hands them back (see `Disk::read_dir`).
mod codec;
mod directories;
mod disk;
mod error;
mod extents;
mod group_desc;
mod inode;
mod layout;
mod listing;
mod round_trip;
mod superblock;

pub use codec::{
    bytes16, bytes32, bytes64, le16, le32, le64, le_words, lemma_int_round_trips, lemma_join,
    lemma_words_bytes_len, lemma_words_decode, lemma_words_round_trip, words_bytes,
};
pub use directories::{
    entries_at, lemma_dir_entry2_decode_encoding, lemma_bytes_after_end_marker_ignored, rec_len_ok,
    scan_reaches, lemma_dir_entry2_round_trip, lemma_dir_entry_decode_encoding,
    lemma_dir_entry_hash_decode_encoding, lemma_dir_entry_hash_round_trip,
    lemma_dir_entry_round_trip, lemma_dx_entry_decode_encoding, lemma_dx_entry_round_trip,
    lemma_dx_root_decode_encoding, lemma_dx_root_round_trip, parse_dir_block, prepend_offsets,
    spec_entry_offsets, spec_file_type, DirEntry, DirEntry2, DirEntryHash, DxEntry, DxRoot,
    Ext4DirEntry, Ext4DirEntry2, Ext4DirEntryHash, FileType, DIR_ENTRY_HASH_LEN,
    DIR_ENTRY_HEADER_LEN, DX_ENTRY_LEN, DX_ROOT_LEN, FT_BLKDEV, FT_CHRDEV, FT_DIR, FT_DIR_CSUM,
    FT_FIFO, FT_MAX, FT_REG_FILE, FT_SOCK, FT_SYMLINK, FT_UNKNOWN,
};
pub use disk::{
    superblock_usable, Disk, MAX_LOG_BLOCK_SIZE, MAX_LOG_GROUPS_PER_FLEX,
};
pub use error::{
    Feature, FsError,
};
pub use extents::{
    lemma_extent_decode_encoding, lemma_extent_header_decode_encoding,
    lemma_extent_header_round_trip, lemma_extent_idx_decode_encoding, lemma_extent_idx_round_trip,
    lemma_extent_round_trip, lemma_extent_tail_decode_encoding, lemma_extent_tail_round_trip,
    lemma_internal_node_unsupported, spec_extent_root, walk_extent_root, Extent, ExtentHeader,
    ExtentIdx, ExtentTail, EXTENT_HEADER_LEN, EXTENT_IDX_LEN, EXTENT_INIT_MAX_LEN, EXTENT_LEN,
    EXTENT_MAGIC, EXTENT_TAIL_LEN,
};
pub use group_desc::{
    lemma_group_desc_decode_encoding, lemma_group_desc_round_trip, Ext4GroupDesc, GroupDesc,
    BG_BLOCK_UNINIT, BG_INODE_UNINIT, BG_INODE_ZEROED, GROUP_DESC_LEN, GROUP_DESC_SHORT_LEN,
};
pub use inode::{
    lemma_inode_decode_encoding, lemma_inode_internal_node, lemma_inode_round_trip, Inode,
    EXT4_APPEND_FL, EXT4_CASEFOLD_FL, EXT4_COMPRBLK_FL, EXT4_COMPR_FL, EXT4_DAX_FL,
    EXT4_DIRSYNC_FL, EXT4_DIRTY_FL, EXT4_EA_INODE_FL, EXT4_ENCRYPT_FL, EXT4_EXTENTS_FL,
    EXT4_HUGE_FILE_FL, EXT4_IMAGIC_FL, EXT4_IMMUTABLE_FL, EXT4_INDEX_FL, EXT4_INLINE_DATA_FL,
    EXT4_JOURNAL_DATA_FL, EXT4_NOATIME_FL, EXT4_NOCOMPR_FL, EXT4_NODUMP_FL, EXT4_NOTAIL_FL,
    EXT4_PROJINHERIT_FL, EXT4_RESERVED_FL, EXT4_SECRM_FL, EXT4_SYNC_FL, EXT4_TOPDIR_FL,
    EXT4_UNRM_FL, EXT4_VERITY_FL, INODE_LEN, S_IFBLK, S_IFCHR, S_IFDIR, S_IFIFO, S_IFLNK, S_IFMT,
    S_IFREG, S_IFSOCK, S_IRGRP, S_IROTH, S_IRUSR, S_ISGID, S_ISUID, S_ISVTX, S_IWGRP, S_IWOTH,
    S_IWUSR, S_IXGRP, S_IXOTH, S_IXUSR,
};
pub use layout::{
    group_has_backup, is_power_of, lemma_even_group_has_no_backup, lemma_group_zero_has_backup,
    lemma_odd_group_backup, lemma_power_of_iff_pow, spec_group_has_backup,
};
pub use listing::{
    lemma_internal_node_ends_listing, lemma_out_of_range_inode, step_follows, DirStage, DirStep,
};
pub use round_trip::lemma_records_round_trip;
pub use superblock::{
    COMPAT_DIR_INDEX, COMPAT_DIR_PREALLOC, COMPAT_EXT_ATTR, COMPAT_FAST_COMMIT, COMPAT_HAS_JOURNAL,
    COMPAT_IMAGIC_INODES, COMPAT_ORPHAN_FILE, COMPAT_RESIZE_INODE, COMPAT_SPARSE_SUPER2,
    COMPAT_STABLE_INODES, DEFM_ACL, DEFM_BLOCK_VALIDITY, DEFM_BSDGROUPS, DEFM_DEBUG, DEFM_DISCARD,
    DEFM_JMODE, DEFM_JMODE_DATA, DEFM_JMODE_ORDERED, DEFM_JMODE_WBACK, DEFM_NOBARRIER,
    DEFM_NODELALLOC, DEFM_UID16, DEFM_XATTR_USER, DX_HASH_HALF_MD4, DX_HASH_HALF_MD4_UNSIGNED,
    DX_HASH_LEGACY, DX_HASH_LEGACY_UNSIGNED, DX_HASH_SIPHASH, DX_HASH_TEA, DX_HASH_TEA_UNSIGNED,
    EXT4_SUPER_MAGIC, Ext4SuperBlock, INCOMPAT_64BIT, INCOMPAT_CASEFOLD, INCOMPAT_COMPRESSION,
    INCOMPAT_CSUM_SEED, INCOMPAT_DIRDATA, INCOMPAT_EA_INODE, INCOMPAT_ENCRYPT, INCOMPAT_EXTENTS,
    INCOMPAT_FILETYPE, INCOMPAT_FLEX_BG, INCOMPAT_INLINE_DATA, INCOMPAT_JOURNAL_DEV,
    INCOMPAT_LARGEDIR, INCOMPAT_META_BG, INCOMPAT_MMP, INCOMPAT_RECOVER, OS_FREEBSD, OS_HURD,
    OS_LINUX, OS_LITES, OS_MASIX, RO_COMPAT_BIGALLOC, RO_COMPAT_BTREE_DIR, RO_COMPAT_DIR_NLINK,
    RO_COMPAT_EXTRA_ISIZE, RO_COMPAT_GDT_CSUM, RO_COMPAT_HUGE_FILE, RO_COMPAT_LARGE_FILE,
    RO_COMPAT_METADATA_CSUM, RO_COMPAT_ORPHAN_PRESENT, RO_COMPAT_PROJECT, RO_COMPAT_QUOTA,
    RO_COMPAT_READONLY, RO_COMPAT_SPARSE_SUPER, RO_COMPAT_VERITY, SUPERBLOCK_LEN,
    SUPERBLOCK_OFFSET, lemma_superblock_decode_encoding, lemma_superblock_round_trip,
};
