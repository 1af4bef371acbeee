use vstd::prelude::*;

use crate::codec::{
    bytes16, bytes32, bytes64, le16, le32, le64, le_words, lemma_int_round_trips, lemma_join,
    lemma_words_bytes_len, lemma_words_decode, lemma_words_round_trip, push_bytes, push_u16, push_u32, push_u64, push_u8, push_words,
    read_bytes, read_u16, read_u32, read_u64, read_u8, read_words, words_bytes,
};
use crate::error::FsError;

verus! {

/// Byte offset of the primary superblock from the start of the partition.
pub const SUPERBLOCK_OFFSET: u64 = 1024;

/// Magic signature of an ext2/3/4 superblock.
pub const EXT4_SUPER_MAGIC: u16 = 0xEF53;

/// Creator OS: Linux.
pub const OS_LINUX: u32 = 0;
/// Creator OS: Hurd.
pub const OS_HURD: u32 = 1;
/// Creator OS: Masix.
pub const OS_MASIX: u32 = 2;
/// Creator OS: FreeBSD.
pub const OS_FREEBSD: u32 = 3;
/// Creator OS: Lites.
pub const OS_LITES: u32 = 4;

/// Compatible feature: directory preallocation.
pub const COMPAT_DIR_PREALLOC: u32 = 0x0001;
/// Compatible feature: imagic inodes.
pub const COMPAT_IMAGIC_INODES: u32 = 0x0002;
/// Compatible feature: has a journal.
pub const COMPAT_HAS_JOURNAL: u32 = 0x0004;
/// Compatible feature: extended attributes.
pub const COMPAT_EXT_ATTR: u32 = 0x0008;
/// Compatible feature: reserved descriptor blocks for growth.
pub const COMPAT_RESIZE_INODE: u32 = 0x0010;
/// Compatible feature: hashed-tree directory indexes.
pub const COMPAT_DIR_INDEX: u32 = 0x0020;
/// Compatible feature: backup groups are listed in the superblock.
pub const COMPAT_SPARSE_SUPER2: u32 = 0x0200;
/// Compatible feature: fast commits.
pub const COMPAT_FAST_COMMIT: u32 = 0x0400;
/// Compatible feature: inode numbers never change.
pub const COMPAT_STABLE_INODES: u32 = 0x0800;
/// Compatible feature: orphan file.
pub const COMPAT_ORPHAN_FILE: u32 = 0x1000;

/// Incompatible feature: compression.
pub const INCOMPAT_COMPRESSION: u32 = 0x0001;
/// Incompatible feature: directory entries record the file type.
pub const INCOMPAT_FILETYPE: u32 = 0x0002;
/// Incompatible feature: needs recovery.
pub const INCOMPAT_RECOVER: u32 = 0x0004;
/// Incompatible feature: journal device.
pub const INCOMPAT_JOURNAL_DEV: u32 = 0x0008;
/// Incompatible feature: meta block groups.
pub const INCOMPAT_META_BG: u32 = 0x0010;
/// Incompatible feature: files use extents.
pub const INCOMPAT_EXTENTS: u32 = 0x0040;
/// Incompatible feature: 64-bit block numbers and descriptors.
pub const INCOMPAT_64BIT: u32 = 0x0080;
/// Incompatible feature: multi-mount protection.
pub const INCOMPAT_MMP: u32 = 0x0100;
/// Incompatible feature: flexible block groups.
pub const INCOMPAT_FLEX_BG: u32 = 0x0200;
/// Incompatible feature: extended attributes in inodes.
pub const INCOMPAT_EA_INODE: u32 = 0x0400;
/// Incompatible feature: data in directory entries.
pub const INCOMPAT_DIRDATA: u32 = 0x1000;
/// Incompatible feature: checksum seed in the superblock.
pub const INCOMPAT_CSUM_SEED: u32 = 0x2000;
/// Incompatible feature: large directories.
pub const INCOMPAT_LARGEDIR: u32 = 0x4000;
/// Incompatible feature: inline data.
pub const INCOMPAT_INLINE_DATA: u32 = 0x8000;
/// Incompatible feature: encryption.
pub const INCOMPAT_ENCRYPT: u32 = 0x10000;
/// Incompatible feature: casefolding.
pub const INCOMPAT_CASEFOLD: u32 = 0x20000;

/// Read-only compatible feature: only some groups hold backups.
pub const RO_COMPAT_SPARSE_SUPER: u32 = 0x0001;
/// Read-only compatible feature: files larger than 2 GiB.
pub const RO_COMPAT_LARGE_FILE: u32 = 0x0002;
/// Read-only compatible feature: B-tree directories.
pub const RO_COMPAT_BTREE_DIR: u32 = 0x0004;
/// Read-only compatible feature: huge files.
pub const RO_COMPAT_HUGE_FILE: u32 = 0x0008;
/// Read-only compatible feature: group descriptor checksums.
pub const RO_COMPAT_GDT_CSUM: u32 = 0x0010;
/// Read-only compatible feature: no 32000 subdirectory limit.
pub const RO_COMPAT_DIR_NLINK: u32 = 0x0020;
/// Read-only compatible feature: large inodes.
pub const RO_COMPAT_EXTRA_ISIZE: u32 = 0x0040;
/// Read-only compatible feature: quotas.
pub const RO_COMPAT_QUOTA: u32 = 0x0100;
/// Read-only compatible feature: clustered allocation.
pub const RO_COMPAT_BIGALLOC: u32 = 0x0200;
/// Read-only compatible feature: metadata checksums.
pub const RO_COMPAT_METADATA_CSUM: u32 = 0x0400;
/// Read-only compatible feature: read-only file system.
pub const RO_COMPAT_READONLY: u32 = 0x1000;
/// Read-only compatible feature: project quotas.
pub const RO_COMPAT_PROJECT: u32 = 0x2000;
/// Read-only compatible feature: verity inodes.
pub const RO_COMPAT_VERITY: u32 = 0x8000;
/// Read-only compatible feature: orphan file holds entries.
pub const RO_COMPAT_ORPHAN_PRESENT: u32 = 0x10000;

/// Directory hash: legacy.
pub const DX_HASH_LEGACY: u8 = 0;
/// Directory hash: half MD4.
pub const DX_HASH_HALF_MD4: u8 = 1;
/// Directory hash: TEA.
pub const DX_HASH_TEA: u8 = 2;
/// Directory hash: legacy, unsigned.
pub const DX_HASH_LEGACY_UNSIGNED: u8 = 3;
/// Directory hash: half MD4, unsigned.
pub const DX_HASH_HALF_MD4_UNSIGNED: u8 = 4;
/// Directory hash: TEA, unsigned.
pub const DX_HASH_TEA_UNSIGNED: u8 = 5;
/// Directory hash: SipHash.
pub const DX_HASH_SIPHASH: u8 = 6;

/// Default mount option: debug.
pub const DEFM_DEBUG: u32 = 0x0001;
/// Default mount option: BSD group semantics.
pub const DEFM_BSDGROUPS: u32 = 0x0002;
/// Default mount option: user extended attributes.
pub const DEFM_XATTR_USER: u32 = 0x0004;
/// Default mount option: POSIX ACLs.
pub const DEFM_ACL: u32 = 0x0008;
/// Default mount option: 16-bit user ids.
pub const DEFM_UID16: u32 = 0x0010;
/// Default mount option: the journal mode bits.
pub const DEFM_JMODE: u32 = 0x0060;
/// Default mount option: journal data.
pub const DEFM_JMODE_DATA: u32 = 0x0020;
/// Default mount option: ordered journal.
pub const DEFM_JMODE_ORDERED: u32 = 0x0040;
/// Default mount option: writeback journal.
pub const DEFM_JMODE_WBACK: u32 = 0x0060;
/// Default mount option: no write barriers.
pub const DEFM_NOBARRIER: u32 = 0x0100;
/// Default mount option: track metadata blocks.
pub const DEFM_BLOCK_VALIDITY: u32 = 0x0200;
/// Default mount option: discard.
pub const DEFM_DISCARD: u32 = 0x0400;
/// Default mount option: no delayed allocation.
pub const DEFM_NODELALLOC: u32 = 0x0800;

/// Size in bytes of an on-disk superblock.
pub const SUPERBLOCK_LEN: usize = 1024;

/// The file system's superblock: its size, layout and features.
#[derive(Clone, Debug)]
pub struct Ext4SuperBlock {
    /// Total inode count.
    pub s_inodes_count: u32,
    /// Lower 32 bits of the total block count.
    pub s_blocks_count_lo: u32,
    /// Lower 32 bits of the count of blocks that only the super-user may allocate.
    pub s_r_blocks_count_lo: u32,
    /// Lower 32 bits of the free block count.
    pub s_free_blocks_count_lo: u32,
    /// Free inode count.
    pub s_free_inodes_count: u32,
    /// First data block: at least 1 for 1 KiB blocks, usually 0 otherwise.
    pub s_first_data_block: u32,
    /// Block size is 2 ^ (10 + s_log_block_size).
    pub s_log_block_size: u32,
    /// Cluster size is 2 ^ (10 + s_log_cluster_size) blocks with bigalloc.
    pub s_log_cluster_size: u32,
    /// Blocks per group.
    pub s_blocks_per_group: u32,
    /// Clusters per group, with bigalloc.
    pub s_clusters_per_group: u32,
    /// Inodes per group.
    pub s_inodes_per_group: u32,
    /// Mount time, in seconds since the epoch.
    pub s_mtime: u32,
    /// Write time, in seconds since the epoch.
    pub s_wtime: u32,
    /// Number of mounts since the last check.
    pub s_mnt_count: u16,
    /// Number of mounts beyond which a check is needed.
    pub s_max_mnt_count: u16,
    /// Magic signature, 0xEF53.
    pub s_magic: u16,
    /// File system state: 0x1 cleanly unmounted, 0x2 errors detected, 0x4 orphans being recovered.
    pub s_state: u16,
    /// Behaviour on errors: 1 continue, 2 remount read-only, 3 panic.
    pub s_errors: u16,
    /// Minor revision level.
    pub s_minor_rev_level: u16,
    /// Time of the last check, in seconds since the epoch.
    pub s_lastcheck: u32,
    /// Maximum time between checks, in seconds.
    pub s_checkinterval: u32,
    /// Creator OS (`OS_*`).
    pub s_creator_os: u32,
    /// Revision level: 0 original format, 1 dynamic inode sizes.
    pub s_rev_level: u32,
    /// Default user id for reserved blocks.
    pub s_def_resuid: u16,
    /// Default group id for reserved blocks.
    pub s_def_resgid: u16,
    /// First non-reserved inode.
    pub s_first_ino: u32,
    /// Size of an inode record, in bytes.
    pub s_inode_size: u16,
    /// Block group number of this superblock.
    pub s_block_group_nr: u16,
    /// Compatible feature set (`COMPAT_*`).
    pub s_feature_compat: u32,
    /// Incompatible feature set (`INCOMPAT_*`).
    pub s_feature_incompat: u32,
    /// Read-only compatible feature set (`RO_COMPAT_*`).
    pub s_feature_ro_compat: u32,
    /// 128-bit volume UUID.
    pub s_uuid: Vec<u8>,
    /// Volume label.
    pub s_volume_name: Vec<u8>,
    /// Directory where the file system was last mounted.
    pub s_last_mounted: Vec<u8>,
    /// For compression (unused).
    pub s_algorithm_usage_bitmap: u32,
    /// Number of blocks to preallocate for files (unused).
    pub s_prealloc_blocks: u8,
    /// Number of blocks to preallocate for directories (unused).
    pub s_prealloc_dir_blocks: u8,
    /// Number of reserved group descriptor table blocks for growth.
    pub s_reserved_gdt_blocks: u16,
    /// UUID of the journal superblock.
    pub s_journal_uuid: Vec<u8>,
    /// Inode number of the journal file.
    pub s_journal_inum: u32,
    /// Device number of the journal file, with an external journal.
    pub s_journal_dev: u32,
    /// Start of the list of orphaned inodes to delete.
    pub s_last_orphan: u32,
    /// Hashed-tree hash seed.
    pub s_hash_seed: Vec<u32>,
    /// Default hash algorithm for directory hashes (`DX_HASH_*`).
    pub s_def_hash_version: u8,
    /// Whether `s_jnl_blocks` backs up the journal inode's block map.
    pub s_jnl_backup_type: u8,
    /// Size of a group descriptor, with the 64bit feature.
    pub s_desc_size: u16,
    /// Default mount options (`DEFM_*`).
    pub s_default_mount_opts: u32,
    /// First metablock block group, with meta_bg.
    pub s_first_meta_bg: u32,
    /// Creation time, in seconds since the epoch.
    pub s_mkfs_time: u32,
    /// Backup of the journal inode's block map, size high and size.
    pub s_jnl_blocks: Vec<u32>,
    /// Upper 32 bits of the total block count.
    pub s_blocks_count_hi: u32,
    /// Upper 32 bits of the reserved block count.
    pub s_r_blocks_count_hi: u32,
    /// Upper 32 bits of the free block count.
    pub s_free_blocks_count_hi: u32,
    /// All inodes have at least this many extra bytes.
    pub s_min_extra_isize: u16,
    /// New inodes should reserve this many extra bytes.
    pub s_want_extra_isize: u16,
    /// Miscellaneous flags.
    pub s_flags: u32,
    /// RAID stride.
    pub s_raid_stride: u16,
    /// Seconds to wait in multi-mount prevention checking.
    pub s_mmp_update_interval: u16,
    /// Block of the multi-mount protection data.
    pub s_mmp_block: u64,
    /// RAID stripe width.
    pub s_raid_stripe_width: u32,
    /// A flexible block group holds 2 ^ s_log_groups_per_flex groups.
    pub s_log_groups_per_flex: u8,
    /// Metadata checksum algorithm (1 is crc32c).
    pub s_checksum_type: u8,
    /// Versioning level for encryption.
    pub s_encryption_level: u8,
    /// Padding.
    pub s_reserved_pad: u8,
    /// KiB written over the file system's lifetime.
    pub s_kbytes_written: u64,
    /// Inode number of the active snapshot.
    pub s_snapshot_inum: u32,
    /// Sequential id of the active snapshot.
    pub s_snapshot_id: u32,
    /// Blocks reserved for the active snapshot.
    pub s_snapshot_r_blocks_count: u64,
    /// Inode number of the head of the snapshot list.
    pub s_snapshot_list: u32,
    /// Number of errors seen.
    pub s_error_count: u32,
    /// Time of the first error, in seconds since the epoch.
    pub s_first_error_time: u32,
    /// Inode involved in the first error.
    pub s_first_error_ino: u32,
    /// Block involved in the first error.
    pub s_first_error_block: u64,
    /// Name of the function where the first error happened.
    pub s_first_error_func: Vec<u8>,
    /// Line number where the first error happened.
    pub s_first_error_line: u32,
    /// Time of the most recent error, in seconds since the epoch.
    pub s_last_error_time: u32,
    /// Inode involved in the most recent error.
    pub s_last_error_ino: u32,
    /// Line number where the most recent error happened.
    pub s_last_error_line: u32,
    /// Block involved in the most recent error.
    pub s_last_error_block: u64,
    /// Name of the function where the most recent error happened.
    pub s_last_error_func: Vec<u8>,
    /// Mount options, as a NUL-terminated string.
    pub s_mount_opts: Vec<u8>,
    /// Inode number of the user quota file.
    pub s_usr_quota_inum: u32,
    /// Inode number of the group quota file.
    pub s_grp_quota_inum: u32,
    /// Overhead clusters in the file system.
    pub s_overhead_clusters: u32,
    /// Block groups that hold superblock backups, with sparse_super2.
    pub s_backup_bgs: Vec<u32>,
    /// Encryption algorithms in use.
    pub s_encrypt_algos: Vec<u8>,
    /// Salt for the string2key algorithm.
    pub s_encrypt_pw_salt: Vec<u8>,
    /// Inode number of lost+found.
    pub s_lpf_ino: u32,
    /// Inode that tracks project quotas.
    pub s_prj_quota_inum: u32,
    /// Checksum seed for metadata_csum.
    pub s_checksum_seed: u32,
    /// Upper 8 bits of `s_wtime`.
    pub s_wtime_hi: u8,
    /// Upper 8 bits of `s_mtime`.
    pub s_mtime_hi: u8,
    /// Upper 8 bits of `s_mkfs_time`.
    pub s_mkfs_time_hi: u8,
    /// Upper 8 bits of `s_lastcheck`.
    pub s_lastcheck_hi: u8,
    /// Upper 8 bits of `s_first_error_time`.
    pub s_first_error_time_hi: u8,
    /// Upper 8 bits of `s_last_error_time`.
    pub s_last_error_time_hi: u8,
    /// Error code of the first error.
    pub s_first_error_errcode: u8,
    /// Error code of the most recent error.
    pub s_last_error_errcode: u8,
    /// File name charset encoding.
    pub s_encoding: u16,
    /// File name charset encoding flags.
    pub s_encoding_flags: u16,
    /// Orphan file inode number.
    pub s_orphan_file_inum: u32,
    /// Padding to the end of the block.
    pub s_reserved: Vec<u32>,
    /// Superblock checksum.
    pub s_checksum: u32,
}

impl Ext4SuperBlock {
    /// Whether every field holds what `b[off..off + SUPERBLOCK_LEN]` encodes.
    pub open spec fn decodes(&self, b: Seq<u8>, off: int) -> bool {
        &&& self.s_inodes_count == le32(b, off)
        &&& self.s_blocks_count_lo == le32(b, off + 4)
        &&& self.s_r_blocks_count_lo == le32(b, off + 8)
        &&& self.s_free_blocks_count_lo == le32(b, off + 12)
        &&& self.s_free_inodes_count == le32(b, off + 16)
        &&& self.s_first_data_block == le32(b, off + 20)
        &&& self.s_log_block_size == le32(b, off + 24)
        &&& self.s_log_cluster_size == le32(b, off + 28)
        &&& self.s_blocks_per_group == le32(b, off + 32)
        &&& self.s_clusters_per_group == le32(b, off + 36)
        &&& self.s_inodes_per_group == le32(b, off + 40)
        &&& self.s_mtime == le32(b, off + 44)
        &&& self.s_wtime == le32(b, off + 48)
        &&& self.s_mnt_count == le16(b, off + 52)
        &&& self.s_max_mnt_count == le16(b, off + 54)
        &&& self.s_magic == le16(b, off + 56)
        &&& self.s_state == le16(b, off + 58)
        &&& self.s_errors == le16(b, off + 60)
        &&& self.s_minor_rev_level == le16(b, off + 62)
        &&& self.s_lastcheck == le32(b, off + 64)
        &&& self.s_checkinterval == le32(b, off + 68)
        &&& self.s_creator_os == le32(b, off + 72)
        &&& self.s_rev_level == le32(b, off + 76)
        &&& self.s_def_resuid == le16(b, off + 80)
        &&& self.s_def_resgid == le16(b, off + 82)
        &&& self.s_first_ino == le32(b, off + 84)
        &&& self.s_inode_size == le16(b, off + 88)
        &&& self.s_block_group_nr == le16(b, off + 90)
        &&& self.s_feature_compat == le32(b, off + 92)
        &&& self.s_feature_incompat == le32(b, off + 96)
        &&& self.s_feature_ro_compat == le32(b, off + 100)
        &&& self.s_uuid@ == b.subrange(off + 104, off + 120)
        &&& self.s_volume_name@ == b.subrange(off + 120, off + 136)
        &&& self.s_last_mounted@ == b.subrange(off + 136, off + 200)
        &&& self.s_algorithm_usage_bitmap == le32(b, off + 200)
        &&& self.s_prealloc_blocks == b[off + 204]
        &&& self.s_prealloc_dir_blocks == b[off + 205]
        &&& self.s_reserved_gdt_blocks == le16(b, off + 206)
        &&& self.s_journal_uuid@ == b.subrange(off + 208, off + 224)
        &&& self.s_journal_inum == le32(b, off + 224)
        &&& self.s_journal_dev == le32(b, off + 228)
        &&& self.s_last_orphan == le32(b, off + 232)
        &&& self.s_hash_seed@ == le_words(b, off + 236, 4)
        &&& self.s_def_hash_version == b[off + 252]
        &&& self.s_jnl_backup_type == b[off + 253]
        &&& self.s_desc_size == le16(b, off + 254)
        &&& self.s_default_mount_opts == le32(b, off + 256)
        &&& self.s_first_meta_bg == le32(b, off + 260)
        &&& self.s_mkfs_time == le32(b, off + 264)
        &&& self.s_jnl_blocks@ == le_words(b, off + 268, 17)
        &&& self.s_blocks_count_hi == le32(b, off + 336)
        &&& self.s_r_blocks_count_hi == le32(b, off + 340)
        &&& self.s_free_blocks_count_hi == le32(b, off + 344)
        &&& self.s_min_extra_isize == le16(b, off + 348)
        &&& self.s_want_extra_isize == le16(b, off + 350)
        &&& self.s_flags == le32(b, off + 352)
        &&& self.s_raid_stride == le16(b, off + 356)
        &&& self.s_mmp_update_interval == le16(b, off + 358)
        &&& self.s_mmp_block == le64(b, off + 360)
        &&& self.s_raid_stripe_width == le32(b, off + 368)
        &&& self.s_log_groups_per_flex == b[off + 372]
        &&& self.s_checksum_type == b[off + 373]
        &&& self.s_encryption_level == b[off + 374]
        &&& self.s_reserved_pad == b[off + 375]
        &&& self.s_kbytes_written == le64(b, off + 376)
        &&& self.s_snapshot_inum == le32(b, off + 384)
        &&& self.s_snapshot_id == le32(b, off + 388)
        &&& self.s_snapshot_r_blocks_count == le64(b, off + 392)
        &&& self.s_snapshot_list == le32(b, off + 400)
        &&& self.s_error_count == le32(b, off + 404)
        &&& self.s_first_error_time == le32(b, off + 408)
        &&& self.s_first_error_ino == le32(b, off + 412)
        &&& self.s_first_error_block == le64(b, off + 416)
        &&& self.s_first_error_func@ == b.subrange(off + 424, off + 456)
        &&& self.s_first_error_line == le32(b, off + 456)
        &&& self.s_last_error_time == le32(b, off + 460)
        &&& self.s_last_error_ino == le32(b, off + 464)
        &&& self.s_last_error_line == le32(b, off + 468)
        &&& self.s_last_error_block == le64(b, off + 472)
        &&& self.s_last_error_func@ == b.subrange(off + 480, off + 512)
        &&& self.s_mount_opts@ == b.subrange(off + 512, off + 576)
        &&& self.s_usr_quota_inum == le32(b, off + 576)
        &&& self.s_grp_quota_inum == le32(b, off + 580)
        &&& self.s_overhead_clusters == le32(b, off + 584)
        &&& self.s_backup_bgs@ == le_words(b, off + 588, 2)
        &&& self.s_encrypt_algos@ == b.subrange(off + 596, off + 600)
        &&& self.s_encrypt_pw_salt@ == b.subrange(off + 600, off + 616)
        &&& self.s_lpf_ino == le32(b, off + 616)
        &&& self.s_prj_quota_inum == le32(b, off + 620)
        &&& self.s_checksum_seed == le32(b, off + 624)
        &&& self.s_wtime_hi == b[off + 628]
        &&& self.s_mtime_hi == b[off + 629]
        &&& self.s_mkfs_time_hi == b[off + 630]
        &&& self.s_lastcheck_hi == b[off + 631]
        &&& self.s_first_error_time_hi == b[off + 632]
        &&& self.s_last_error_time_hi == b[off + 633]
        &&& self.s_first_error_errcode == b[off + 634]
        &&& self.s_last_error_errcode == b[off + 635]
        &&& self.s_encoding == le16(b, off + 636)
        &&& self.s_encoding_flags == le16(b, off + 638)
        &&& self.s_orphan_file_inum == le32(b, off + 640)
        &&& self.s_reserved@ == le_words(b, off + 644, 94)
        &&& self.s_checksum == le32(b, off + 1020)
    }

    /// The on-disk bytes of this record.
    pub open spec fn encoding(&self) -> Seq<u8> {
        self.encoding_0_48()
            + self.encoding_48_82()
            + self.encoding_82_205()
            + self.encoding_205_264()
            + self.encoding_264_372()
            + self.encoding_372_416()
            + self.encoding_416_588()
            + self.encoding_588_634()
            + self.encoding_634_1024()
    }

    /// Bytes 0 to 48 of the encoding.
    pub open spec fn encoding_0_48(&self) -> Seq<u8> {
        bytes32(self.s_inodes_count)
            + bytes32(self.s_blocks_count_lo)
            + bytes32(self.s_r_blocks_count_lo)
            + bytes32(self.s_free_blocks_count_lo)
            + bytes32(self.s_free_inodes_count)
            + bytes32(self.s_first_data_block)
            + bytes32(self.s_log_block_size)
            + bytes32(self.s_log_cluster_size)
            + bytes32(self.s_blocks_per_group)
            + bytes32(self.s_clusters_per_group)
            + bytes32(self.s_inodes_per_group)
            + bytes32(self.s_mtime)
    }

    /// Bytes 48 to 82 of the encoding.
    pub open spec fn encoding_48_82(&self) -> Seq<u8> {
        bytes32(self.s_wtime)
            + bytes16(self.s_mnt_count)
            + bytes16(self.s_max_mnt_count)
            + bytes16(self.s_magic)
            + bytes16(self.s_state)
            + bytes16(self.s_errors)
            + bytes16(self.s_minor_rev_level)
            + bytes32(self.s_lastcheck)
            + bytes32(self.s_checkinterval)
            + bytes32(self.s_creator_os)
            + bytes32(self.s_rev_level)
            + bytes16(self.s_def_resuid)
    }

    /// Bytes 82 to 205 of the encoding.
    pub open spec fn encoding_82_205(&self) -> Seq<u8> {
        bytes16(self.s_def_resgid)
            + bytes32(self.s_first_ino)
            + bytes16(self.s_inode_size)
            + bytes16(self.s_block_group_nr)
            + bytes32(self.s_feature_compat)
            + bytes32(self.s_feature_incompat)
            + bytes32(self.s_feature_ro_compat)
            + self.s_uuid@
            + self.s_volume_name@
            + self.s_last_mounted@
            + bytes32(self.s_algorithm_usage_bitmap)
            + seq![self.s_prealloc_blocks]
    }

    /// Bytes 205 to 264 of the encoding.
    pub open spec fn encoding_205_264(&self) -> Seq<u8> {
        seq![self.s_prealloc_dir_blocks]
            + bytes16(self.s_reserved_gdt_blocks)
            + self.s_journal_uuid@
            + bytes32(self.s_journal_inum)
            + bytes32(self.s_journal_dev)
            + bytes32(self.s_last_orphan)
            + words_bytes(self.s_hash_seed@)
            + seq![self.s_def_hash_version]
            + seq![self.s_jnl_backup_type]
            + bytes16(self.s_desc_size)
            + bytes32(self.s_default_mount_opts)
            + bytes32(self.s_first_meta_bg)
    }

    /// Bytes 264 to 372 of the encoding.
    pub open spec fn encoding_264_372(&self) -> Seq<u8> {
        bytes32(self.s_mkfs_time)
            + words_bytes(self.s_jnl_blocks@)
            + bytes32(self.s_blocks_count_hi)
            + bytes32(self.s_r_blocks_count_hi)
            + bytes32(self.s_free_blocks_count_hi)
            + bytes16(self.s_min_extra_isize)
            + bytes16(self.s_want_extra_isize)
            + bytes32(self.s_flags)
            + bytes16(self.s_raid_stride)
            + bytes16(self.s_mmp_update_interval)
            + bytes64(self.s_mmp_block)
            + bytes32(self.s_raid_stripe_width)
    }

    /// Bytes 372 to 416 of the encoding.
    pub open spec fn encoding_372_416(&self) -> Seq<u8> {
        seq![self.s_log_groups_per_flex]
            + seq![self.s_checksum_type]
            + seq![self.s_encryption_level]
            + seq![self.s_reserved_pad]
            + bytes64(self.s_kbytes_written)
            + bytes32(self.s_snapshot_inum)
            + bytes32(self.s_snapshot_id)
            + bytes64(self.s_snapshot_r_blocks_count)
            + bytes32(self.s_snapshot_list)
            + bytes32(self.s_error_count)
            + bytes32(self.s_first_error_time)
            + bytes32(self.s_first_error_ino)
    }

    /// Bytes 416 to 588 of the encoding.
    pub open spec fn encoding_416_588(&self) -> Seq<u8> {
        bytes64(self.s_first_error_block)
            + self.s_first_error_func@
            + bytes32(self.s_first_error_line)
            + bytes32(self.s_last_error_time)
            + bytes32(self.s_last_error_ino)
            + bytes32(self.s_last_error_line)
            + bytes64(self.s_last_error_block)
            + self.s_last_error_func@
            + self.s_mount_opts@
            + bytes32(self.s_usr_quota_inum)
            + bytes32(self.s_grp_quota_inum)
            + bytes32(self.s_overhead_clusters)
    }

    /// Bytes 588 to 634 of the encoding.
    pub open spec fn encoding_588_634(&self) -> Seq<u8> {
        words_bytes(self.s_backup_bgs@)
            + self.s_encrypt_algos@
            + self.s_encrypt_pw_salt@
            + bytes32(self.s_lpf_ino)
            + bytes32(self.s_prj_quota_inum)
            + bytes32(self.s_checksum_seed)
            + seq![self.s_wtime_hi]
            + seq![self.s_mtime_hi]
            + seq![self.s_mkfs_time_hi]
            + seq![self.s_lastcheck_hi]
            + seq![self.s_first_error_time_hi]
            + seq![self.s_last_error_time_hi]
    }

    /// Bytes 634 to 1024 of the encoding.
    pub open spec fn encoding_634_1024(&self) -> Seq<u8> {
        seq![self.s_first_error_errcode]
            + seq![self.s_last_error_errcode]
            + bytes16(self.s_encoding)
            + bytes16(self.s_encoding_flags)
            + bytes32(self.s_orphan_file_inum)
            + words_bytes(self.s_reserved@)
            + bytes32(self.s_checksum)
    }

    /// Whether each array field has its fixed length.
    pub open spec fn well_formed(&self) -> bool {
        &&& self.s_uuid@.len() == 16
        &&& self.s_volume_name@.len() == 16
        &&& self.s_last_mounted@.len() == 64
        &&& self.s_journal_uuid@.len() == 16
        &&& self.s_hash_seed@.len() == 4
        &&& self.s_jnl_blocks@.len() == 17
        &&& self.s_first_error_func@.len() == 32
        &&& self.s_last_error_func@.len() == 32
        &&& self.s_mount_opts@.len() == 64
        &&& self.s_backup_bgs@.len() == 2
        &&& self.s_encrypt_algos@.len() == 4
        &&& self.s_encrypt_pw_salt@.len() == 16
        &&& self.s_reserved@.len() == 94
    }

    /// Decodes the record that starts at byte `off` of `buf`.
    pub fn from_bytes(buf: &[u8], off: usize) -> (r: Result<Self, FsError>)
        ensures
            match r {
                Ok(x) => off + SUPERBLOCK_LEN <= buf@.len() && x.decodes(buf@, off as int) && x.well_formed(),
                Err(e) => off + SUPERBLOCK_LEN > buf@.len() && e == FsError::Truncated,
            },
    {
        if off > buf.len() || buf.len() - off < SUPERBLOCK_LEN {
            return Err(FsError::Truncated);
        }
        Ok(Ext4SuperBlock {
            s_inodes_count: read_u32(buf, off),
            s_blocks_count_lo: read_u32(buf, off + 4),
            s_r_blocks_count_lo: read_u32(buf, off + 8),
            s_free_blocks_count_lo: read_u32(buf, off + 12),
            s_free_inodes_count: read_u32(buf, off + 16),
            s_first_data_block: read_u32(buf, off + 20),
            s_log_block_size: read_u32(buf, off + 24),
            s_log_cluster_size: read_u32(buf, off + 28),
            s_blocks_per_group: read_u32(buf, off + 32),
            s_clusters_per_group: read_u32(buf, off + 36),
            s_inodes_per_group: read_u32(buf, off + 40),
            s_mtime: read_u32(buf, off + 44),
            s_wtime: read_u32(buf, off + 48),
            s_mnt_count: read_u16(buf, off + 52),
            s_max_mnt_count: read_u16(buf, off + 54),
            s_magic: read_u16(buf, off + 56),
            s_state: read_u16(buf, off + 58),
            s_errors: read_u16(buf, off + 60),
            s_minor_rev_level: read_u16(buf, off + 62),
            s_lastcheck: read_u32(buf, off + 64),
            s_checkinterval: read_u32(buf, off + 68),
            s_creator_os: read_u32(buf, off + 72),
            s_rev_level: read_u32(buf, off + 76),
            s_def_resuid: read_u16(buf, off + 80),
            s_def_resgid: read_u16(buf, off + 82),
            s_first_ino: read_u32(buf, off + 84),
            s_inode_size: read_u16(buf, off + 88),
            s_block_group_nr: read_u16(buf, off + 90),
            s_feature_compat: read_u32(buf, off + 92),
            s_feature_incompat: read_u32(buf, off + 96),
            s_feature_ro_compat: read_u32(buf, off + 100),
            s_uuid: read_bytes(buf, off + 104, 16),
            s_volume_name: read_bytes(buf, off + 120, 16),
            s_last_mounted: read_bytes(buf, off + 136, 64),
            s_algorithm_usage_bitmap: read_u32(buf, off + 200),
            s_prealloc_blocks: read_u8(buf, off + 204),
            s_prealloc_dir_blocks: read_u8(buf, off + 205),
            s_reserved_gdt_blocks: read_u16(buf, off + 206),
            s_journal_uuid: read_bytes(buf, off + 208, 16),
            s_journal_inum: read_u32(buf, off + 224),
            s_journal_dev: read_u32(buf, off + 228),
            s_last_orphan: read_u32(buf, off + 232),
            s_hash_seed: read_words(buf, off + 236, 4),
            s_def_hash_version: read_u8(buf, off + 252),
            s_jnl_backup_type: read_u8(buf, off + 253),
            s_desc_size: read_u16(buf, off + 254),
            s_default_mount_opts: read_u32(buf, off + 256),
            s_first_meta_bg: read_u32(buf, off + 260),
            s_mkfs_time: read_u32(buf, off + 264),
            s_jnl_blocks: read_words(buf, off + 268, 17),
            s_blocks_count_hi: read_u32(buf, off + 336),
            s_r_blocks_count_hi: read_u32(buf, off + 340),
            s_free_blocks_count_hi: read_u32(buf, off + 344),
            s_min_extra_isize: read_u16(buf, off + 348),
            s_want_extra_isize: read_u16(buf, off + 350),
            s_flags: read_u32(buf, off + 352),
            s_raid_stride: read_u16(buf, off + 356),
            s_mmp_update_interval: read_u16(buf, off + 358),
            s_mmp_block: read_u64(buf, off + 360),
            s_raid_stripe_width: read_u32(buf, off + 368),
            s_log_groups_per_flex: read_u8(buf, off + 372),
            s_checksum_type: read_u8(buf, off + 373),
            s_encryption_level: read_u8(buf, off + 374),
            s_reserved_pad: read_u8(buf, off + 375),
            s_kbytes_written: read_u64(buf, off + 376),
            s_snapshot_inum: read_u32(buf, off + 384),
            s_snapshot_id: read_u32(buf, off + 388),
            s_snapshot_r_blocks_count: read_u64(buf, off + 392),
            s_snapshot_list: read_u32(buf, off + 400),
            s_error_count: read_u32(buf, off + 404),
            s_first_error_time: read_u32(buf, off + 408),
            s_first_error_ino: read_u32(buf, off + 412),
            s_first_error_block: read_u64(buf, off + 416),
            s_first_error_func: read_bytes(buf, off + 424, 32),
            s_first_error_line: read_u32(buf, off + 456),
            s_last_error_time: read_u32(buf, off + 460),
            s_last_error_ino: read_u32(buf, off + 464),
            s_last_error_line: read_u32(buf, off + 468),
            s_last_error_block: read_u64(buf, off + 472),
            s_last_error_func: read_bytes(buf, off + 480, 32),
            s_mount_opts: read_bytes(buf, off + 512, 64),
            s_usr_quota_inum: read_u32(buf, off + 576),
            s_grp_quota_inum: read_u32(buf, off + 580),
            s_overhead_clusters: read_u32(buf, off + 584),
            s_backup_bgs: read_words(buf, off + 588, 2),
            s_encrypt_algos: read_bytes(buf, off + 596, 4),
            s_encrypt_pw_salt: read_bytes(buf, off + 600, 16),
            s_lpf_ino: read_u32(buf, off + 616),
            s_prj_quota_inum: read_u32(buf, off + 620),
            s_checksum_seed: read_u32(buf, off + 624),
            s_wtime_hi: read_u8(buf, off + 628),
            s_mtime_hi: read_u8(buf, off + 629),
            s_mkfs_time_hi: read_u8(buf, off + 630),
            s_lastcheck_hi: read_u8(buf, off + 631),
            s_first_error_time_hi: read_u8(buf, off + 632),
            s_last_error_time_hi: read_u8(buf, off + 633),
            s_first_error_errcode: read_u8(buf, off + 634),
            s_last_error_errcode: read_u8(buf, off + 635),
            s_encoding: read_u16(buf, off + 636),
            s_encoding_flags: read_u16(buf, off + 638),
            s_orphan_file_inum: read_u32(buf, off + 640),
            s_reserved: read_words(buf, off + 644, 94),
            s_checksum: read_u32(buf, off + 1020),
        })
    }

    /// Appends bytes 0 to 48 of the encoding.
    fn push_0_48(&self, v: &mut Vec<u8>)
        ensures
            final(v)@ == old(v)@ + self.encoding_0_48(),
    {
        let ghost start = v@;
        push_u32(v, self.s_inodes_count);
        push_u32(v, self.s_blocks_count_lo);
        push_u32(v, self.s_r_blocks_count_lo);
        push_u32(v, self.s_free_blocks_count_lo);
        push_u32(v, self.s_free_inodes_count);
        push_u32(v, self.s_first_data_block);
        push_u32(v, self.s_log_block_size);
        push_u32(v, self.s_log_cluster_size);
        push_u32(v, self.s_blocks_per_group);
        push_u32(v, self.s_clusters_per_group);
        push_u32(v, self.s_inodes_per_group);
        push_u32(v, self.s_mtime);
        assert(v@ =~= start + self.encoding_0_48());
    }

    /// Appends bytes 48 to 82 of the encoding.
    fn push_48_82(&self, v: &mut Vec<u8>)
        ensures
            final(v)@ == old(v)@ + self.encoding_48_82(),
    {
        let ghost start = v@;
        push_u32(v, self.s_wtime);
        push_u16(v, self.s_mnt_count);
        push_u16(v, self.s_max_mnt_count);
        push_u16(v, self.s_magic);
        push_u16(v, self.s_state);
        push_u16(v, self.s_errors);
        push_u16(v, self.s_minor_rev_level);
        push_u32(v, self.s_lastcheck);
        push_u32(v, self.s_checkinterval);
        push_u32(v, self.s_creator_os);
        push_u32(v, self.s_rev_level);
        push_u16(v, self.s_def_resuid);
        assert(v@ =~= start + self.encoding_48_82());
    }

    /// Appends bytes 82 to 205 of the encoding.
    fn push_82_205(&self, v: &mut Vec<u8>)
        ensures
            final(v)@ == old(v)@ + self.encoding_82_205(),
    {
        let ghost start = v@;
        push_u16(v, self.s_def_resgid);
        push_u32(v, self.s_first_ino);
        push_u16(v, self.s_inode_size);
        push_u16(v, self.s_block_group_nr);
        push_u32(v, self.s_feature_compat);
        push_u32(v, self.s_feature_incompat);
        push_u32(v, self.s_feature_ro_compat);
        push_bytes(v, &self.s_uuid);
        push_bytes(v, &self.s_volume_name);
        push_bytes(v, &self.s_last_mounted);
        push_u32(v, self.s_algorithm_usage_bitmap);
        push_u8(v, self.s_prealloc_blocks);
        assert(v@ =~= start + self.encoding_82_205());
    }

    /// Appends bytes 205 to 264 of the encoding.
    fn push_205_264(&self, v: &mut Vec<u8>)
        ensures
            final(v)@ == old(v)@ + self.encoding_205_264(),
    {
        let ghost start = v@;
        push_u8(v, self.s_prealloc_dir_blocks);
        push_u16(v, self.s_reserved_gdt_blocks);
        push_bytes(v, &self.s_journal_uuid);
        push_u32(v, self.s_journal_inum);
        push_u32(v, self.s_journal_dev);
        push_u32(v, self.s_last_orphan);
        push_words(v, &self.s_hash_seed);
        push_u8(v, self.s_def_hash_version);
        push_u8(v, self.s_jnl_backup_type);
        push_u16(v, self.s_desc_size);
        push_u32(v, self.s_default_mount_opts);
        push_u32(v, self.s_first_meta_bg);
        assert(v@ =~= start + self.encoding_205_264());
    }

    /// Appends bytes 264 to 372 of the encoding.
    fn push_264_372(&self, v: &mut Vec<u8>)
        ensures
            final(v)@ == old(v)@ + self.encoding_264_372(),
    {
        let ghost start = v@;
        push_u32(v, self.s_mkfs_time);
        push_words(v, &self.s_jnl_blocks);
        push_u32(v, self.s_blocks_count_hi);
        push_u32(v, self.s_r_blocks_count_hi);
        push_u32(v, self.s_free_blocks_count_hi);
        push_u16(v, self.s_min_extra_isize);
        push_u16(v, self.s_want_extra_isize);
        push_u32(v, self.s_flags);
        push_u16(v, self.s_raid_stride);
        push_u16(v, self.s_mmp_update_interval);
        push_u64(v, self.s_mmp_block);
        push_u32(v, self.s_raid_stripe_width);
        assert(v@ =~= start + self.encoding_264_372());
    }

    /// Appends bytes 372 to 416 of the encoding.
    fn push_372_416(&self, v: &mut Vec<u8>)
        ensures
            final(v)@ == old(v)@ + self.encoding_372_416(),
    {
        let ghost start = v@;
        push_u8(v, self.s_log_groups_per_flex);
        push_u8(v, self.s_checksum_type);
        push_u8(v, self.s_encryption_level);
        push_u8(v, self.s_reserved_pad);
        push_u64(v, self.s_kbytes_written);
        push_u32(v, self.s_snapshot_inum);
        push_u32(v, self.s_snapshot_id);
        push_u64(v, self.s_snapshot_r_blocks_count);
        push_u32(v, self.s_snapshot_list);
        push_u32(v, self.s_error_count);
        push_u32(v, self.s_first_error_time);
        push_u32(v, self.s_first_error_ino);
        assert(v@ =~= start + self.encoding_372_416());
    }

    /// Appends bytes 416 to 588 of the encoding.
    fn push_416_588(&self, v: &mut Vec<u8>)
        ensures
            final(v)@ == old(v)@ + self.encoding_416_588(),
    {
        let ghost start = v@;
        push_u64(v, self.s_first_error_block);
        push_bytes(v, &self.s_first_error_func);
        push_u32(v, self.s_first_error_line);
        push_u32(v, self.s_last_error_time);
        push_u32(v, self.s_last_error_ino);
        push_u32(v, self.s_last_error_line);
        push_u64(v, self.s_last_error_block);
        push_bytes(v, &self.s_last_error_func);
        push_bytes(v, &self.s_mount_opts);
        push_u32(v, self.s_usr_quota_inum);
        push_u32(v, self.s_grp_quota_inum);
        push_u32(v, self.s_overhead_clusters);
        assert(v@ =~= start + self.encoding_416_588());
    }

    /// Appends bytes 588 to 634 of the encoding.
    fn push_588_634(&self, v: &mut Vec<u8>)
        ensures
            final(v)@ == old(v)@ + self.encoding_588_634(),
    {
        let ghost start = v@;
        push_words(v, &self.s_backup_bgs);
        push_bytes(v, &self.s_encrypt_algos);
        push_bytes(v, &self.s_encrypt_pw_salt);
        push_u32(v, self.s_lpf_ino);
        push_u32(v, self.s_prj_quota_inum);
        push_u32(v, self.s_checksum_seed);
        push_u8(v, self.s_wtime_hi);
        push_u8(v, self.s_mtime_hi);
        push_u8(v, self.s_mkfs_time_hi);
        push_u8(v, self.s_lastcheck_hi);
        push_u8(v, self.s_first_error_time_hi);
        push_u8(v, self.s_last_error_time_hi);
        assert(v@ =~= start + self.encoding_588_634());
    }

    /// Appends bytes 634 to 1024 of the encoding.
    fn push_634_1024(&self, v: &mut Vec<u8>)
        ensures
            final(v)@ == old(v)@ + self.encoding_634_1024(),
    {
        let ghost start = v@;
        push_u8(v, self.s_first_error_errcode);
        push_u8(v, self.s_last_error_errcode);
        push_u16(v, self.s_encoding);
        push_u16(v, self.s_encoding_flags);
        push_u32(v, self.s_orphan_file_inum);
        push_words(v, &self.s_reserved);
        push_u32(v, self.s_checksum);
        assert(v@ =~= start + self.encoding_634_1024());
    }

    /// Encodes the record in its on-disk layout.
    pub fn to_bytes(&self) -> (r: Vec<u8>)
        ensures
            r@ == self.encoding(),
    {
        let mut v: Vec<u8> = Vec::new();
        self.push_0_48(&mut v);
        self.push_48_82(&mut v);
        self.push_82_205(&mut v);
        self.push_205_264(&mut v);
        self.push_264_372(&mut v);
        self.push_372_416(&mut v);
        self.push_416_588(&mut v);
        self.push_588_634(&mut v);
        self.push_634_1024(&mut v);
        assert(v@ =~= self.encoding());
        v
    }
}

/// Decoding one superblock from the first 1024 bytes of a buffer and encoding it
/// again gives back those bytes: every byte of the layout belongs to one field.
pub proof fn lemma_superblock_round_trip(x: Ext4SuperBlock, b: Seq<u8>)
    requires
        b.len() >= SUPERBLOCK_LEN,
        x.decodes(b, 0),
    ensures
        x.encoding() == b.subrange(0, SUPERBLOCK_LEN as int),
{
    lemma_int_round_trips();
    assert(seq![x.s_prealloc_blocks] =~= b.subrange(204, 205));
    assert(seq![x.s_prealloc_dir_blocks] =~= b.subrange(205, 206));
    lemma_words_round_trip(b, 236, 4);
    assert(seq![x.s_def_hash_version] =~= b.subrange(252, 253));
    assert(seq![x.s_jnl_backup_type] =~= b.subrange(253, 254));
    lemma_words_round_trip(b, 268, 17);
    assert(seq![x.s_log_groups_per_flex] =~= b.subrange(372, 373));
    assert(seq![x.s_checksum_type] =~= b.subrange(373, 374));
    assert(seq![x.s_encryption_level] =~= b.subrange(374, 375));
    assert(seq![x.s_reserved_pad] =~= b.subrange(375, 376));
    lemma_words_round_trip(b, 588, 2);
    assert(seq![x.s_wtime_hi] =~= b.subrange(628, 629));
    assert(seq![x.s_mtime_hi] =~= b.subrange(629, 630));
    assert(seq![x.s_mkfs_time_hi] =~= b.subrange(630, 631));
    assert(seq![x.s_lastcheck_hi] =~= b.subrange(631, 632));
    assert(seq![x.s_first_error_time_hi] =~= b.subrange(632, 633));
    assert(seq![x.s_last_error_time_hi] =~= b.subrange(633, 634));
    assert(seq![x.s_first_error_errcode] =~= b.subrange(634, 635));
    assert(seq![x.s_last_error_errcode] =~= b.subrange(635, 636));
    lemma_words_round_trip(b, 644, 94);
    lemma_join(b, 0, 4, 8);
    lemma_join(b, 0, 8, 12);
    lemma_join(b, 0, 12, 16);
    lemma_join(b, 0, 16, 20);
    lemma_join(b, 0, 20, 24);
    lemma_join(b, 0, 24, 28);
    lemma_join(b, 0, 28, 32);
    lemma_join(b, 0, 32, 36);
    lemma_join(b, 0, 36, 40);
    lemma_join(b, 0, 40, 44);
    lemma_join(b, 0, 44, 48);
    lemma_join(b, 48, 52, 54);
    lemma_join(b, 48, 54, 56);
    lemma_join(b, 48, 56, 58);
    lemma_join(b, 48, 58, 60);
    lemma_join(b, 48, 60, 62);
    lemma_join(b, 48, 62, 64);
    lemma_join(b, 48, 64, 68);
    lemma_join(b, 48, 68, 72);
    lemma_join(b, 48, 72, 76);
    lemma_join(b, 48, 76, 80);
    lemma_join(b, 48, 80, 82);
    lemma_join(b, 82, 84, 88);
    lemma_join(b, 82, 88, 90);
    lemma_join(b, 82, 90, 92);
    lemma_join(b, 82, 92, 96);
    lemma_join(b, 82, 96, 100);
    lemma_join(b, 82, 100, 104);
    lemma_join(b, 82, 104, 120);
    lemma_join(b, 82, 120, 136);
    lemma_join(b, 82, 136, 200);
    lemma_join(b, 82, 200, 204);
    lemma_join(b, 82, 204, 205);
    lemma_join(b, 205, 206, 208);
    lemma_join(b, 205, 208, 224);
    lemma_join(b, 205, 224, 228);
    lemma_join(b, 205, 228, 232);
    lemma_join(b, 205, 232, 236);
    lemma_join(b, 205, 236, 252);
    lemma_join(b, 205, 252, 253);
    lemma_join(b, 205, 253, 254);
    lemma_join(b, 205, 254, 256);
    lemma_join(b, 205, 256, 260);
    lemma_join(b, 205, 260, 264);
    lemma_join(b, 264, 268, 336);
    lemma_join(b, 264, 336, 340);
    lemma_join(b, 264, 340, 344);
    lemma_join(b, 264, 344, 348);
    lemma_join(b, 264, 348, 350);
    lemma_join(b, 264, 350, 352);
    lemma_join(b, 264, 352, 356);
    lemma_join(b, 264, 356, 358);
    lemma_join(b, 264, 358, 360);
    lemma_join(b, 264, 360, 368);
    lemma_join(b, 264, 368, 372);
    lemma_join(b, 372, 373, 374);
    lemma_join(b, 372, 374, 375);
    lemma_join(b, 372, 375, 376);
    lemma_join(b, 372, 376, 384);
    lemma_join(b, 372, 384, 388);
    lemma_join(b, 372, 388, 392);
    lemma_join(b, 372, 392, 400);
    lemma_join(b, 372, 400, 404);
    lemma_join(b, 372, 404, 408);
    lemma_join(b, 372, 408, 412);
    lemma_join(b, 372, 412, 416);
    lemma_join(b, 416, 424, 456);
    lemma_join(b, 416, 456, 460);
    lemma_join(b, 416, 460, 464);
    lemma_join(b, 416, 464, 468);
    lemma_join(b, 416, 468, 472);
    lemma_join(b, 416, 472, 480);
    lemma_join(b, 416, 480, 512);
    lemma_join(b, 416, 512, 576);
    lemma_join(b, 416, 576, 580);
    lemma_join(b, 416, 580, 584);
    lemma_join(b, 416, 584, 588);
    lemma_join(b, 588, 596, 600);
    lemma_join(b, 588, 600, 616);
    lemma_join(b, 588, 616, 620);
    lemma_join(b, 588, 620, 624);
    lemma_join(b, 588, 624, 628);
    lemma_join(b, 588, 628, 629);
    lemma_join(b, 588, 629, 630);
    lemma_join(b, 588, 630, 631);
    lemma_join(b, 588, 631, 632);
    lemma_join(b, 588, 632, 633);
    lemma_join(b, 588, 633, 634);
    lemma_join(b, 634, 635, 636);
    lemma_join(b, 634, 636, 638);
    lemma_join(b, 634, 638, 640);
    lemma_join(b, 634, 640, 644);
    lemma_join(b, 634, 644, 1020);
    lemma_join(b, 634, 1020, 1024);
    lemma_join(b, 0, 48, 82);
    lemma_join(b, 0, 82, 205);
    lemma_join(b, 0, 205, 264);
    lemma_join(b, 0, 264, 372);
    lemma_join(b, 0, 372, 416);
    lemma_join(b, 0, 416, 588);
    lemma_join(b, 0, 588, 634);
    lemma_join(b, 0, 634, 1024);
}

impl Ext4SuperBlock {
    /// The total block count: the halves combined.
    pub open spec fn spec_blocks_count(&self) -> nat {
        (self.s_blocks_count_hi as nat) * 0x1_0000_0000 + self.s_blocks_count_lo as nat
    }

    /// The total block count.
    pub fn blocks_count(&self) -> (r: u64)
        ensures
            r == self.spec_blocks_count(),
    {
        (self.s_blocks_count_hi as u64) * 0x1_0000_0000 + self.s_blocks_count_lo as u64
    }

    /// Whether only some block groups hold superblock backups.
    pub fn has_sparse_super_feature(&self) -> (r: bool)
        ensures
            r == (self.s_feature_ro_compat & RO_COMPAT_SPARSE_SUPER != 0),
    {
        self.s_feature_ro_compat & RO_COMPAT_SPARSE_SUPER != 0
    }
}

/// The fields stored in bytes 0 to 48 decode from the encoding.
#[verifier::spinoff_prover]
#[verifier::rlimit(100)]
proof fn lemma_superblock_decode_0_48(x: Ext4SuperBlock)
    requires
        x.well_formed(),
    ensures
        x.s_inodes_count == le32(x.encoding(), 0),
        x.s_blocks_count_lo == le32(x.encoding(), 4),
        x.s_r_blocks_count_lo == le32(x.encoding(), 8),
        x.s_free_blocks_count_lo == le32(x.encoding(), 12),
        x.s_free_inodes_count == le32(x.encoding(), 16),
        x.s_first_data_block == le32(x.encoding(), 20),
        x.s_log_block_size == le32(x.encoding(), 24),
        x.s_log_cluster_size == le32(x.encoding(), 28),
        x.s_blocks_per_group == le32(x.encoding(), 32),
        x.s_clusters_per_group == le32(x.encoding(), 36),
        x.s_inodes_per_group == le32(x.encoding(), 40),
        x.s_mtime == le32(x.encoding(), 44),
{
    lemma_int_round_trips();
    lemma_words_bytes_len(x.s_hash_seed@);
    lemma_words_bytes_len(x.s_jnl_blocks@);
    lemma_words_bytes_len(x.s_backup_bgs@);
    lemma_words_bytes_len(x.s_reserved@);
    let e = x.encoding();
    let s = x.encoding_0_48();
    assert(e.subrange(0, 48) =~= s);
    assert(s.subrange(0, 4) =~= bytes32(x.s_inodes_count));
    assert(e.subrange(0, 4) =~= s.subrange(0, 4));
    assert(s.subrange(4, 8) =~= bytes32(x.s_blocks_count_lo));
    assert(e.subrange(4, 8) =~= s.subrange(4, 8));
    assert(s.subrange(8, 12) =~= bytes32(x.s_r_blocks_count_lo));
    assert(e.subrange(8, 12) =~= s.subrange(8, 12));
    assert(s.subrange(12, 16) =~= bytes32(x.s_free_blocks_count_lo));
    assert(e.subrange(12, 16) =~= s.subrange(12, 16));
    assert(s.subrange(16, 20) =~= bytes32(x.s_free_inodes_count));
    assert(e.subrange(16, 20) =~= s.subrange(16, 20));
    assert(s.subrange(20, 24) =~= bytes32(x.s_first_data_block));
    assert(e.subrange(20, 24) =~= s.subrange(20, 24));
    assert(s.subrange(24, 28) =~= bytes32(x.s_log_block_size));
    assert(e.subrange(24, 28) =~= s.subrange(24, 28));
    assert(s.subrange(28, 32) =~= bytes32(x.s_log_cluster_size));
    assert(e.subrange(28, 32) =~= s.subrange(28, 32));
    assert(s.subrange(32, 36) =~= bytes32(x.s_blocks_per_group));
    assert(e.subrange(32, 36) =~= s.subrange(32, 36));
    assert(s.subrange(36, 40) =~= bytes32(x.s_clusters_per_group));
    assert(e.subrange(36, 40) =~= s.subrange(36, 40));
    assert(s.subrange(40, 44) =~= bytes32(x.s_inodes_per_group));
    assert(e.subrange(40, 44) =~= s.subrange(40, 44));
    assert(s.subrange(44, 48) =~= bytes32(x.s_mtime));
    assert(e.subrange(44, 48) =~= s.subrange(44, 48));
}

/// The fields stored in bytes 48 to 82 decode from the encoding.
#[verifier::spinoff_prover]
#[verifier::rlimit(100)]
proof fn lemma_superblock_decode_48_82(x: Ext4SuperBlock)
    requires
        x.well_formed(),
    ensures
        x.s_wtime == le32(x.encoding(), 48),
        x.s_mnt_count == le16(x.encoding(), 52),
        x.s_max_mnt_count == le16(x.encoding(), 54),
        x.s_magic == le16(x.encoding(), 56),
        x.s_state == le16(x.encoding(), 58),
        x.s_errors == le16(x.encoding(), 60),
        x.s_minor_rev_level == le16(x.encoding(), 62),
        x.s_lastcheck == le32(x.encoding(), 64),
        x.s_checkinterval == le32(x.encoding(), 68),
        x.s_creator_os == le32(x.encoding(), 72),
        x.s_rev_level == le32(x.encoding(), 76),
        x.s_def_resuid == le16(x.encoding(), 80),
{
    lemma_int_round_trips();
    lemma_words_bytes_len(x.s_hash_seed@);
    lemma_words_bytes_len(x.s_jnl_blocks@);
    lemma_words_bytes_len(x.s_backup_bgs@);
    lemma_words_bytes_len(x.s_reserved@);
    let e = x.encoding();
    let s = x.encoding_48_82();
    assert(e.subrange(48, 82) =~= s);
    assert(s.subrange(0, 4) =~= bytes32(x.s_wtime));
    assert(e.subrange(48, 52) =~= s.subrange(0, 4));
    assert(s.subrange(4, 6) =~= bytes16(x.s_mnt_count));
    assert(e.subrange(52, 54) =~= s.subrange(4, 6));
    assert(s.subrange(6, 8) =~= bytes16(x.s_max_mnt_count));
    assert(e.subrange(54, 56) =~= s.subrange(6, 8));
    assert(s.subrange(8, 10) =~= bytes16(x.s_magic));
    assert(e.subrange(56, 58) =~= s.subrange(8, 10));
    assert(s.subrange(10, 12) =~= bytes16(x.s_state));
    assert(e.subrange(58, 60) =~= s.subrange(10, 12));
    assert(s.subrange(12, 14) =~= bytes16(x.s_errors));
    assert(e.subrange(60, 62) =~= s.subrange(12, 14));
    assert(s.subrange(14, 16) =~= bytes16(x.s_minor_rev_level));
    assert(e.subrange(62, 64) =~= s.subrange(14, 16));
    assert(s.subrange(16, 20) =~= bytes32(x.s_lastcheck));
    assert(e.subrange(64, 68) =~= s.subrange(16, 20));
    assert(s.subrange(20, 24) =~= bytes32(x.s_checkinterval));
    assert(e.subrange(68, 72) =~= s.subrange(20, 24));
    assert(s.subrange(24, 28) =~= bytes32(x.s_creator_os));
    assert(e.subrange(72, 76) =~= s.subrange(24, 28));
    assert(s.subrange(28, 32) =~= bytes32(x.s_rev_level));
    assert(e.subrange(76, 80) =~= s.subrange(28, 32));
    assert(s.subrange(32, 34) =~= bytes16(x.s_def_resuid));
    assert(e.subrange(80, 82) =~= s.subrange(32, 34));
}

/// The fields stored in bytes 82 to 205 decode from the encoding.
#[verifier::spinoff_prover]
#[verifier::rlimit(100)]
proof fn lemma_superblock_decode_82_205(x: Ext4SuperBlock)
    requires
        x.well_formed(),
    ensures
        x.s_def_resgid == le16(x.encoding(), 82),
        x.s_first_ino == le32(x.encoding(), 84),
        x.s_inode_size == le16(x.encoding(), 88),
        x.s_block_group_nr == le16(x.encoding(), 90),
        x.s_feature_compat == le32(x.encoding(), 92),
        x.s_feature_incompat == le32(x.encoding(), 96),
        x.s_feature_ro_compat == le32(x.encoding(), 100),
        x.s_uuid@ == x.encoding().subrange(104, 120),
        x.s_volume_name@ == x.encoding().subrange(120, 136),
        x.s_last_mounted@ == x.encoding().subrange(136, 200),
        x.s_algorithm_usage_bitmap == le32(x.encoding(), 200),
        x.s_prealloc_blocks == x.encoding()[204],
{
    lemma_int_round_trips();
    lemma_words_bytes_len(x.s_hash_seed@);
    lemma_words_bytes_len(x.s_jnl_blocks@);
    lemma_words_bytes_len(x.s_backup_bgs@);
    lemma_words_bytes_len(x.s_reserved@);
    let e = x.encoding();
    let s = x.encoding_82_205();
    assert(e.subrange(82, 205) =~= s);
    assert(s.subrange(0, 2) =~= bytes16(x.s_def_resgid));
    assert(e.subrange(82, 84) =~= s.subrange(0, 2));
    assert(s.subrange(2, 6) =~= bytes32(x.s_first_ino));
    assert(e.subrange(84, 88) =~= s.subrange(2, 6));
    assert(s.subrange(6, 8) =~= bytes16(x.s_inode_size));
    assert(e.subrange(88, 90) =~= s.subrange(6, 8));
    assert(s.subrange(8, 10) =~= bytes16(x.s_block_group_nr));
    assert(e.subrange(90, 92) =~= s.subrange(8, 10));
    assert(s.subrange(10, 14) =~= bytes32(x.s_feature_compat));
    assert(e.subrange(92, 96) =~= s.subrange(10, 14));
    assert(s.subrange(14, 18) =~= bytes32(x.s_feature_incompat));
    assert(e.subrange(96, 100) =~= s.subrange(14, 18));
    assert(s.subrange(18, 22) =~= bytes32(x.s_feature_ro_compat));
    assert(e.subrange(100, 104) =~= s.subrange(18, 22));
    assert(s.subrange(22, 38) =~= x.s_uuid@);
    assert(e.subrange(104, 120) =~= s.subrange(22, 38));
    assert(s.subrange(38, 54) =~= x.s_volume_name@);
    assert(e.subrange(120, 136) =~= s.subrange(38, 54));
    assert(s.subrange(54, 118) =~= x.s_last_mounted@);
    assert(e.subrange(136, 200) =~= s.subrange(54, 118));
    assert(s.subrange(118, 122) =~= bytes32(x.s_algorithm_usage_bitmap));
    assert(e.subrange(200, 204) =~= s.subrange(118, 122));
    assert(s[122] == x.s_prealloc_blocks);
    assert(e[204] == e.subrange(82, 205)[122]);
}

/// The fields stored in bytes 205 to 264 decode from the encoding.
#[verifier::spinoff_prover]
#[verifier::rlimit(100)]
proof fn lemma_superblock_decode_205_264(x: Ext4SuperBlock)
    requires
        x.well_formed(),
    ensures
        x.s_prealloc_dir_blocks == x.encoding()[205],
        x.s_reserved_gdt_blocks == le16(x.encoding(), 206),
        x.s_journal_uuid@ == x.encoding().subrange(208, 224),
        x.s_journal_inum == le32(x.encoding(), 224),
        x.s_journal_dev == le32(x.encoding(), 228),
        x.s_last_orphan == le32(x.encoding(), 232),
        x.s_hash_seed@ == le_words(x.encoding(), 236, 4),
        x.s_def_hash_version == x.encoding()[252],
        x.s_jnl_backup_type == x.encoding()[253],
        x.s_desc_size == le16(x.encoding(), 254),
        x.s_default_mount_opts == le32(x.encoding(), 256),
        x.s_first_meta_bg == le32(x.encoding(), 260),
{
    lemma_int_round_trips();
    lemma_words_bytes_len(x.s_hash_seed@);
    lemma_words_bytes_len(x.s_jnl_blocks@);
    lemma_words_bytes_len(x.s_backup_bgs@);
    lemma_words_bytes_len(x.s_reserved@);
    let e = x.encoding();
    let s = x.encoding_205_264();
    assert(e.subrange(205, 264) =~= s);
    assert(s[0] == x.s_prealloc_dir_blocks);
    assert(e[205] == e.subrange(205, 264)[0]);
    assert(s.subrange(1, 3) =~= bytes16(x.s_reserved_gdt_blocks));
    assert(e.subrange(206, 208) =~= s.subrange(1, 3));
    assert(s.subrange(3, 19) =~= x.s_journal_uuid@);
    assert(e.subrange(208, 224) =~= s.subrange(3, 19));
    assert(s.subrange(19, 23) =~= bytes32(x.s_journal_inum));
    assert(e.subrange(224, 228) =~= s.subrange(19, 23));
    assert(s.subrange(23, 27) =~= bytes32(x.s_journal_dev));
    assert(e.subrange(228, 232) =~= s.subrange(23, 27));
    assert(s.subrange(27, 31) =~= bytes32(x.s_last_orphan));
    assert(e.subrange(232, 236) =~= s.subrange(27, 31));
    assert(s.subrange(31, 47) =~= words_bytes(x.s_hash_seed@));
    assert(e.subrange(236, 252) =~= s.subrange(31, 47));
    lemma_words_decode(e, 236, x.s_hash_seed@);
    assert(s[47] == x.s_def_hash_version);
    assert(e[252] == e.subrange(205, 264)[47]);
    assert(s[48] == x.s_jnl_backup_type);
    assert(e[253] == e.subrange(205, 264)[48]);
    assert(s.subrange(49, 51) =~= bytes16(x.s_desc_size));
    assert(e.subrange(254, 256) =~= s.subrange(49, 51));
    assert(s.subrange(51, 55) =~= bytes32(x.s_default_mount_opts));
    assert(e.subrange(256, 260) =~= s.subrange(51, 55));
    assert(s.subrange(55, 59) =~= bytes32(x.s_first_meta_bg));
    assert(e.subrange(260, 264) =~= s.subrange(55, 59));
}

/// The fields stored in bytes 264 to 372 decode from the encoding.
#[verifier::spinoff_prover]
#[verifier::rlimit(100)]
proof fn lemma_superblock_decode_264_372(x: Ext4SuperBlock)
    requires
        x.well_formed(),
    ensures
        x.s_mkfs_time == le32(x.encoding(), 264),
        x.s_jnl_blocks@ == le_words(x.encoding(), 268, 17),
        x.s_blocks_count_hi == le32(x.encoding(), 336),
        x.s_r_blocks_count_hi == le32(x.encoding(), 340),
        x.s_free_blocks_count_hi == le32(x.encoding(), 344),
        x.s_min_extra_isize == le16(x.encoding(), 348),
        x.s_want_extra_isize == le16(x.encoding(), 350),
        x.s_flags == le32(x.encoding(), 352),
        x.s_raid_stride == le16(x.encoding(), 356),
        x.s_mmp_update_interval == le16(x.encoding(), 358),
        x.s_mmp_block == le64(x.encoding(), 360),
        x.s_raid_stripe_width == le32(x.encoding(), 368),
{
    lemma_int_round_trips();
    lemma_words_bytes_len(x.s_jnl_blocks@);
    lemma_words_bytes_len(x.s_hash_seed@);
    lemma_words_bytes_len(x.s_backup_bgs@);
    lemma_words_bytes_len(x.s_reserved@);
    let e = x.encoding();
    let s = x.encoding_264_372();
    assert(e.subrange(264, 372) =~= s);
    assert(s.subrange(0, 4) =~= bytes32(x.s_mkfs_time));
    assert(e.subrange(264, 268) =~= s.subrange(0, 4));
    assert(s.subrange(4, 72) =~= words_bytes(x.s_jnl_blocks@));
    assert(e.subrange(268, 336) =~= s.subrange(4, 72));
    lemma_words_decode(e, 268, x.s_jnl_blocks@);
    assert(s.subrange(72, 76) =~= bytes32(x.s_blocks_count_hi));
    assert(e.subrange(336, 340) =~= s.subrange(72, 76));
    assert(s.subrange(76, 80) =~= bytes32(x.s_r_blocks_count_hi));
    assert(e.subrange(340, 344) =~= s.subrange(76, 80));
    assert(s.subrange(80, 84) =~= bytes32(x.s_free_blocks_count_hi));
    assert(e.subrange(344, 348) =~= s.subrange(80, 84));
    assert(s.subrange(84, 86) =~= bytes16(x.s_min_extra_isize));
    assert(e.subrange(348, 350) =~= s.subrange(84, 86));
    assert(s.subrange(86, 88) =~= bytes16(x.s_want_extra_isize));
    assert(e.subrange(350, 352) =~= s.subrange(86, 88));
    assert(s.subrange(88, 92) =~= bytes32(x.s_flags));
    assert(e.subrange(352, 356) =~= s.subrange(88, 92));
    assert(s.subrange(92, 94) =~= bytes16(x.s_raid_stride));
    assert(e.subrange(356, 358) =~= s.subrange(92, 94));
    assert(s.subrange(94, 96) =~= bytes16(x.s_mmp_update_interval));
    assert(e.subrange(358, 360) =~= s.subrange(94, 96));
    assert(s.subrange(96, 104) =~= bytes64(x.s_mmp_block));
    assert(e.subrange(360, 368) =~= s.subrange(96, 104));
    assert(s.subrange(104, 108) =~= bytes32(x.s_raid_stripe_width));
    assert(e.subrange(368, 372) =~= s.subrange(104, 108));
}

/// The fields stored in bytes 372 to 416 decode from the encoding.
#[verifier::spinoff_prover]
#[verifier::rlimit(100)]
proof fn lemma_superblock_decode_372_416(x: Ext4SuperBlock)
    requires
        x.well_formed(),
    ensures
        x.s_log_groups_per_flex == x.encoding()[372],
        x.s_checksum_type == x.encoding()[373],
        x.s_encryption_level == x.encoding()[374],
        x.s_reserved_pad == x.encoding()[375],
        x.s_kbytes_written == le64(x.encoding(), 376),
        x.s_snapshot_inum == le32(x.encoding(), 384),
        x.s_snapshot_id == le32(x.encoding(), 388),
        x.s_snapshot_r_blocks_count == le64(x.encoding(), 392),
        x.s_snapshot_list == le32(x.encoding(), 400),
        x.s_error_count == le32(x.encoding(), 404),
        x.s_first_error_time == le32(x.encoding(), 408),
        x.s_first_error_ino == le32(x.encoding(), 412),
{
    lemma_int_round_trips();
    lemma_words_bytes_len(x.s_hash_seed@);
    lemma_words_bytes_len(x.s_jnl_blocks@);
    lemma_words_bytes_len(x.s_backup_bgs@);
    lemma_words_bytes_len(x.s_reserved@);
    let e = x.encoding();
    let s = x.encoding_372_416();
    assert(e.subrange(372, 416) =~= s);
    assert(s[0] == x.s_log_groups_per_flex);
    assert(e[372] == e.subrange(372, 416)[0]);
    assert(s[1] == x.s_checksum_type);
    assert(e[373] == e.subrange(372, 416)[1]);
    assert(s[2] == x.s_encryption_level);
    assert(e[374] == e.subrange(372, 416)[2]);
    assert(s[3] == x.s_reserved_pad);
    assert(e[375] == e.subrange(372, 416)[3]);
    assert(s.subrange(4, 12) =~= bytes64(x.s_kbytes_written));
    assert(e.subrange(376, 384) =~= s.subrange(4, 12));
    assert(s.subrange(12, 16) =~= bytes32(x.s_snapshot_inum));
    assert(e.subrange(384, 388) =~= s.subrange(12, 16));
    assert(s.subrange(16, 20) =~= bytes32(x.s_snapshot_id));
    assert(e.subrange(388, 392) =~= s.subrange(16, 20));
    assert(s.subrange(20, 28) =~= bytes64(x.s_snapshot_r_blocks_count));
    assert(e.subrange(392, 400) =~= s.subrange(20, 28));
    assert(s.subrange(28, 32) =~= bytes32(x.s_snapshot_list));
    assert(e.subrange(400, 404) =~= s.subrange(28, 32));
    assert(s.subrange(32, 36) =~= bytes32(x.s_error_count));
    assert(e.subrange(404, 408) =~= s.subrange(32, 36));
    assert(s.subrange(36, 40) =~= bytes32(x.s_first_error_time));
    assert(e.subrange(408, 412) =~= s.subrange(36, 40));
    assert(s.subrange(40, 44) =~= bytes32(x.s_first_error_ino));
    assert(e.subrange(412, 416) =~= s.subrange(40, 44));
}

/// The fields stored in bytes 416 to 588 decode from the encoding.
#[verifier::spinoff_prover]
#[verifier::rlimit(100)]
proof fn lemma_superblock_decode_416_588(x: Ext4SuperBlock)
    requires
        x.well_formed(),
    ensures
        x.s_first_error_block == le64(x.encoding(), 416),
        x.s_first_error_func@ == x.encoding().subrange(424, 456),
        x.s_first_error_line == le32(x.encoding(), 456),
        x.s_last_error_time == le32(x.encoding(), 460),
        x.s_last_error_ino == le32(x.encoding(), 464),
        x.s_last_error_line == le32(x.encoding(), 468),
        x.s_last_error_block == le64(x.encoding(), 472),
        x.s_last_error_func@ == x.encoding().subrange(480, 512),
        x.s_mount_opts@ == x.encoding().subrange(512, 576),
        x.s_usr_quota_inum == le32(x.encoding(), 576),
        x.s_grp_quota_inum == le32(x.encoding(), 580),
        x.s_overhead_clusters == le32(x.encoding(), 584),
{
    lemma_int_round_trips();
    lemma_words_bytes_len(x.s_hash_seed@);
    lemma_words_bytes_len(x.s_jnl_blocks@);
    lemma_words_bytes_len(x.s_backup_bgs@);
    lemma_words_bytes_len(x.s_reserved@);
    let e = x.encoding();
    let s = x.encoding_416_588();
    assert(e.subrange(416, 588) =~= s);
    assert(s.subrange(0, 8) =~= bytes64(x.s_first_error_block));
    assert(e.subrange(416, 424) =~= s.subrange(0, 8));
    assert(s.subrange(8, 40) =~= x.s_first_error_func@);
    assert(e.subrange(424, 456) =~= s.subrange(8, 40));
    assert(s.subrange(40, 44) =~= bytes32(x.s_first_error_line));
    assert(e.subrange(456, 460) =~= s.subrange(40, 44));
    assert(s.subrange(44, 48) =~= bytes32(x.s_last_error_time));
    assert(e.subrange(460, 464) =~= s.subrange(44, 48));
    assert(s.subrange(48, 52) =~= bytes32(x.s_last_error_ino));
    assert(e.subrange(464, 468) =~= s.subrange(48, 52));
    assert(s.subrange(52, 56) =~= bytes32(x.s_last_error_line));
    assert(e.subrange(468, 472) =~= s.subrange(52, 56));
    assert(s.subrange(56, 64) =~= bytes64(x.s_last_error_block));
    assert(e.subrange(472, 480) =~= s.subrange(56, 64));
    assert(s.subrange(64, 96) =~= x.s_last_error_func@);
    assert(e.subrange(480, 512) =~= s.subrange(64, 96));
    assert(s.subrange(96, 160) =~= x.s_mount_opts@);
    assert(e.subrange(512, 576) =~= s.subrange(96, 160));
    assert(s.subrange(160, 164) =~= bytes32(x.s_usr_quota_inum));
    assert(e.subrange(576, 580) =~= s.subrange(160, 164));
    assert(s.subrange(164, 168) =~= bytes32(x.s_grp_quota_inum));
    assert(e.subrange(580, 584) =~= s.subrange(164, 168));
    assert(s.subrange(168, 172) =~= bytes32(x.s_overhead_clusters));
    assert(e.subrange(584, 588) =~= s.subrange(168, 172));
}

/// The fields stored in bytes 588 to 634 decode from the encoding.
#[verifier::spinoff_prover]
#[verifier::rlimit(100)]
proof fn lemma_superblock_decode_588_634(x: Ext4SuperBlock)
    requires
        x.well_formed(),
    ensures
        x.s_backup_bgs@ == le_words(x.encoding(), 588, 2),
        x.s_encrypt_algos@ == x.encoding().subrange(596, 600),
        x.s_encrypt_pw_salt@ == x.encoding().subrange(600, 616),
        x.s_lpf_ino == le32(x.encoding(), 616),
        x.s_prj_quota_inum == le32(x.encoding(), 620),
        x.s_checksum_seed == le32(x.encoding(), 624),
        x.s_wtime_hi == x.encoding()[628],
        x.s_mtime_hi == x.encoding()[629],
        x.s_mkfs_time_hi == x.encoding()[630],
        x.s_lastcheck_hi == x.encoding()[631],
        x.s_first_error_time_hi == x.encoding()[632],
        x.s_last_error_time_hi == x.encoding()[633],
{
    lemma_int_round_trips();
    lemma_words_bytes_len(x.s_backup_bgs@);
    lemma_words_bytes_len(x.s_hash_seed@);
    lemma_words_bytes_len(x.s_jnl_blocks@);
    lemma_words_bytes_len(x.s_reserved@);
    let e = x.encoding();
    let s = x.encoding_588_634();
    assert(e.subrange(588, 634) =~= s);
    assert(s.subrange(0, 8) =~= words_bytes(x.s_backup_bgs@));
    assert(e.subrange(588, 596) =~= s.subrange(0, 8));
    lemma_words_decode(e, 588, x.s_backup_bgs@);
    assert(s.subrange(8, 12) =~= x.s_encrypt_algos@);
    assert(e.subrange(596, 600) =~= s.subrange(8, 12));
    assert(s.subrange(12, 28) =~= x.s_encrypt_pw_salt@);
    assert(e.subrange(600, 616) =~= s.subrange(12, 28));
    assert(s.subrange(28, 32) =~= bytes32(x.s_lpf_ino));
    assert(e.subrange(616, 620) =~= s.subrange(28, 32));
    assert(s.subrange(32, 36) =~= bytes32(x.s_prj_quota_inum));
    assert(e.subrange(620, 624) =~= s.subrange(32, 36));
    assert(s.subrange(36, 40) =~= bytes32(x.s_checksum_seed));
    assert(e.subrange(624, 628) =~= s.subrange(36, 40));
    assert(s[40] == x.s_wtime_hi);
    assert(e[628] == e.subrange(588, 634)[40]);
    assert(s[41] == x.s_mtime_hi);
    assert(e[629] == e.subrange(588, 634)[41]);
    assert(s[42] == x.s_mkfs_time_hi);
    assert(e[630] == e.subrange(588, 634)[42]);
    assert(s[43] == x.s_lastcheck_hi);
    assert(e[631] == e.subrange(588, 634)[43]);
    assert(s[44] == x.s_first_error_time_hi);
    assert(e[632] == e.subrange(588, 634)[44]);
    assert(s[45] == x.s_last_error_time_hi);
    assert(e[633] == e.subrange(588, 634)[45]);
}

/// The fields stored in bytes 634 to 1024 decode from the encoding.
#[verifier::spinoff_prover]
#[verifier::rlimit(100)]
proof fn lemma_superblock_decode_634_1024(x: Ext4SuperBlock)
    requires
        x.well_formed(),
    ensures
        x.s_first_error_errcode == x.encoding()[634],
        x.s_last_error_errcode == x.encoding()[635],
        x.s_encoding == le16(x.encoding(), 636),
        x.s_encoding_flags == le16(x.encoding(), 638),
        x.s_orphan_file_inum == le32(x.encoding(), 640),
        x.s_reserved@ == le_words(x.encoding(), 644, 94),
        x.s_checksum == le32(x.encoding(), 1020),
{
    lemma_int_round_trips();
    lemma_words_bytes_len(x.s_reserved@);
    lemma_words_bytes_len(x.s_hash_seed@);
    lemma_words_bytes_len(x.s_jnl_blocks@);
    lemma_words_bytes_len(x.s_backup_bgs@);
    let e = x.encoding();
    let s = x.encoding_634_1024();
    assert(e.subrange(634, 1024) =~= s);
    assert(s[0] == x.s_first_error_errcode);
    assert(e[634] == e.subrange(634, 1024)[0]);
    assert(s[1] == x.s_last_error_errcode);
    assert(e[635] == e.subrange(634, 1024)[1]);
    assert(s.subrange(2, 4) =~= bytes16(x.s_encoding));
    assert(e.subrange(636, 638) =~= s.subrange(2, 4));
    assert(s.subrange(4, 6) =~= bytes16(x.s_encoding_flags));
    assert(e.subrange(638, 640) =~= s.subrange(4, 6));
    assert(s.subrange(6, 10) =~= bytes32(x.s_orphan_file_inum));
    assert(e.subrange(640, 644) =~= s.subrange(6, 10));
    assert(s.subrange(10, 386) =~= words_bytes(x.s_reserved@));
    assert(e.subrange(644, 1020) =~= s.subrange(10, 386));
    lemma_words_decode(e, 644, x.s_reserved@);
    assert(s.subrange(386, 390) =~= bytes32(x.s_checksum));
    assert(e.subrange(1020, 1024) =~= s.subrange(386, 390));
}

/// Encoding one superblock and decoding the bytes again gives back every field.
pub proof fn lemma_superblock_decode_encoding(x: Ext4SuperBlock)
    requires
        x.well_formed(),
    ensures
        x.decodes(x.encoding(), 0),
{
    lemma_superblock_decode_0_48(x);
    lemma_superblock_decode_48_82(x);
    lemma_superblock_decode_82_205(x);
    lemma_superblock_decode_205_264(x);
    lemma_superblock_decode_264_372(x);
    lemma_superblock_decode_372_416(x);
    lemma_superblock_decode_416_588(x);
    lemma_superblock_decode_588_634(x);
    lemma_superblock_decode_634_1024(x);
}

} // verus!
