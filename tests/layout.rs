use ext4_reader::{
    group_has_backup, Disk, Feature, FsError, COMPAT_SPARSE_SUPER2, INCOMPAT_64BIT,
    RO_COMPAT_SPARSE_SUPER,
};

fn put16(b: &mut [u8], off: usize, v: u16) {
    b[off..off + 2].copy_from_slice(&v.to_le_bytes());
}

fn put32(b: &mut [u8], off: usize, v: u32) {
    b[off..off + 4].copy_from_slice(&v.to_le_bytes());
}

struct Sb {
    inodes_count: u32,
    blocks_count: u32,
    first_data_block: u32,
    log_block_size: u32,
    blocks_per_group: u32,
    inodes_per_group: u32,
    inode_size: u16,
    compat: u32,
    incompat: u32,
    ro_compat: u32,
    log_groups_per_flex: u8,
}

fn sb() -> Sb {
    Sb {
        inodes_count: 2048 * 64,
        blocks_count: 8192 * 64,
        first_data_block: 0,
        log_block_size: 2,
        blocks_per_group: 8192,
        inodes_per_group: 2048,
        inode_size: 256,
        compat: 0,
        incompat: 0,
        ro_compat: RO_COMPAT_SPARSE_SUPER,
        log_groups_per_flex: 4,
    }
}

fn bytes(s: &Sb) -> Vec<u8> {
    let mut b = vec![0u8; 1024];
    put32(&mut b, 0, s.inodes_count);
    put32(&mut b, 4, s.blocks_count);
    put32(&mut b, 20, s.first_data_block);
    put32(&mut b, 24, s.log_block_size);
    put32(&mut b, 32, s.blocks_per_group);
    put32(&mut b, 40, s.inodes_per_group);
    put16(&mut b, 56, 0xEF53);
    put16(&mut b, 88, s.inode_size);
    put32(&mut b, 92, s.compat);
    put32(&mut b, 96, s.incompat);
    put32(&mut b, 100, s.ro_compat);
    b[372] = s.log_groups_per_flex;
    b
}

fn disk(s: &Sb) -> Disk {
    Disk::new(&bytes(s)).unwrap()
}

#[test]
fn group_zero_always_has_backup() {
    for compat in [0, COMPAT_SPARSE_SUPER2] {
        for ro in [0, RO_COMPAT_SPARSE_SUPER] {
            assert_eq!(group_has_backup(compat, ro, 0), Ok(true));
        }
    }
}

#[test]
fn even_groups_have_no_backup_with_sparse_super() {
    for g in (2..2000u32).step_by(2) {
        assert_eq!(group_has_backup(0, RO_COMPAT_SPARSE_SUPER, g), Ok(false), "group {}", g);
    }
}

#[test]
fn odd_groups_have_backup_when_powers_of_three_five_seven() {
    for g in [1u32, 3, 5, 7, 9, 25, 27, 49, 81, 125, 343, 2187, 3125, 16807] {
        assert_eq!(group_has_backup(0, RO_COMPAT_SPARSE_SUPER, g), Ok(true), "group {}", g);
    }
    for g in [11u32, 15, 21, 33, 35, 45, 63, 75, 105, 4294967295] {
        assert_eq!(group_has_backup(0, RO_COMPAT_SPARSE_SUPER, g), Ok(false), "group {}", g);
    }
}

#[test]
fn every_group_has_backup_without_sparse_super() {
    for g in [1u32, 2, 4, 11, 100] {
        assert_eq!(group_has_backup(0, 0, g), Ok(true));
    }
}

#[test]
fn sparse_super2_is_unsupported() {
    assert_eq!(
        group_has_backup(COMPAT_SPARSE_SUPER2, RO_COMPAT_SPARSE_SUPER, 3),
        Err(FsError::UnsupportedFeature(Feature::SparseSuper2))
    );
    let mut s = sb();
    s.compat = COMPAT_SPARSE_SUPER2;
    let d = disk(&s);
    assert_eq!(d.block_group_has_redundant_copy(0), Ok(true));
    assert_eq!(
        d.block_group_has_redundant_copy(1),
        Err(FsError::UnsupportedFeature(Feature::SparseSuper2))
    );
    assert_eq!(d.desc_offset(5), Err(FsError::UnsupportedFeature(Feature::SparseSuper2)));
    assert_eq!(Feature::SparseSuper2.name(), "sparse superblock v2");
    assert_eq!(Feature::InlineData.name(), "inline data");
    assert_eq!(Feature::HashedTreeDirectory.name(), "hashed tree directory");
    assert_eq!(Feature::MultiExtentDirectory.name(), "multi-extent directory");
}

#[test]
fn disk_has_block_size_and_flex_size() {
    let d = disk(&sb());
    assert_eq!(d.block_size, 4096);
    assert_eq!(d.groups_per_flex, 16);
    assert_eq!(d.group_count(), 64);
    assert_eq!(d.desc_size(), 32);
    assert!(d.super_block.has_sparse_super_feature());
}

#[test]
fn inode_two_resolves_to_group_zero_index_one() {
    let mut s = sb();
    s.inodes_count = 2048;
    s.blocks_count = 8192;
    let d = disk(&s);
    assert_eq!(d.inode_location(2), Ok((0, 1)));
    let itable = 1234u64;
    assert_eq!(d.inode_offset(2, itable), Ok(itable * 4096 + 256));
    assert_eq!(d.inode_location(1), Ok((0, 0)));
    assert_eq!(d.inode_location(2048), Ok((0, 2047)));
}

#[test]
fn inode_location_spans_groups() {
    let d = disk(&sb());
    assert_eq!(d.inode_location(2049), Ok((1, 0)));
    assert_eq!(d.inode_location(4100), Ok((2, 3)));
    assert_eq!(d.inode_offset(4100, 10), Ok(10 * 4096 + 3 * 256));
}

#[test]
fn inode_zero_or_past_count_is_out_of_range() {
    let mut s = sb();
    s.inodes_count = 2048;
    let d = disk(&s);
    assert_eq!(d.inode_location(0), Err(FsError::OutOfRange));
    assert_eq!(d.inode_location(2049), Err(FsError::OutOfRange));
    assert_eq!(d.inode_offset(0, 5), Err(FsError::OutOfRange));
    assert_eq!(d.inode_offset(u32::MAX, 5), Err(FsError::OutOfRange));
}

#[test]
fn inode_offset_that_overflows_is_out_of_range() {
    let d = disk(&sb());
    assert_eq!(d.inode_offset(2, u64::MAX / 1024), Err(FsError::OutOfRange));
}

#[test]
fn descriptor_of_group_with_backup_follows_its_superblock() {
    let d = disk(&sb());
    // group 0: table at block 1
    assert_eq!(d.desc_offset(0), Ok(4096));
    // group 3 has a backup: table at block 3 * 8192 + 1, entry 3
    assert_eq!(d.desc_offset(3), Ok((3 * 8192 + 1) * 4096 + 3 * 32));
    // group 1 has a backup too
    assert_eq!(d.desc_offset(1), Ok((8192 + 1) * 4096 + 32));
}

#[test]
fn descriptor_of_group_without_backup_uses_its_flex_primary() {
    let d = disk(&sb());
    // group 2 has no backup; its flex group starts at group 0
    assert_eq!(d.desc_offset(2), Ok(4096 + 2 * 32));
    // group 27 has a backup of its own
    assert_eq!(d.desc_offset(27), Ok((27 * 8192 + 1) * 4096 + 27 * 32));
    // group 34: flex group starts at 32, which has no backup: primary table
    assert_eq!(d.desc_offset(34), Ok(4096 + 34 * 32));
}

#[test]
fn descriptor_primary_of_flex_group_with_backup() {
    let mut s = sb();
    s.log_groups_per_flex = 0;
    s.ro_compat = RO_COMPAT_SPARSE_SUPER;
    let d = disk(&s);
    assert_eq!(d.groups_per_flex, 1);
    // group 4 is its own flex primary and has no backup: primary table
    assert_eq!(d.desc_offset(4), Ok(4096 + 4 * 32));
    let mut s = sb();
    s.log_groups_per_flex = 1;
    let d = disk(&s);
    // group 26: flex primary is group 26 (no backup) -> primary table; group 28 likewise
    assert_eq!(d.desc_offset(26), Ok(4096 + 26 * 32));
    // group 50 with flex 2: primary 50, even -> primary table
    assert_eq!(d.desc_offset(50), Ok(4096 + 50 * 32));
}

#[test]
fn descriptor_of_group_past_count_is_out_of_range() {
    let d = disk(&sb());
    assert_eq!(d.desc_offset(64), Err(FsError::OutOfRange));
    assert_eq!(d.desc_offset(63), Ok(4096 + 63 * 32));
}

#[test]
fn descriptor_size_follows_64bit_feature() {
    let mut s = sb();
    s.incompat = INCOMPAT_64BIT;
    let d = disk(&s);
    assert_eq!(d.desc_size(), 64);
    assert_eq!(d.desc_offset(2), Ok(4096 + 2 * 64));
}

#[test]
fn first_data_block_shifts_descriptor_table() {
    let mut s = sb();
    s.log_block_size = 0;
    s.first_data_block = 1;
    s.blocks_count = 8192 * 4 + 2;
    let d = disk(&s);
    assert_eq!(d.block_size, 1024);
    assert_eq!(d.group_count(), 5);
    assert_eq!(d.desc_offset(0), Ok(2 * 1024));
    assert_eq!(d.desc_offset(1), Ok((8192 + 2) * 1024 + 32));
}

#[test]
fn superblock_with_bad_magic_or_divisors_is_corrupt() {
    let mut b = bytes(&sb());
    put16(&mut b, 56, 0x1234);
    assert!(matches!(Disk::new(&b), Err(FsError::CorruptFormat)));
    let mut s = sb();
    s.inodes_per_group = 0;
    assert!(matches!(Disk::new(&bytes(&s)), Err(FsError::CorruptFormat)));
    let mut s = sb();
    s.blocks_per_group = 0;
    assert!(matches!(Disk::new(&bytes(&s)), Err(FsError::CorruptFormat)));
    let mut s = sb();
    s.inode_size = 0;
    assert!(matches!(Disk::new(&bytes(&s)), Err(FsError::CorruptFormat)));
    let mut s = sb();
    s.log_block_size = 22;
    assert!(matches!(Disk::new(&bytes(&s)), Err(FsError::CorruptFormat)));
    let mut s = sb();
    s.log_groups_per_flex = 32;
    assert!(matches!(Disk::new(&bytes(&s)), Err(FsError::CorruptFormat)));
}

#[test]
fn short_superblock_is_io_error() {
    let b = bytes(&sb());
    assert!(matches!(Disk::new(&b[..1023]), Err(FsError::Io)));
    assert!(matches!(Disk::new(&[]), Err(FsError::Io)));
    assert!(Disk::new(&b).is_ok());
}

#[test]
fn itable_block_combines_halves_and_is_checked() {
    let mut s = sb();
    s.incompat = INCOMPAT_64BIT;
    let d = disk(&s);
    let mut gd = vec![0u8; 64];
    put32(&mut gd, 8, 77);
    assert_eq!(d.get_itable_blk_num(&gd), Ok(77));
    put32(&mut gd, 40, 1);
    assert_eq!(d.get_itable_blk_num(&gd), Err(FsError::CorruptFormat));
    assert_eq!(d.get_itable_blk_num(&gd[..32]), Err(FsError::Truncated));
    let d = disk(&sb());
    // 32-byte layout ignores what follows the entry
    assert_eq!(d.get_itable_blk_num(&gd[..32]), Ok(77));
}
