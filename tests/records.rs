use ext4_reader::{
    parse_dir_block, walk_extent_root, DirEntry, DirEntry2, DirEntryHash, DxEntry, DxRoot,
    Ext4SuperBlock, Extent, ExtentHeader, ExtentIdx, ExtentTail, Feature, FileType, FsError,
    GroupDesc, Inode, EXTENT_MAGIC, FT_DIR, FT_DIR_CSUM, FT_REG_FILE, FT_SYMLINK,
};

fn pattern(n: usize, seed: u8) -> Vec<u8> {
    (0..n).map(|i| (i as u8).wrapping_mul(37).wrapping_add(seed)).collect()
}

fn header(entries: u16, depth: u16) -> Vec<u8> {
    let mut b = Vec::new();
    b.extend_from_slice(&EXTENT_MAGIC.to_le_bytes());
    b.extend_from_slice(&entries.to_le_bytes());
    b.extend_from_slice(&4u16.to_le_bytes());
    b.extend_from_slice(&depth.to_le_bytes());
    b.extend_from_slice(&0u32.to_le_bytes());
    b
}

fn extent(block: u32, len: u16, hi: u16, lo: u32) -> Vec<u8> {
    let mut b = Vec::new();
    b.extend_from_slice(&block.to_le_bytes());
    b.extend_from_slice(&len.to_le_bytes());
    b.extend_from_slice(&hi.to_le_bytes());
    b.extend_from_slice(&lo.to_le_bytes());
    b
}

fn entry(inode: u32, rec_len: u16, ft: u8, name: &[u8]) -> Vec<u8> {
    let mut b = Vec::new();
    b.extend_from_slice(&inode.to_le_bytes());
    b.extend_from_slice(&rec_len.to_le_bytes());
    b.push(name.len() as u8);
    b.push(ft);
    b.extend_from_slice(name);
    b.resize(rec_len as usize, 0);
    b
}

#[test]
fn fixed_records_round_trip() {
    let b = pattern(1024, 3);
    assert_eq!(Ext4SuperBlock::from_bytes(&b, 0).unwrap().to_bytes(), b);
    let b = pattern(160, 5);
    assert_eq!(Inode::from_bytes(&b, 0).unwrap().to_bytes(), b);
    let b = pattern(64, 7);
    assert_eq!(GroupDesc::from_bytes(&b, 0).unwrap().to_bytes(), b);
    let b = pattern(12, 9);
    assert_eq!(ExtentHeader::from_bytes(&b, 0).unwrap().to_bytes(), b);
    assert_eq!(Extent::from_bytes(&b, 0).unwrap().to_bytes(), b);
    assert_eq!(ExtentIdx::from_bytes(&b, 0).unwrap().to_bytes(), b);
    let b = pattern(4, 11);
    assert_eq!(ExtentTail::from_bytes(&b, 0).unwrap().to_bytes(), b);
    let b = pattern(8, 13);
    assert_eq!(DirEntryHash::from_bytes(&b, 0).unwrap().to_bytes(), b);
    assert_eq!(DxEntry::from_bytes(&b, 0).unwrap().to_bytes(), b);
    let b = pattern(40, 15);
    assert_eq!(DxRoot::from_bytes(&b, 0).unwrap().to_bytes(), b);
}

#[test]
fn records_decode_at_offset_little_endian() {
    let mut b = vec![0xAAu8; 3];
    b.extend_from_slice(&extent(0x0102_0304, 0x0506, 0x0708, 0x090A_0B0C));
    let e = Extent::from_bytes(&b, 3).unwrap();
    assert_eq!(e.ee_block, 0x0102_0304);
    assert_eq!(e.ee_len, 0x0506);
    assert_eq!(e.ee_start_hi, 0x0708);
    assert_eq!(e.ee_start_lo, 0x090A_0B0C);
    assert_eq!(e.start_block(), 0x0708_090A_0B0C);
}

#[test]
fn superblock_fields_sit_at_their_offsets() {
    let mut b = vec![0u8; 1024];
    b[56..58].copy_from_slice(&0xEF53u16.to_le_bytes());
    b[104..120].copy_from_slice(&[9u8; 16]);
    b[236..240].copy_from_slice(&0xDEAD_BEEFu32.to_le_bytes());
    b[360..368].copy_from_slice(&0x0102_0304_0506_0708u64.to_le_bytes());
    b[372] = 4;
    b[1020..1024].copy_from_slice(&7u32.to_le_bytes());
    let sb = Ext4SuperBlock::from_bytes(&b, 0).unwrap();
    assert_eq!(sb.s_magic, 0xEF53);
    assert_eq!(sb.s_uuid, vec![9u8; 16]);
    assert_eq!(sb.s_hash_seed[0], 0xDEAD_BEEF);
    assert_eq!(sb.s_hash_seed.len(), 4);
    assert_eq!(sb.s_jnl_blocks.len(), 17);
    assert_eq!(sb.s_reserved.len(), 94);
    assert_eq!(sb.s_mmp_block, 0x0102_0304_0506_0708);
    assert_eq!(sb.s_log_groups_per_flex, 4);
    assert_eq!(sb.s_checksum, 7);
}

#[test]
fn short_buffers_are_truncated() {
    assert!(matches!(Ext4SuperBlock::from_bytes(&[0u8; 1023], 0), Err(FsError::Truncated)));
    assert!(matches!(Inode::from_bytes(&[0u8; 200], 41), Err(FsError::Truncated)));
    assert!(matches!(Extent::from_bytes(&[0u8; 12], 1), Err(FsError::Truncated)));
    assert!(matches!(Extent::from_bytes(&[0u8; 12], 13), Err(FsError::Truncated)));
    assert!(matches!(GroupDesc::from_short_bytes(&[0u8; 31], 0), Err(FsError::Truncated)));
    assert!(matches!(DirEntry2::from_bytes(&entry(2, 12, 2, b"abcd")[..11], 0), Err(FsError::Truncated)));
}

#[test]
fn short_group_descriptor_has_zero_upper_halves() {
    let b = pattern(64, 1);
    let gd = GroupDesc::from_short_bytes(&b, 0).unwrap();
    let full = GroupDesc::from_bytes(&b, 0).unwrap();
    assert_eq!(gd.bg_inode_table_lo, full.bg_inode_table_lo);
    assert_eq!(gd.bg_checksum, full.bg_checksum);
    assert_eq!(gd.bg_inode_table_hi, 0);
    assert_eq!(gd.inode_table(), gd.bg_inode_table_lo as u64);
    assert_eq!(
        full.inode_table(),
        ((full.bg_inode_table_hi as u64) << 32) | full.bg_inode_table_lo as u64
    );
}

#[test]
fn walker_returns_single_leaf_extent() {
    let mut area = header(1, 0);
    area.extend_from_slice(&extent(0, 4, 0, 100));
    area.resize(60, 0);
    let v = walk_extent_root(&area).unwrap();
    assert_eq!(v.len(), 1);
    assert_eq!(v[0].ee_block, 0);
    assert_eq!(v[0].block_count(), 4);
    assert_eq!(v[0].start_block(), 100);
    assert!(!v[0].is_uninitialized());
}

#[test]
fn walker_keeps_on_disk_order() {
    let mut area = header(3, 0);
    area.extend_from_slice(&extent(20, 1, 0, 7));
    area.extend_from_slice(&extent(0, 2, 1, 5));
    area.extend_from_slice(&extent(10, 32770, 0, 9));
    area.resize(60, 0);
    let v = walk_extent_root(&area).unwrap();
    assert_eq!(v.iter().map(|e| e.ee_block).collect::<Vec<_>>(), vec![20, 0, 10]);
    assert_eq!(v[1].start_block(), (1u64 << 32) + 5);
    assert_eq!(v[2].block_count(), 2);
    assert!(v[2].is_uninitialized());
}

#[test]
fn walker_reports_internal_node() {
    let mut area = header(1, 1);
    area.extend_from_slice(&extent(0, 4, 0, 100));
    area.resize(60, 0);
    assert_eq!(
        walk_extent_root(&area).unwrap_err(),
        FsError::UnsupportedFeature(Feature::InternalExtentNode)
    );
    assert_eq!(Feature::InternalExtentNode.name(), "internal extent node");
    let idx = ExtentIdx::from_bytes(&extent(0, 4, 0, 100), 0).unwrap();
    assert_eq!(idx.leaf_block(), (100u64 << 32) + 4);
}

#[test]
fn walker_rejects_bad_magic_and_overfull_root() {
    let mut area = header(1, 0);
    area[0] = 0;
    area.resize(60, 0);
    assert_eq!(walk_extent_root(&area).unwrap_err(), FsError::CorruptFormat);
    let mut area = header(5, 0);
    area.resize(60, 0);
    assert_eq!(walk_extent_root(&area).unwrap_err(), FsError::CorruptFormat);
    let mut area = header(4, 0);
    area.resize(60, 0);
    assert_eq!(walk_extent_root(&area).unwrap().len(), 4);
    assert_eq!(walk_extent_root(&area[..11]).unwrap_err(), FsError::Truncated);
}

#[test]
fn empty_leaf_root_has_no_extents() {
    let mut area = header(0, 0);
    area.resize(60, 0);
    assert!(walk_extent_root(&area).unwrap().is_empty());
}

#[test]
fn parses_dot_and_dotdot_then_stops_at_sentinel() {
    let mut block = entry(2, 12, FT_DIR, b".");
    block.extend_from_slice(&entry(2, 12, FT_DIR, b".."));
    block.extend_from_slice(&entry(0, 12, 0, b"zz"));
    block.extend_from_slice(&entry(77, 1024 - 36, FT_REG_FILE, b"hidden"));
    let v = parse_dir_block(&block).unwrap();
    assert_eq!(v.len(), 2);
    assert_eq!((v[0].inode, v[0].rec_len, v[0].name.as_slice()), (2, 12, &b"."[..]));
    assert_eq!((v[1].inode, v[1].rec_len, v[1].name.as_slice()), (2, 12, &b".."[..]));
}

#[test]
fn parses_dotdot_spanning_rest_of_block() {
    let mut block = entry(2, 12, FT_DIR, b".");
    block.extend_from_slice(&entry(2, 4096 - 12, FT_DIR, b".."));
    let v = parse_dir_block(&block).unwrap();
    assert_eq!(v.len(), 2);
    assert_eq!(v[1].to_char().unwrap(), "..");
    assert_eq!(v[1].kind(), FileType::Dir);
}

#[test]
fn empty_block_and_leading_sentinel_give_no_entries() {
    assert!(parse_dir_block(&[]).unwrap().is_empty());
    assert!(parse_dir_block(&[0u8; 4096]).unwrap().is_empty());
}

#[test]
fn bad_record_length_is_corrupt() {
    let block = entry(2, 12, FT_DIR, b".");
    let mut bad = block.clone();
    bad[4..6].copy_from_slice(&10u16.to_le_bytes());
    assert_eq!(parse_dir_block(&bad).unwrap_err(), FsError::CorruptFormat);
    let mut zero = block.clone();
    zero[4..6].copy_from_slice(&0u16.to_le_bytes());
    assert_eq!(parse_dir_block(&zero).unwrap_err(), FsError::CorruptFormat);
    let mut tail = block;
    tail.extend_from_slice(&[5, 0, 0, 0]);
    assert_eq!(parse_dir_block(&tail).unwrap_err(), FsError::Truncated);
}

#[test]
fn dir_entries_round_trip_and_name_as_string() {
    let b = entry(11, 16, FT_SYMLINK, "héllo".as_bytes());
    let e = DirEntry2::from_bytes(&b, 0).unwrap();
    assert_eq!(e.to_bytes(), b[..8 + 6].to_vec());
    assert_eq!(e.to_char().unwrap(), "héllo");
    assert_eq!(e.kind(), FileType::Symlink);
    let bad = entry(11, 12, FT_REG_FILE, &[0xFF, 0xFE]);
    assert_eq!(DirEntry2::from_bytes(&bad, 0).unwrap().to_char(), Err(FsError::CorruptFormat));
    let mut old = Vec::new();
    old.extend_from_slice(&9u32.to_le_bytes());
    old.extend_from_slice(&12u16.to_le_bytes());
    old.extend_from_slice(&3u16.to_le_bytes());
    old.extend_from_slice(b"abc");
    let d = DirEntry::from_bytes(&old, 0).unwrap();
    assert_eq!((d.inode, d.rec_len, d.name_len), (9, 12, 3));
    assert_eq!(d.to_bytes(), old);
}

#[test]
fn file_type_codes() {
    assert_eq!(FileType::from_code(0), FileType::Unknown);
    assert_eq!(FileType::from_code(FT_REG_FILE), FileType::RegFile);
    assert_eq!(FileType::from_code(FT_DIR), FileType::Dir);
    assert_eq!(FileType::from_code(3), FileType::Chrdev);
    assert_eq!(FileType::from_code(4), FileType::Blkdev);
    assert_eq!(FileType::from_code(5), FileType::Fifo);
    assert_eq!(FileType::from_code(6), FileType::Sock);
    assert_eq!(FileType::from_code(7), FileType::Symlink);
    assert_eq!(FileType::from_code(FT_DIR_CSUM), FileType::DirCsum);
    assert_eq!(FileType::from_code(9), FileType::Other(9));
}

#[test]
fn walker_rejects_more_entries_than_capacity() {
    let mut area = header(2, 0);
    area[4..6].copy_from_slice(&1u16.to_le_bytes());
    area.extend_from_slice(&extent(0, 1, 0, 100));
    area.extend_from_slice(&extent(1, 1, 0, 101));
    area.resize(60, 0);
    assert_eq!(walk_extent_root(&area).unwrap_err(), FsError::CorruptFormat);
    area[4..6].copy_from_slice(&2u16.to_le_bytes());
    assert_eq!(walk_extent_root(&area).unwrap().len(), 2);
}

#[test]
fn record_shorter_than_its_name_is_corrupt() {
    let mut block = entry(2, 12, FT_DIR, b".");
    let mut long = entry(5, 16, FT_REG_FILE, b"abcdefgh");
    long[4..6].copy_from_slice(&12u16.to_le_bytes());
    block.extend_from_slice(&long);
    block.resize(64, 0);
    assert_eq!(parse_dir_block(&block).unwrap_err(), FsError::CorruptFormat);
}

#[test]
fn bytes_after_end_marker_do_not_matter() {
    let mut block = entry(2, 12, FT_DIR, b".");
    block.extend_from_slice(&entry(2, 12, FT_DIR, b".."));
    block.extend_from_slice(&entry(0, 12, 0, b""));
    block.resize(4096, 0);
    let first = parse_dir_block(&block).unwrap();
    for (i, byte) in block.iter_mut().enumerate().skip(28) {
        *byte = (i as u8).wrapping_mul(31).wrapping_add(1);
    }
    let second = parse_dir_block(&block).unwrap();
    assert_eq!(first.len(), 2);
    assert_eq!(second.len(), 2);
    for (a, b) in first.iter().zip(second.iter()) {
        assert_eq!((a.inode, a.rec_len, &a.name), (b.inode, b.rec_len, &b.name));
    }
}

#[test]
fn name_uses_its_length_field() {
    let b = entry(11, 16, FT_REG_FILE, b"abcdef");
    let mut e = DirEntry2::from_bytes(&b, 0).unwrap();
    e.name.extend_from_slice(b"zz");
    assert_eq!(e.to_char().unwrap(), "abcdef");
    e.name.truncate(3);
    assert_eq!(e.to_char(), Err(FsError::Truncated));
}
