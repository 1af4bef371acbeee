use ext4_reader::{
    DirEntry2, DirStage, DirStep, Disk, Extent, ExtentHeader, FsError, GroupDesc, Inode,
    EXT4_EXTENTS_FL, EXT4_INDEX_FL, EXT4_INLINE_DATA_FL, EXTENT_MAGIC, FT_DIR, FT_REG_FILE,
    RO_COMPAT_SPARSE_SUPER, S_IFDIR, SUPERBLOCK_OFFSET,
};

const BS: usize = 4096;

fn put16(b: &mut [u8], off: usize, v: u16) {
    b[off..off + 2].copy_from_slice(&v.to_le_bytes());
}

fn put32(b: &mut [u8], off: usize, v: u32) {
    b[off..off + 4].copy_from_slice(&v.to_le_bytes());
}

/// A superblock for 4 KiB blocks, 64 blocks, one group of 2048 inodes.
fn superblock_bytes() -> Vec<u8> {
    let mut b = vec![0u8; 1024];
    put32(&mut b, 0, 2048); // s_inodes_count
    put32(&mut b, 4, 64); // s_blocks_count_lo
    put32(&mut b, 20, 0); // s_first_data_block
    put32(&mut b, 24, 2); // s_log_block_size
    put32(&mut b, 32, 8192); // s_blocks_per_group
    put32(&mut b, 40, 2048); // s_inodes_per_group
    put16(&mut b, 56, 0xEF53); // s_magic
    put16(&mut b, 88, 256); // s_inode_size
    put32(&mut b, 100, RO_COMPAT_SPARSE_SUPER);
    b
}

fn dir_entry(b: &mut [u8], off: usize, inode: u32, rec_len: u16, ft: u8, name: &[u8]) {
    put32(b, off, inode);
    put16(b, off + 4, rec_len);
    b[off + 6] = name.len() as u8;
    b[off + 7] = ft;
    b[off + 8..off + 8 + name.len()].copy_from_slice(name);
}

/// A small image: superblock in block 0, descriptor table in block 1,
/// inode table at block 5, the root directory's entries in block 10.
fn image(root_flags: u32, extents: &[(u32, u16, u32)], depth: u16) -> Vec<u8> {
    let mut img = vec![0u8; 12 * BS];
    let sb = superblock_bytes();
    img[1024..2048].copy_from_slice(&sb);
    // descriptor of group 0: inode table at block 5
    put32(&mut img, BS + 8, 5);
    // inode 2
    let ino = 5 * BS + 256;
    put16(&mut img, ino, S_IFDIR | 0o755);
    put32(&mut img, ino + 32, root_flags);
    let area = ino + 40;
    put16(&mut img, area, EXTENT_MAGIC);
    put16(&mut img, area + 2, extents.len() as u16);
    put16(&mut img, area + 4, 4);
    put16(&mut img, area + 6, depth);
    for (i, (lblk, len, start)) in extents.iter().enumerate() {
        let e = area + 12 * (i + 1);
        put32(&mut img, e, *lblk);
        put16(&mut img, e + 4, *len);
        put32(&mut img, e + 8, *start);
    }
    let blk = 10 * BS;
    dir_entry(&mut img, blk, 2, 12, FT_DIR, b".");
    dir_entry(&mut img, blk + 12, 2, 12, FT_DIR, b"..");
    dir_entry(&mut img, blk + 24, 12, (BS - 24) as u16, FT_REG_FILE, b"notes.txt");
    img
}

/// Runs a listing to its end, reading from `img` as a device would.
fn list(img: &[u8], inode: u32) -> Result<Vec<DirEntry2>, FsError> {
    let start = SUPERBLOCK_OFFSET as usize;
    let disk = Disk::new(&img[start..start + 1024])?;
    let mut step = disk.read_dir(inode);
    let mut reads = 0;
    loop {
        match step {
            DirStep::Done(v) => return Ok(v),
            DirStep::Failed(e) => return Err(e),
            DirStep::Read { stage, offset, len } => {
                reads += 1;
                assert!(reads <= 3);
                let (o, l) = (offset as usize, len as usize);
                let end = (o + l).min(img.len());
                let bytes = if o < img.len() { &img[o..end] } else { &img[0..0] };
                step = disk.read_dir_resume(stage, bytes);
            }
        }
    }
}

#[test]
fn lists_root_directory_of_image() {
    let img = image(EXT4_EXTENTS_FL, &[(0, 1, 10)], 0);
    let entries = list(&img, 2).unwrap();
    assert_eq!(entries.len(), 3);
    assert_eq!(entries[0].inode, 2);
    assert_eq!(entries[0].to_char().unwrap(), ".");
    assert_eq!(entries[1].to_char().unwrap(), "..");
    assert_eq!(entries[2].inode, 12);
    assert_eq!(entries[2].file_type, FT_REG_FILE);
    assert_eq!(entries[2].to_char().unwrap(), "notes.txt");
}

#[test]
fn listing_asks_for_descriptor_inode_and_block_in_turn() {
    let img = image(EXT4_EXTENTS_FL, &[(0, 1, 10)], 0);
    let disk = Disk::new(&img[1024..2048]).unwrap();
    match disk.read_dir(2) {
        DirStep::Read { stage, offset, len } => {
            assert_eq!(stage, DirStage::Descriptor { inode_num: 2 });
            assert_eq!(offset, BS as u64);
            assert_eq!(len, 32);
            match disk.read_dir_resume(stage, &img[BS..BS + 32]) {
                DirStep::Read { stage, offset, len } => {
                    assert_eq!(stage, DirStage::InodeRecord);
                    assert_eq!(offset, (5 * BS + 256) as u64);
                    assert_eq!(len, 160);
                    let o = offset as usize;
                    match disk.read_dir_resume(stage, &img[o..o + 160]) {
                        DirStep::Read { stage, offset, len } => {
                            assert_eq!(stage, DirStage::DataBlock);
                            assert_eq!(offset, (10 * BS) as u64);
                            assert_eq!(len, BS as u64);
                        }
                        other => panic!("unexpected step {:?}", other),
                    }
                }
                other => panic!("unexpected step {:?}", other),
            }
        }
        other => panic!("unexpected step {:?}", other),
    }
}

#[test]
fn listing_hashed_directory_is_unsupported() {
    let img = image(EXT4_EXTENTS_FL | EXT4_INDEX_FL, &[(0, 1, 10)], 0);
    assert_eq!(
        list(&img, 2).unwrap_err(),
        FsError::UnsupportedFeature(ext4_reader::Feature::HashedTreeDirectory)
    );
}

#[test]
fn listing_multi_extent_directory_is_unsupported() {
    let img = image(EXT4_EXTENTS_FL, &[(0, 1, 10), (1, 1, 11)], 0);
    assert_eq!(
        list(&img, 2).unwrap_err(),
        FsError::UnsupportedFeature(ext4_reader::Feature::MultiExtentDirectory)
    );
}

#[test]
fn listing_inline_directory_is_unsupported() {
    let img = image(EXT4_EXTENTS_FL | EXT4_INLINE_DATA_FL, &[(0, 1, 10)], 0);
    assert_eq!(
        list(&img, 2).unwrap_err(),
        FsError::UnsupportedFeature(ext4_reader::Feature::InlineData)
    );
}

#[test]
fn listing_internal_extent_node_stops_without_reading_on() {
    let img = image(EXT4_EXTENTS_FL, &[(0, 1, 10)], 1);
    let disk = Disk::new(&img[1024..2048]).unwrap();
    let o = 5 * BS + 256;
    let step = disk.read_dir_resume(DirStage::InodeRecord, &img[o..o + 160]);
    match step {
        DirStep::Failed(e) => assert_eq!(
            e,
            FsError::UnsupportedFeature(ext4_reader::Feature::InternalExtentNode)
        ),
        other => panic!("unexpected step {:?}", other),
    }
}

#[test]
fn listing_out_of_range_inode_fails_before_reading() {
    let img = image(EXT4_EXTENTS_FL, &[(0, 1, 10)], 0);
    let disk = Disk::new(&img[1024..2048]).unwrap();
    assert!(matches!(disk.read_dir(0), DirStep::Failed(FsError::OutOfRange)));
    assert!(matches!(disk.read_dir(2049), DirStep::Failed(FsError::OutOfRange)));
    assert!(matches!(disk.read_dir(2048), DirStep::Read { .. }));
}

#[test]
fn listing_short_read_is_io_error() {
    let img = image(EXT4_EXTENTS_FL, &[(0, 1, 10)], 0);
    let disk = Disk::new(&img[1024..2048]).unwrap();
    let step = disk.read_dir_resume(DirStage::Descriptor { inode_num: 2 }, &img[BS..BS + 10]);
    assert!(matches!(step, DirStep::Failed(FsError::Io)));
    let step = disk.read_dir_resume(DirStage::InodeRecord, &img[0..100]);
    assert!(matches!(step, DirStep::Failed(FsError::Io)));
    let step = disk.read_dir_resume(DirStage::DataBlock, &img[10 * BS..10 * BS + 100]);
    assert!(matches!(step, DirStep::Failed(FsError::Io)));
}

#[test]
fn listing_inode_table_outside_device_is_corrupt() {
    let mut img = image(EXT4_EXTENTS_FL, &[(0, 1, 10)], 0);
    put32(&mut img, BS + 8, 64);
    assert_eq!(list(&img, 2).unwrap_err(), FsError::CorruptFormat);
}

#[test]
fn decoded_inode_of_image_has_directory_fields() {
    let img = image(EXT4_EXTENTS_FL, &[(0, 1, 10)], 0);
    let o = 5 * BS + 256;
    let inode = Inode::from_bytes(&img, o).unwrap();
    assert!(inode.is_dir());
    assert!(inode.has_flag(EXT4_EXTENTS_FL));
    let ex: Vec<Extent> = inode.get_extents().unwrap();
    assert_eq!(ex.len(), 1);
    assert_eq!(ex[0].start_block(), 10);
    let h = ExtentHeader::from_bytes(&inode.i_block, 0).unwrap();
    assert_eq!(h.eh_magic, EXTENT_MAGIC);
    let gd = GroupDesc::from_short_bytes(&img, BS).unwrap();
    assert_eq!(gd.inode_table(), 5);
}
