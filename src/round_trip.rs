use vstd::prelude::*;

use crate::directories::{
    lemma_dir_entry2_decode_encoding, lemma_dir_entry2_round_trip, DirEntry2,
    DIR_ENTRY_HEADER_LEN,
};
use crate::extents::{
    lemma_extent_decode_encoding, lemma_extent_header_decode_encoding,
    lemma_extent_header_round_trip, lemma_extent_idx_decode_encoding, lemma_extent_idx_round_trip,
    lemma_extent_round_trip, Extent, ExtentHeader, ExtentIdx, EXTENT_HEADER_LEN, EXTENT_IDX_LEN,
    EXTENT_LEN,
};
use crate::group_desc::{
    lemma_group_desc_decode_encoding, lemma_group_desc_round_trip, GroupDesc, GROUP_DESC_LEN,
};
use crate::inode::{lemma_inode_decode_encoding, lemma_inode_round_trip, Inode, INODE_LEN};
use crate::superblock::{
    lemma_superblock_decode_encoding, lemma_superblock_round_trip, Ext4SuperBlock, SUPERBLOCK_LEN,
};

verus! {

/// The decoders and encoders of the records that the metadata walk reads
/// are inverse to each other. Each record decoded from the start of `b`
/// encodes back to the bytes it was decoded from; and each record, encoded
/// and decoded again, keeps every field.
pub proof fn lemma_records_round_trip(
    b: Seq<u8>,
    sb: Ext4SuperBlock,
    gd: GroupDesc,
    ino: Inode,
    eh: ExtentHeader,
    ex: Extent,
    ei: ExtentIdx,
    de: DirEntry2,
)
    ensures
        b.len() >= SUPERBLOCK_LEN && sb.decodes(b, 0) ==> sb.encoding() == b.subrange(
            0,
            SUPERBLOCK_LEN as int,
        ),
        b.len() >= GROUP_DESC_LEN && gd.decodes(b, 0) ==> gd.encoding() == b.subrange(
            0,
            GROUP_DESC_LEN as int,
        ),
        b.len() >= INODE_LEN && ino.decodes(b, 0) ==> ino.encoding() == b.subrange(
            0,
            INODE_LEN as int,
        ),
        b.len() >= EXTENT_HEADER_LEN && eh.decodes(b, 0) ==> eh.encoding() == b.subrange(
            0,
            EXTENT_HEADER_LEN as int,
        ),
        b.len() >= EXTENT_LEN && ex.decodes(b, 0) ==> ex.encoding() == b.subrange(
            0,
            EXTENT_LEN as int,
        ),
        b.len() >= EXTENT_IDX_LEN && ei.decodes(b, 0) ==> ei.encoding() == b.subrange(
            0,
            EXTENT_IDX_LEN as int,
        ),
        b.len() >= DIR_ENTRY_HEADER_LEN && b.len() >= DIR_ENTRY_HEADER_LEN + b[6] && de.decodes(b, 0)
            ==> de.encoding() == b.subrange(0, DIR_ENTRY_HEADER_LEN + b[6]),
        sb.well_formed() ==> sb.decodes(sb.encoding(), 0),
        gd.decodes(gd.encoding(), 0),
        ino.well_formed() ==> ino.decodes(ino.encoding(), 0),
        eh.decodes(eh.encoding(), 0),
        ex.decodes(ex.encoding(), 0),
        ei.decodes(ei.encoding(), 0),
        de.name@.len() == de.name_len ==> de.decodes(de.encoding(), 0),
{
    if b.len() >= SUPERBLOCK_LEN && sb.decodes(b, 0) {
        lemma_superblock_round_trip(sb, b);
    }
    if b.len() >= GROUP_DESC_LEN && gd.decodes(b, 0) {
        lemma_group_desc_round_trip(gd, b);
    }
    if b.len() >= INODE_LEN && ino.decodes(b, 0) {
        lemma_inode_round_trip(ino, b);
    }
    if b.len() >= EXTENT_HEADER_LEN && eh.decodes(b, 0) {
        lemma_extent_header_round_trip(eh, b);
    }
    if b.len() >= EXTENT_LEN && ex.decodes(b, 0) {
        lemma_extent_round_trip(ex, b);
    }
    if b.len() >= EXTENT_IDX_LEN && ei.decodes(b, 0) {
        lemma_extent_idx_round_trip(ei, b);
    }
    if b.len() >= DIR_ENTRY_HEADER_LEN && b.len() >= DIR_ENTRY_HEADER_LEN + b[6] && de.decodes(b, 0) {
        lemma_dir_entry2_round_trip(de, b);
    }
    if sb.well_formed() {
        lemma_superblock_decode_encoding(sb);
    }
    lemma_group_desc_decode_encoding(gd);
    if ino.well_formed() {
        lemma_inode_decode_encoding(ino);
    }
    lemma_extent_header_decode_encoding(eh);
    lemma_extent_decode_encoding(ex);
    lemma_extent_idx_decode_encoding(ei);
    if de.name@.len() == de.name_len {
        lemma_dir_entry2_decode_encoding(de);
    }
}

} // verus!
