use vstd::prelude::*;
use vstd::slice::{slice_subrange, slice_to_vec};
use vstd::utf8::{decode_utf8, valid_utf8};

use crate::codec::{
    bytes16, bytes32, le16, le32, lemma_int_round_trips, lemma_join, push_bytes, push_u16,
    push_u32, push_u8, read_bytes, read_u16, read_u32, read_u8,
};
use crate::error::FsError;

verus! {

/// Size in bytes of the fixed part of a directory entry, before the name.
pub const DIR_ENTRY_HEADER_LEN: usize = 8;

/// File type code: unknown.
pub const FT_UNKNOWN: u8 = 0;
/// File type code: regular file.
pub const FT_REG_FILE: u8 = 1;
/// File type code: directory.
pub const FT_DIR: u8 = 2;
/// File type code: character device.
pub const FT_CHRDEV: u8 = 3;
/// File type code: block device.
pub const FT_BLKDEV: u8 = 4;
/// File type code: FIFO.
pub const FT_FIFO: u8 = 5;
/// File type code: socket.
pub const FT_SOCK: u8 = 6;
/// File type code: symbolic link.
pub const FT_SYMLINK: u8 = 7;
/// The number of regular file type codes.
pub const FT_MAX: u8 = 8;
/// File type code of the fake entry that holds a directory block's checksum.
pub const FT_DIR_CSUM: u8 = 0xDE;

/// The kind of file that a directory entry names.
#[derive(Clone, Copy, Debug, PartialEq, Eq, Structural)]
pub enum FileType {
    Unknown,
    RegFile,
    Dir,
    Chrdev,
    Blkdev,
    Fifo,
    Sock,
    Symlink,
    /// The checksum tail of a directory block.
    DirCsum,
    /// A code that the format does not define; kept as it was read.
    Other(u8),
}

/// The kind of file that a file type code stands for.
pub open spec fn spec_file_type(code: u8) -> FileType {
    if code == FT_UNKNOWN {
        FileType::Unknown
    } else if code == FT_REG_FILE {
        FileType::RegFile
    } else if code == FT_DIR {
        FileType::Dir
    } else if code == FT_CHRDEV {
        FileType::Chrdev
    } else if code == FT_BLKDEV {
        FileType::Blkdev
    } else if code == FT_FIFO {
        FileType::Fifo
    } else if code == FT_SOCK {
        FileType::Sock
    } else if code == FT_SYMLINK {
        FileType::Symlink
    } else if code == FT_DIR_CSUM {
        FileType::DirCsum
    } else {
        FileType::Other(code)
    }
}

impl FileType {
    /// The kind of file that a file type code stands for.
    pub fn from_code(code: u8) -> (r: FileType)
        ensures
            r == spec_file_type(code),
    {
        if code == FT_UNKNOWN {
            FileType::Unknown
        } else if code == FT_REG_FILE {
            FileType::RegFile
        } else if code == FT_DIR {
            FileType::Dir
        } else if code == FT_CHRDEV {
            FileType::Chrdev
        } else if code == FT_BLKDEV {
            FileType::Blkdev
        } else if code == FT_FIFO {
            FileType::Fifo
        } else if code == FT_SOCK {
            FileType::Sock
        } else if code == FT_SYMLINK {
            FileType::Symlink
        } else if code == FT_DIR_CSUM {
            FileType::DirCsum
        } else {
            FileType::Other(code)
        }
    }
}

/// Relies on `String::from_utf8`: it returns the string exactly when the
/// bytes are well-formed UTF-8, and the string holds the characters they encode.
#[verifier::external_body]
fn string_from_utf8(bytes: Vec<u8>) -> (r: Option<String>)
    ensures
        match r {
            Some(s) => valid_utf8(bytes@) && s@ == decode_utf8(bytes@),
            None => !valid_utf8(bytes@),
        },
{
    String::from_utf8(bytes).ok()
}

/// A directory entry with a 16-bit name length (the layout without file types).
#[derive(Clone, Debug)]
pub struct DirEntry {
    /// Number of the inode that this entry points to; 0 marks an unused entry.
    pub inode: u32,
    /// Length of this entry, name and padding included. A multiple of 4.
    pub rec_len: u16,
    /// Length of the name.
    pub name_len: u16,
    /// The name: `name_len` bytes.
    pub name: Vec<u8>,
}

impl DirEntry {
    /// Whether every field holds what the bytes from `b[off]` on encode.
    pub open spec fn decodes(&self, b: Seq<u8>, off: int) -> bool {
        &&& self.inode == le32(b, off)
        &&& self.rec_len == le16(b, off as int + 4)
        &&& self.name_len == le16(b, off + 6)
        &&& self.name@ == b.subrange(off + 8, off + 8 + self.name_len)
    }

    /// The on-disk bytes of this entry, without the padding up to `rec_len`.
    pub open spec fn encoding(&self) -> Seq<u8> {
        bytes32(self.inode) + bytes16(self.rec_len) + bytes16(self.name_len) + self.name@
    }

    /// Decodes the entry that starts at byte `off` of `buf`.
    pub fn from_bytes(buf: &[u8], off: usize) -> (r: Result<Self, FsError>)
        ensures
            match r {
                Ok(x) => off + DIR_ENTRY_HEADER_LEN + le16(buf@, off + 6) <= buf@.len()
                    && x.decodes(buf@, off as int),
                Err(e) => e == FsError::Truncated && (off + DIR_ENTRY_HEADER_LEN > buf@.len()
                    || off + DIR_ENTRY_HEADER_LEN + le16(buf@, off + 6) > buf@.len()),
            },
    {
        if off > buf.len() || buf.len() - off < DIR_ENTRY_HEADER_LEN {
            return Err(FsError::Truncated);
        }
        let name_len = read_u16(buf, off + 6);
        if buf.len() - off - DIR_ENTRY_HEADER_LEN < name_len as usize {
            return Err(FsError::Truncated);
        }
        Ok(DirEntry {
            inode: read_u32(buf, off),
            rec_len: read_u16(buf, off + 4),
            name_len,
            name: read_bytes(buf, off + DIR_ENTRY_HEADER_LEN, name_len as usize),
        })
    }

    /// Encodes the entry, without the padding up to `rec_len`.
    pub fn to_bytes(&self) -> (r: Vec<u8>)
        ensures
            r@ == self.encoding(),
    {
        let mut v: Vec<u8> = Vec::new();
        push_u32(&mut v, self.inode);
        push_u16(&mut v, self.rec_len);
        push_u16(&mut v, self.name_len);
        push_bytes(&mut v, &self.name);
        assert(v@ =~= self.encoding());
        v
    }
}

/// Decoding one entry from the start of a buffer and encoding it again
/// gives back its header and name bytes.
pub proof fn lemma_dir_entry_round_trip(x: DirEntry, b: Seq<u8>)
    requires
        b.len() >= DIR_ENTRY_HEADER_LEN,
        b.len() >= DIR_ENTRY_HEADER_LEN + le16(b, 6),
        x.decodes(b, 0),
    ensures
        x.encoding() == b.subrange(0, DIR_ENTRY_HEADER_LEN + le16(b, 6)),
{
    lemma_int_round_trips();
    lemma_join(b, 0, 4, 6);
    lemma_join(b, 0, 6, 8);
    lemma_join(b, 0, 8, DIR_ENTRY_HEADER_LEN + le16(b, 6));
}

/// Encoding one entry and decoding the bytes again gives back every field.
pub proof fn lemma_dir_entry_decode_encoding(x: DirEntry)
    requires
        x.name@.len() == x.name_len,
    ensures
        x.decodes(x.encoding(), 0),
{
    lemma_int_round_trips();
    let e = x.encoding();
    assert(e.subrange(0, 4) =~= bytes32(x.inode));
    assert(e.subrange(4, 6) =~= bytes16(x.rec_len));
    assert(e.subrange(6, 8) =~= bytes16(x.name_len));
    assert(e.subrange(8, 8 + x.name_len) =~= x.name@);
}

/// Encoding one entry and decoding the bytes again gives back every field.
pub proof fn lemma_dir_entry2_decode_encoding(x: DirEntry2)
    requires
        x.name@.len() == x.name_len,
    ensures
        x.decodes(x.encoding(), 0),
{
    lemma_int_round_trips();
    let e = x.encoding();
    assert(e.subrange(0, 4) =~= bytes32(x.inode));
    assert(e.subrange(4, 6) =~= bytes16(x.rec_len));
    assert(e[6] == x.name_len);
    assert(e[7] == x.file_type);
    assert(e.subrange(8, 8 + x.name_len) =~= x.name@);
}

/// A directory entry with an 8-bit name length and a file type code.
#[derive(Clone, Debug)]
pub struct DirEntry2 {
    /// Number of the inode that this entry points to; 0 marks the end of the block.
    pub inode: u32,
    /// Length of this entry, name and padding included: the distance to the
    /// next entry. A multiple of 4, at least 8.
    pub rec_len: u16,
    /// Length of the name.
    pub name_len: u8,
    /// File type code (`FT_*`).
    pub file_type: u8,
    /// The name: `name_len` bytes.
    pub name: Vec<u8>,
}

impl DirEntry2 {
    /// Whether every field holds what the bytes from `b[off]` on encode.
    pub open spec fn decodes(&self, b: Seq<u8>, off: int) -> bool {
        &&& self.inode == le32(b, off)
        &&& self.rec_len == le16(b, off as int + 4)
        &&& self.name_len == b[off + 6]
        &&& self.file_type == b[off + 7]
        &&& self.name@ == b.subrange(off + 8, off + 8 + self.name_len)
    }

    /// The on-disk bytes of this entry, without the padding up to `rec_len`.
    pub open spec fn encoding(&self) -> Seq<u8> {
        bytes32(self.inode) + bytes16(self.rec_len) + seq![self.name_len] + seq![self.file_type]
            + self.name@
    }

    /// Decodes the entry that starts at byte `off` of `buf`.
    pub fn from_bytes(buf: &[u8], off: usize) -> (r: Result<Self, FsError>)
        ensures
            match r {
                Ok(x) => off + DIR_ENTRY_HEADER_LEN + buf@[off + 6] <= buf@.len() && x.decodes(
                    buf@,
                    off as int,
                ),
                Err(e) => e == FsError::Truncated && (off + DIR_ENTRY_HEADER_LEN > buf@.len()
                    || off + DIR_ENTRY_HEADER_LEN + buf@[off + 6] > buf@.len()),
            },
    {
        if off > buf.len() || buf.len() - off < DIR_ENTRY_HEADER_LEN {
            return Err(FsError::Truncated);
        }
        let name_len = read_u8(buf, off + 6);
        if buf.len() - off - DIR_ENTRY_HEADER_LEN < name_len as usize {
            return Err(FsError::Truncated);
        }
        Ok(DirEntry2 {
            inode: read_u32(buf, off),
            rec_len: read_u16(buf, off + 4),
            name_len,
            file_type: read_u8(buf, off + 7),
            name: read_bytes(buf, off + DIR_ENTRY_HEADER_LEN, name_len as usize),
        })
    }

    /// Encodes the entry, without the padding up to `rec_len`.
    pub fn to_bytes(&self) -> (r: Vec<u8>)
        ensures
            r@ == self.encoding(),
    {
        let mut v: Vec<u8> = Vec::new();
        push_u32(&mut v, self.inode);
        push_u16(&mut v, self.rec_len);
        push_u8(&mut v, self.name_len);
        push_u8(&mut v, self.file_type);
        push_bytes(&mut v, &self.name);
        assert(v@ =~= self.encoding());
        v
    }

    /// The kind of file that the entry names.
    pub fn kind(&self) -> (r: FileType)
        ensures
            r == spec_file_type(self.file_type),
    {
        FileType::from_code(self.file_type)
    }

    /// The first `name_len` bytes of the name as a string: an error where
    /// they are not UTF-8, or where the name holds fewer bytes.
    pub fn to_char(&self) -> (r: Result<String, FsError>)
        ensures
            self.name@.len() < self.name_len ==> r == Err::<String, FsError>(FsError::Truncated),
            self.name@.len() >= self.name_len ==> match r {
                Ok(s) => valid_utf8(self.name@.subrange(0, self.name_len as int)) && s@
                    == decode_utf8(self.name@.subrange(0, self.name_len as int)),
                Err(e) => !valid_utf8(self.name@.subrange(0, self.name_len as int)) && e
                    == FsError::CorruptFormat,
            },
    {
        let n = self.name_len as usize;
        if self.name.len() < n {
            return Err(FsError::Truncated);
        }
        let bytes = slice_to_vec(slice_subrange(self.name.as_slice(), 0, n));
        match string_from_utf8(bytes) {
            Some(s) => Ok(s),
            None => Err(FsError::CorruptFormat),
        }
    }
}

/// Decoding one entry from the start of a buffer and encoding it again
/// gives back its header and name bytes.
pub proof fn lemma_dir_entry2_round_trip(x: DirEntry2, b: Seq<u8>)
    requires
        b.len() >= DIR_ENTRY_HEADER_LEN,
        b.len() >= DIR_ENTRY_HEADER_LEN + b[6],
        x.decodes(b, 0),
    ensures
        x.encoding() == b.subrange(0, DIR_ENTRY_HEADER_LEN + b[6]),
{
    lemma_int_round_trips();
    assert(seq![x.name_len] =~= b.subrange(6, 7));
    assert(seq![x.file_type] =~= b.subrange(7, 8));
    lemma_join(b, 0, 4, 6);
    lemma_join(b, 0, 6, 7);
    lemma_join(b, 0, 7, 8);
    lemma_join(b, 0, 8, DIR_ENTRY_HEADER_LEN + b[6]);
}

/// Size in bytes of an on-disk directory entry hash.
pub const DIR_ENTRY_HASH_LEN: usize = 8;

/// The hash stored after the name of an entry of a casefolded, encrypted directory.
#[derive(Clone, Copy, Debug, PartialEq, Eq, Structural)]
pub struct DirEntryHash {
    /// The hash of the name.
    pub hash: u32,
    /// The minor hash of the name.
    pub minor_hash: u32,
}

impl DirEntryHash {
    /// Whether every field holds what `b[off..off + DIR_ENTRY_HASH_LEN]` encodes.
    pub open spec fn decodes(&self, b: Seq<u8>, off: int) -> bool {
        *self == Self::spec_from_bytes(b, off)
    }

    /// The on-disk bytes of this record.
    pub open spec fn encoding(&self) -> Seq<u8> {
        bytes32(self.hash)
            + bytes32(self.minor_hash)
    }

    /// The record that `b[off..off + DIR_ENTRY_HASH_LEN]` encodes.
    pub open spec fn spec_from_bytes(b: Seq<u8>, off: int) -> Self {
        DirEntryHash {
            hash: le32(b, off),
            minor_hash: le32(b, off + 4),
        }
    }

    /// Decodes the record that starts at byte `off` of `buf`.
    pub fn from_bytes(buf: &[u8], off: usize) -> (r: Result<Self, FsError>)
        ensures
            match r {
                Ok(x) => off + DIR_ENTRY_HASH_LEN <= buf@.len() && x.decodes(buf@, off as int),
                Err(e) => off + DIR_ENTRY_HASH_LEN > buf@.len() && e == FsError::Truncated,
            },
    {
        if off > buf.len() || buf.len() - off < DIR_ENTRY_HASH_LEN {
            return Err(FsError::Truncated);
        }
        Ok(DirEntryHash {
            hash: read_u32(buf, off),
            minor_hash: read_u32(buf, off + 4),
        })
    }

    /// Encodes the record in its on-disk layout.
    pub fn to_bytes(&self) -> (r: Vec<u8>)
        ensures
            r@ == self.encoding(),
    {
        let mut v: Vec<u8> = Vec::new();
        push_u32(&mut v, self.hash);
        push_u32(&mut v, self.minor_hash);
        assert(v@ =~= self.encoding());
        v
    }
}

/// Decoding one directory entry hash from the first 8 bytes of a buffer and encoding it
/// again gives back those bytes: every byte of the layout belongs to one field.
pub proof fn lemma_dir_entry_hash_round_trip(x: DirEntryHash, b: Seq<u8>)
    requires
        b.len() >= DIR_ENTRY_HASH_LEN,
        x.decodes(b, 0),
    ensures
        x.encoding() == b.subrange(0, DIR_ENTRY_HASH_LEN as int),
{
    lemma_int_round_trips();
    lemma_join(b, 0, 4, 8);
}

/// Encoding one directory entry hash and decoding the bytes again gives back every field.
pub proof fn lemma_dir_entry_hash_decode_encoding(x: DirEntryHash)
    ensures
        DirEntryHash::spec_from_bytes(x.encoding(), 0) == x,
{
    lemma_int_round_trips();
    let e = x.encoding();
    assert(e.subrange(0, 4) =~= bytes32(x.hash));
    assert(e.subrange(4, 8) =~= bytes32(x.minor_hash));
}

/// Size in bytes of an on-disk hashed-tree index entry.
pub const DX_ENTRY_LEN: usize = 8;

/// An entry of a hashed-tree directory index: names hashing from `hash` on live in `block`.
#[derive(Clone, Copy, Debug, PartialEq, Eq, Structural)]
pub struct DxEntry {
    /// The smallest hash this entry covers.
    pub hash: u32,
    /// The directory block (a file block number) of the next level.
    pub block: u32,
}

impl DxEntry {
    /// Whether every field holds what `b[off..off + DX_ENTRY_LEN]` encodes.
    pub open spec fn decodes(&self, b: Seq<u8>, off: int) -> bool {
        *self == Self::spec_from_bytes(b, off)
    }

    /// The on-disk bytes of this record.
    pub open spec fn encoding(&self) -> Seq<u8> {
        bytes32(self.hash)
            + bytes32(self.block)
    }

    /// The record that `b[off..off + DX_ENTRY_LEN]` encodes.
    pub open spec fn spec_from_bytes(b: Seq<u8>, off: int) -> Self {
        DxEntry {
            hash: le32(b, off),
            block: le32(b, off + 4),
        }
    }

    /// Decodes the record that starts at byte `off` of `buf`.
    pub fn from_bytes(buf: &[u8], off: usize) -> (r: Result<Self, FsError>)
        ensures
            match r {
                Ok(x) => off + DX_ENTRY_LEN <= buf@.len() && x.decodes(buf@, off as int),
                Err(e) => off + DX_ENTRY_LEN > buf@.len() && e == FsError::Truncated,
            },
    {
        if off > buf.len() || buf.len() - off < DX_ENTRY_LEN {
            return Err(FsError::Truncated);
        }
        Ok(DxEntry {
            hash: read_u32(buf, off),
            block: read_u32(buf, off + 4),
        })
    }

    /// Encodes the record in its on-disk layout.
    pub fn to_bytes(&self) -> (r: Vec<u8>)
        ensures
            r@ == self.encoding(),
    {
        let mut v: Vec<u8> = Vec::new();
        push_u32(&mut v, self.hash);
        push_u32(&mut v, self.block);
        assert(v@ =~= self.encoding());
        v
    }
}

/// Decoding one hashed-tree index entry from the first 8 bytes of a buffer and encoding it
/// again gives back those bytes: every byte of the layout belongs to one field.
pub proof fn lemma_dx_entry_round_trip(x: DxEntry, b: Seq<u8>)
    requires
        b.len() >= DX_ENTRY_LEN,
        x.decodes(b, 0),
    ensures
        x.encoding() == b.subrange(0, DX_ENTRY_LEN as int),
{
    lemma_int_round_trips();
    lemma_join(b, 0, 4, 8);
}

/// Encoding one hashed-tree index entry and decoding the bytes again gives back every field.
pub proof fn lemma_dx_entry_decode_encoding(x: DxEntry)
    ensures
        DxEntry::spec_from_bytes(x.encoding(), 0) == x,
{
    lemma_int_round_trips();
    let e = x.encoding();
    assert(e.subrange(0, 4) =~= bytes32(x.hash));
    assert(e.subrange(4, 8) =~= bytes32(x.block));
}

/// Size in bytes of an on-disk hashed-tree root header.
pub const DX_ROOT_LEN: usize = 40;

/// The start of the first block of a hashed-tree directory: the `.` and
/// `..` entries, the tree's parameters and the first index entry.
#[derive(Clone, Debug)]
pub struct DxRoot {
    /// Inode number of `.`.
    pub dotinode: u32,
    /// Record length of `.` (12).
    pub dotrec_len: u16,
    /// Name length of `.` (1).
    pub dotname_len: u8,
    /// File type of `.`.
    pub dotfile_type: u8,
    /// `.` padded to four bytes.
    pub dotname: Vec<u8>,
    /// Inode number of `..`.
    pub dotdotinode: u32,
    /// Record length of `..`: the rest of the block.
    pub dotdotrec_len: u16,
    /// Name length of `..` (2).
    pub dotdotname_len: u8,
    /// File type of `..`.
    pub dotdotfile_type: u8,
    /// `..` padded to four bytes.
    pub dotdotname: Vec<u8>,
    /// Zero.
    pub reserved_zero: u32,
    /// Hash algorithm of the tree.
    pub hash_version: u8,
    /// Length of the tree information (8).
    pub info_length: u8,
    /// Depth of the tree.
    pub indirect_levels: u8,
    /// Unused flags.
    pub unused_flags: u8,
    /// Maximum number of index entries that fit after the header.
    pub limit: u16,
    /// Number of index entries that follow, this one included.
    pub count: u16,
    /// The block of the names that hash below the next entry's hash.
    pub block: u32,
}

impl DxRoot {
    /// Whether every field holds what `b[off..off + DX_ROOT_LEN]` encodes.
    pub open spec fn decodes(&self, b: Seq<u8>, off: int) -> bool {
        &&& self.dotinode == le32(b, off)
        &&& self.dotrec_len == le16(b, off as int + 4)
        &&& self.dotname_len == b[off + 6]
        &&& self.dotfile_type == b[off + 7]
        &&& self.dotname@ == b.subrange(off + 8, off + 12)
        &&& self.dotdotinode == le32(b, off + 12)
        &&& self.dotdotrec_len == le16(b, off + 16)
        &&& self.dotdotname_len == b[off + 18]
        &&& self.dotdotfile_type == b[off + 19]
        &&& self.dotdotname@ == b.subrange(off + 20, off + 24)
        &&& self.reserved_zero == le32(b, off + 24)
        &&& self.hash_version == b[off + 28]
        &&& self.info_length == b[off + 29]
        &&& self.indirect_levels == b[off + 30]
        &&& self.unused_flags == b[off + 31]
        &&& self.limit == le16(b, off + 32)
        &&& self.count == le16(b, off + 34)
        &&& self.block == le32(b, off + 36)
    }

    /// The on-disk bytes of this record.
    pub open spec fn encoding(&self) -> Seq<u8> {
        bytes32(self.dotinode)
            + bytes16(self.dotrec_len)
            + seq![self.dotname_len]
            + seq![self.dotfile_type]
            + self.dotname@
            + bytes32(self.dotdotinode)
            + bytes16(self.dotdotrec_len)
            + seq![self.dotdotname_len]
            + seq![self.dotdotfile_type]
            + self.dotdotname@
            + bytes32(self.reserved_zero)
            + seq![self.hash_version]
            + seq![self.info_length]
            + seq![self.indirect_levels]
            + seq![self.unused_flags]
            + bytes16(self.limit)
            + bytes16(self.count)
            + bytes32(self.block)
    }

    /// Whether each array field has its fixed length.
    pub open spec fn well_formed(&self) -> bool {
        &&& self.dotname@.len() == 4
        &&& self.dotdotname@.len() == 4
    }

    /// Decodes the record that starts at byte `off` of `buf`.
    pub fn from_bytes(buf: &[u8], off: usize) -> (r: Result<Self, FsError>)
        ensures
            match r {
                Ok(x) => off + DX_ROOT_LEN <= buf@.len() && x.decodes(buf@, off as int) && x.well_formed(),
                Err(e) => off + DX_ROOT_LEN > buf@.len() && e == FsError::Truncated,
            },
    {
        if off > buf.len() || buf.len() - off < DX_ROOT_LEN {
            return Err(FsError::Truncated);
        }
        Ok(DxRoot {
            dotinode: read_u32(buf, off),
            dotrec_len: read_u16(buf, off + 4),
            dotname_len: read_u8(buf, off + 6),
            dotfile_type: read_u8(buf, off + 7),
            dotname: read_bytes(buf, off + 8, 4),
            dotdotinode: read_u32(buf, off + 12),
            dotdotrec_len: read_u16(buf, off + 16),
            dotdotname_len: read_u8(buf, off + 18),
            dotdotfile_type: read_u8(buf, off + 19),
            dotdotname: read_bytes(buf, off + 20, 4),
            reserved_zero: read_u32(buf, off + 24),
            hash_version: read_u8(buf, off + 28),
            info_length: read_u8(buf, off + 29),
            indirect_levels: read_u8(buf, off + 30),
            unused_flags: read_u8(buf, off + 31),
            limit: read_u16(buf, off + 32),
            count: read_u16(buf, off + 34),
            block: read_u32(buf, off + 36),
        })
    }

    /// Encodes the record in its on-disk layout.
    pub fn to_bytes(&self) -> (r: Vec<u8>)
        ensures
            r@ == self.encoding(),
    {
        let mut v: Vec<u8> = Vec::new();
        push_u32(&mut v, self.dotinode);
        push_u16(&mut v, self.dotrec_len);
        push_u8(&mut v, self.dotname_len);
        push_u8(&mut v, self.dotfile_type);
        push_bytes(&mut v, &self.dotname);
        push_u32(&mut v, self.dotdotinode);
        push_u16(&mut v, self.dotdotrec_len);
        push_u8(&mut v, self.dotdotname_len);
        push_u8(&mut v, self.dotdotfile_type);
        push_bytes(&mut v, &self.dotdotname);
        push_u32(&mut v, self.reserved_zero);
        push_u8(&mut v, self.hash_version);
        push_u8(&mut v, self.info_length);
        push_u8(&mut v, self.indirect_levels);
        push_u8(&mut v, self.unused_flags);
        push_u16(&mut v, self.limit);
        push_u16(&mut v, self.count);
        push_u32(&mut v, self.block);
        assert(v@ =~= self.encoding());
        v
    }
}

/// Decoding one hashed-tree root header from the first 40 bytes of a buffer and encoding it
/// again gives back those bytes: every byte of the layout belongs to one field.
pub proof fn lemma_dx_root_round_trip(x: DxRoot, b: Seq<u8>)
    requires
        b.len() >= DX_ROOT_LEN,
        x.decodes(b, 0),
    ensures
        x.encoding() == b.subrange(0, DX_ROOT_LEN as int),
{
    lemma_int_round_trips();
    assert(seq![x.dotname_len] =~= b.subrange(6, 7));
    assert(seq![x.dotfile_type] =~= b.subrange(7, 8));
    assert(seq![x.dotdotname_len] =~= b.subrange(18, 19));
    assert(seq![x.dotdotfile_type] =~= b.subrange(19, 20));
    assert(seq![x.hash_version] =~= b.subrange(28, 29));
    assert(seq![x.info_length] =~= b.subrange(29, 30));
    assert(seq![x.indirect_levels] =~= b.subrange(30, 31));
    assert(seq![x.unused_flags] =~= b.subrange(31, 32));
    lemma_join(b, 0, 4, 6);
    lemma_join(b, 0, 6, 7);
    lemma_join(b, 0, 7, 8);
    lemma_join(b, 0, 8, 12);
    lemma_join(b, 0, 12, 16);
    lemma_join(b, 0, 16, 18);
    lemma_join(b, 0, 18, 19);
    lemma_join(b, 0, 19, 20);
    lemma_join(b, 0, 20, 24);
    lemma_join(b, 0, 24, 28);
    lemma_join(b, 0, 28, 29);
    lemma_join(b, 0, 29, 30);
    lemma_join(b, 0, 30, 31);
    lemma_join(b, 0, 31, 32);
    lemma_join(b, 0, 32, 34);
    lemma_join(b, 0, 34, 36);
    lemma_join(b, 0, 36, 40);
}

/// Whether a record length is valid for an entry with a name of
/// `name_len` bytes: a multiple of 4 that holds the header and the name.
pub open spec fn rec_len_ok(rec_len: u16, name_len: u8) -> bool {
    &&& rec_len >= DIR_ENTRY_HEADER_LEN
    &&& rec_len % 4 == 0
    &&& rec_len >= DIR_ENTRY_HEADER_LEN + name_len
}

/// The offsets of the entries of a directory block from `off` on, in
/// on-disk order: parsing stops at the end of the block or at an entry
/// whose inode number is 0, which is not included.
pub open spec fn spec_entry_offsets(b: Seq<u8>, off: nat) -> Result<Seq<nat>, FsError>
    decreases b.len() - off,
{
    if off >= b.len() {
        Ok(Seq::empty())
    } else if off + DIR_ENTRY_HEADER_LEN > b.len() {
        Err(FsError::Truncated)
    } else if le32(b, off as int) == 0 {
        Ok(Seq::empty())
    } else if off + DIR_ENTRY_HEADER_LEN + b[off as int + 6] > b.len() {
        Err(FsError::Truncated)
    } else if !rec_len_ok(le16(b, off as int + 4), b[off as int + 6]) {
        Err(FsError::CorruptFormat)
    } else if off + le16(b, off as int + 4) >= b.len() {
        Ok(seq![off])
    } else {
        match spec_entry_offsets(b, (off + le16(b, off as int + 4)) as nat) {
            Ok(rest) => Ok(seq![off] + rest),
            Err(e) => Err(e),
        }
    }
}

/// `r` with the offsets `front` put before its own.
pub open spec fn prepend_offsets(front: Seq<nat>, r: Result<Seq<nat>, FsError>) -> Result<
    Seq<nat>,
    FsError,
> {
    match r {
        Ok(rest) => Ok(front + rest),
        Err(e) => Err(e),
    }
}

/// Whether `v` holds, in order, the entries that start at `offs` in `b`.
pub open spec fn entries_at(v: Seq<DirEntry2>, b: Seq<u8>, offs: Seq<nat>) -> bool {
    &&& v.len() == offs.len()
    &&& forall|i: int| 0 <= i < v.len() ==> #[trigger] v[i].decodes(b, offs[i] as int)
}

/// Whether scanning a directory block from `off` passes from entry to entry
/// and comes to the entry at `s`.
pub open spec fn scan_reaches(b: Seq<u8>, off: nat, s: nat) -> bool
    decreases b.len() - off,
{
    if off == s {
        true
    } else if off > s || off + DIR_ENTRY_HEADER_LEN > b.len() || le32(b, off as int) == 0 || off
        + DIR_ENTRY_HEADER_LEN + b[off as int + 6] > b.len() || !rec_len_ok(
        le16(b, off as int + 4),
        b[off as int + 6],
    ) || off + le16(b, off as int + 4) >= b.len() {
        false
    } else {
        scan_reaches(b, (off + le16(b, off as int + 4)) as nat, s)
    }
}

/// An entry that a scan comes to lies at or before the entry it comes to next.
proof fn lemma_reaches_bound(b: Seq<u8>, off: nat, s: nat)
    requires
        scan_reaches(b, off, s),
    ensures
        off <= s,
{
}

/// Scanning from `off` up to the end marker at `s` gives the same result
/// on two blocks that agree on the bytes before `s + 4`, and every entry
/// it lists, name included, lies before `s`.
proof fn lemma_scan_prefix(b: Seq<u8>, b2: Seq<u8>, off: nat, s: nat)
    requires
        b.len() == b2.len(),
        s + 4 <= b.len(),
        le32(b, s as int) == 0,
        forall|i: int| 0 <= i < s + 4 ==> b[i] == b2[i],
        scan_reaches(b, off, s),
    ensures
        spec_entry_offsets(b2, off) == spec_entry_offsets(b, off),
        match spec_entry_offsets(b, off) {
            Ok(offs) => forall|i: int|
                0 <= i < offs.len() ==> offs[i] + DIR_ENTRY_HEADER_LEN + b[offs[i] as int + 6] <= s,
            Err(_) => true,
        },
    decreases b.len() - off,
{
    if off == s {
        assert(b.subrange(s as int, s as int + 4) =~= b2.subrange(s as int, s as int + 4));
    } else {
        let o = off as int;
        let next = (off + le16(b, o + 4)) as nat;
        lemma_reaches_bound(b, next, s);
        assert(b.subrange(o, o + 4) =~= b2.subrange(o, o + 4));
        assert(b.subrange(o + 4, o + 6) =~= b2.subrange(o + 4, o + 6));
        assert(b[o + 6] == b2[o + 6]);
        lemma_scan_prefix(b, b2, next, s);
        if let Ok(rest) = spec_entry_offsets(b, next) {
            let offs = seq![off] + rest;
            assert forall|i: int| 0 <= i < offs.len() implies offs[i] + DIR_ENTRY_HEADER_LEN + b[offs[i] as int
                + 6] <= s by {
                if i > 0 {
                    assert(offs[i] == rest[i - 1]);
                }
            }
        }
    }
}

/// Parsing stops at the end marker: two blocks of one length that agree on
/// every byte before the end of the marker's inode field give the same
/// entry offsets and the same entries, whatever follows.
pub proof fn lemma_bytes_after_end_marker_ignored(
    b: Seq<u8>,
    b2: Seq<u8>,
    s: nat,
    v: Seq<DirEntry2>,
)
    requires
        b.len() == b2.len(),
        s + 4 <= b.len(),
        le32(b, s as int) == 0,
        b.subrange(0, s as int + 4) == b2.subrange(0, s as int + 4),
        scan_reaches(b, 0, s),
    ensures
        spec_entry_offsets(b2, 0) == spec_entry_offsets(b, 0),
        match spec_entry_offsets(b, 0) {
            Ok(offs) => entries_at(v, b, offs) <==> entries_at(v, b2, offs),
            Err(_) => true,
        },
{
    assert forall|i: int| 0 <= i < s + 4 implies b[i] == b2[i] by {
        assert(b.subrange(0, s as int + 4)[i] == b[i]);
        assert(b2.subrange(0, s as int + 4)[i] == b2[i]);
    }
    lemma_scan_prefix(b, b2, 0, s);
    if let Ok(offs) = spec_entry_offsets(b, 0) {
        if v.len() == offs.len() {
            assert forall|i: int|
                #![trigger v[i].decodes(b, offs[i] as int)]
                #![trigger v[i].decodes(b2, offs[i] as int)]
                0 <= i < v.len() implies (v[i].decodes(b, offs[i] as int)
                <==> v[i].decodes(b2, offs[i] as int)) by {
                let o = offs[i] as int;
                assert(o + DIR_ENTRY_HEADER_LEN + b[o + 6] <= s);
                assert(b.subrange(o, o + 4) =~= b2.subrange(o, o + 4));
                assert(b.subrange(o + 4, o + 6) =~= b2.subrange(o + 4, o + 6));
                assert(b.subrange(o + 8, o + 8 + b[o + 6]) =~= b2.subrange(o + 8, o + 8 + b[o + 6]));
            }
        }
    }
}

/// Parses the entries of a directory block, from its first byte to the
/// end of the block or to the first entry whose inode number is 0.
pub fn parse_dir_block(block: &[u8]) -> (r: Result<Vec<DirEntry2>, FsError>)
    ensures
        match spec_entry_offsets(block@, 0) {
            Ok(offs) => r matches Ok(v) && entries_at(v@, block@, offs),
            Err(e) => r matches Err(e2) && e2 == e,
        },
{
    let len = block.len();
    let mut off: usize = 0;
    let mut v: Vec<DirEntry2> = Vec::new();
    let ghost mut offs: Seq<nat> = Seq::empty();
    assert(offs + Seq::<nat>::empty() =~= Seq::<nat>::empty());
    while off < len
        invariant
            len == block@.len(),
            off <= len,
            spec_entry_offsets(block@, 0) == prepend_offsets(
                offs,
                spec_entry_offsets(block@, off as nat),
            ),
            entries_at(v@, block@, offs),
        decreases len - off,
    {
        if len - off < DIR_ENTRY_HEADER_LEN {
            return Err(FsError::Truncated);
        }
        if read_u32(block, off) == 0 {
            assert(offs + Seq::<nat>::empty() =~= offs);
            assert(spec_entry_offsets(block@, 0) == Ok::<Seq<nat>, FsError>(offs));
            return Ok(v);
        }
        let e = match DirEntry2::from_bytes(block, off) {
            Ok(e) => e,
            Err(_) => return Err(FsError::Truncated),
        };
        if e.rec_len < 8 || e.rec_len % 4 != 0 || (e.rec_len as usize) < DIR_ENTRY_HEADER_LEN
            + e.name_len as usize {
            return Err(FsError::CorruptFormat);
        }
        let step = e.rec_len as usize;
        proof {
            let rest = spec_entry_offsets(block@, (off + step) as nat);
            if off + step >= len {
                assert(offs + seq![off as nat] =~= offs.push(off as nat) + Seq::<nat>::empty());
            } else if let Ok(r) = rest {
                assert(offs + (seq![off as nat] + r) =~= offs.push(off as nat) + r);
            }
            offs = offs.push(off as nat);
        }
        v.push(e);
        if step >= len - off {
            off = len;
        } else {
            off = off + step;
        }
    }
    assert(offs + Seq::<nat>::empty() =~= offs);
    assert(spec_entry_offsets(block@, 0) == Ok::<Seq<nat>, FsError>(offs));
    Ok(v)
}

/// The directory entry with a 16-bit name length, under its ext4 name.
pub type Ext4DirEntry = DirEntry;

/// The directory entry with a file type code, under its ext4 name.
pub type Ext4DirEntry2 = DirEntry2;

/// The directory entry hash, under its ext4 name.
pub type Ext4DirEntryHash = DirEntryHash;

/// Encoding one hashed-tree root header and decoding the bytes again gives back every field.
pub proof fn lemma_dx_root_decode_encoding(x: DxRoot)
    requires
        x.well_formed(),
    ensures
        x.decodes(x.encoding(), 0),
{
    lemma_int_round_trips();
    let e = x.encoding();
    assert(e.subrange(0, 4) =~= bytes32(x.dotinode));
    assert(e.subrange(4, 6) =~= bytes16(x.dotrec_len));
    assert(e[6] == x.dotname_len);
    assert(e[7] == x.dotfile_type);
    assert(e.subrange(8, 12) =~= x.dotname@);
    assert(e.subrange(12, 16) =~= bytes32(x.dotdotinode));
    assert(e.subrange(16, 18) =~= bytes16(x.dotdotrec_len));
    assert(e[18] == x.dotdotname_len);
    assert(e[19] == x.dotdotfile_type);
    assert(e.subrange(20, 24) =~= x.dotdotname@);
    assert(e.subrange(24, 28) =~= bytes32(x.reserved_zero));
    assert(e[28] == x.hash_version);
    assert(e[29] == x.info_length);
    assert(e[30] == x.indirect_levels);
    assert(e[31] == x.unused_flags);
    assert(e.subrange(32, 34) =~= bytes16(x.limit));
    assert(e.subrange(34, 36) =~= bytes16(x.count));
    assert(e.subrange(36, 40) =~= bytes32(x.block));
}

} // verus!
