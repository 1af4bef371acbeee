use vstd::prelude::*;

verus! {

/// An on-disk layout variant that is recognised but not decoded.
#[derive(Clone, Copy, Debug, PartialEq, Eq, Structural)]
pub enum Feature {
    /// Backup groups listed explicitly in the superblock (sparse_super2).
    SparseSuper2,
    /// An extent tree whose root is not a leaf.
    InternalExtentNode,
    /// File data stored inside the inode.
    InlineData,
    /// A directory indexed by a hashed tree.
    HashedTreeDirectory,
    /// A directory whose data spans more than one extent.
    MultiExtentDirectory,
}

impl Feature {
    /// A short human-readable name of the feature.
    pub fn name(&self) -> (r: &'static str)
        ensures
            r@ == match self {
                Feature::SparseSuper2 => "sparse superblock v2"@,
                Feature::InternalExtentNode => "internal extent node"@,
                Feature::InlineData => "inline data"@,
                Feature::HashedTreeDirectory => "hashed tree directory"@,
                Feature::MultiExtentDirectory => "multi-extent directory"@,
            },
    {
        match self {
            Feature::SparseSuper2 => "sparse superblock v2",
            Feature::InternalExtentNode => "internal extent node",
            Feature::InlineData => "inline data",
            Feature::HashedTreeDirectory => "hashed tree directory",
            Feature::MultiExtentDirectory => "multi-extent directory",
        }
    }
}

/// Why an operation failed.
#[derive(Clone, Copy, Debug, PartialEq, Eq, Structural)]
pub enum FsError {
    /// The device could not be read, or returned fewer bytes than asked for.
    Io,
    /// A buffer is shorter than the record decoded from it.
    Truncated,
    /// A decoded value breaks a structural rule of the format.
    CorruptFormat,
    /// A recognised but unsupported layout variant was met.
    UnsupportedFeature(Feature),
    /// An inode or group number lies outside the file system.
    OutOfRange,
}

} // verus!
