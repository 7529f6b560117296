//! The fixed namespace: the two inode constants, the fixed file name, and the
//! attribute records of the root directory and of the single file.

use vstd::prelude::*;

verus! {

/// Inode of the root directory.
pub const ROOT_DIR_INODE: u64 = 1;

/// Inode of the single regular file.
pub const FILE_INODE: u64 = 2;

/// Cache-validity duration, in seconds, advertised with every successful
/// resolution or attribute reply.
pub const ATTR_TTL_SECS: u64 = 1;

/// What kind of filesystem object an inode names.
#[derive(Clone, Copy, Debug, PartialEq, Eq, Structural)]
pub enum FileKind {
    Directory,
    RegularFile,
}

/// The attribute record of one inode. Timestamps are seconds since the epoch;
/// every object here reports the epoch itself.
#[derive(Clone, Copy, Debug, PartialEq, Eq, Structural)]
pub struct FileAttributes {
    pub ino: u64,
    pub size: u64,
    pub blocks: u64,
    pub atime_secs: u64,
    pub mtime_secs: u64,
    pub ctime_secs: u64,
    pub crtime_secs: u64,
    pub kind: FileKind,
    pub perm: u16,
    pub nlink: u32,
    pub uid: u32,
    pub gid: u32,
    pub rdev: u32,
    pub flags: u32,
    pub blksize: u32,
}

/// The root directory's static attributes: a directory of size 0 with two
/// links.
pub open spec fn spec_dir_attributes() -> FileAttributes {
    FileAttributes {
        ino: ROOT_DIR_INODE,
        size: 0,
        blocks: 0,
        atime_secs: 0,
        mtime_secs: 0,
        ctime_secs: 0,
        crtime_secs: 0,
        kind: FileKind::Directory,
        perm: 0o755,
        nlink: 2,
        uid: 501,
        gid: 20,
        rdev: 0,
        flags: 0,
        blksize: 512,
    }
}

/// The file's attributes: a regular file with one link whose size is the byte
/// length of its current rendering.
pub open spec fn spec_file_attributes(size: u64) -> FileAttributes {
    FileAttributes {
        ino: FILE_INODE,
        size: size,
        blocks: 1,
        atime_secs: 0,
        mtime_secs: 0,
        ctime_secs: 0,
        crtime_secs: 0,
        kind: FileKind::RegularFile,
        perm: 0o644,
        nlink: 1,
        uid: 501,
        gid: 20,
        rdev: 0,
        flags: 0,
        blksize: 512,
    }
}

/// Builds the root directory's attribute record.
pub fn dir_attributes() -> (r: FileAttributes)
    ensures
        r == spec_dir_attributes(),
{
    FileAttributes {
        ino: ROOT_DIR_INODE,
        size: 0,
        blocks: 0,
        atime_secs: 0,
        mtime_secs: 0,
        ctime_secs: 0,
        crtime_secs: 0,
        kind: FileKind::Directory,
        perm: 0o755,
        nlink: 2,
        uid: 501,
        gid: 20,
        rdev: 0,
        flags: 0,
        blksize: 512,
    }
}

/// Builds the file's attribute record for the given content size.
pub fn file_attributes(size: u64) -> (r: FileAttributes)
    ensures
        r == spec_file_attributes(size),
{
    FileAttributes {
        ino: FILE_INODE,
        size: size,
        blocks: 1,
        atime_secs: 0,
        mtime_secs: 0,
        ctime_secs: 0,
        crtime_secs: 0,
        kind: FileKind::RegularFile,
        perm: 0o644,
        nlink: 1,
        uid: 501,
        gid: 20,
        rdev: 0,
        flags: 0,
        blksize: 512,
    }
}

/// The fixed name of the single file, as a sequence of characters.
pub open spec fn spec_file_name() -> Seq<char> {
    "1.txt"@
}

/// The fixed name of the single file.
pub fn file_name() -> (r: &'static str)
    ensures
        r@ == spec_file_name(),
{
    "1.txt"
}

} // verus!
