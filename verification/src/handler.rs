//! The request handler: holds the synthetic file's current value and answers
//! the four filesystem operations.

use vstd::prelude::*;

use crate::attrs::{
    dir_attributes, file_attributes, file_name, spec_dir_attributes, spec_file_attributes,
    spec_file_name, FileAttributes, FileKind, FILE_INODE, ROOT_DIR_INODE,
};
use crate::hex::{hex_render, lemma_hex_digits_len_u16, render_hex};

verus! {

/// Relies on rand::random: draws a fresh value from the thread-local
/// generator; nothing is promised of the result.
#[verifier::external_body]
fn random_u16() -> u16 {
    rand::random()
}

/// The synthetic file: a single value, rendered as hexadecimal text on
/// demand.
pub struct RandFsFile {
    pub data: u16,
}

impl RandFsFile {
    /// Creates the file holding a freshly drawn value.
    pub fn new() -> (r: RandFsFile) {
        RandFsFile { data: random_u16() }
    }

    /// Renders the current value; a read that starts at offset zero first
    /// replaces the value with a freshly drawn one, so that every new read
    /// sequence observes independent content.
    pub fn read(&mut self, offset: i64) -> (r: Vec<u8>)
        ensures
            r@ == hex_render(final(self).data as nat),
            r@.len() >= 3,
            offset != 0 ==> final(self).data == old(self).data,
    {
        if offset == 0 {
            self.data = random_u16();
        }
        render_hex(self.data)
    }
}

/// The request handler: the whole filesystem state.
pub struct RandFs {
    pub file: RandFsFile,
}

/// One entry of a directory listing: the child's inode and kind, its name,
/// and the offset at which a caller resumes immediately after this entry.
#[derive(Debug)]
pub struct DirectoryEntry {
    pub inode: u64,
    pub kind: FileKind,
    pub name: String,
    pub next_offset: i64,
}

/// The root directory's fixed entry table, in listing order: each entry is
/// (child inode, kind, name).
pub open spec fn spec_dir_listing() -> Seq<(u64, FileKind, Seq<char>)> {
    seq![
        (ROOT_DIR_INODE, FileKind::Directory, "."@),
        (ROOT_DIR_INODE, FileKind::Directory, ".."@),
        (FILE_INODE, FileKind::RegularFile, spec_file_name()),
    ]
}

/// The entry `e` renders the listing table's row `idx`: same child inode,
/// kind and name, and a continuation offset one past the row.
pub open spec fn entry_matches(e: DirectoryEntry, idx: int) -> bool {
    &&& e.inode == spec_dir_listing()[idx].0
    &&& e.kind == spec_dir_listing()[idx].1
    &&& e.name@ == spec_dir_listing()[idx].2
    &&& e.next_offset == idx + 1
}

/// The file's attributes for the handler's current synthetic value: its size
/// is the byte length of the value's rendering.
pub open spec fn spec_current_file_attributes(fs: RandFs) -> FileAttributes {
    spec_file_attributes(hex_render(fs.file.data as nat).len() as u64)
}

/// What resolving `name` under `parent` returns: the file's inode and current
/// attributes when `parent` is the root and `name` is the fixed file name,
/// nothing otherwise.
pub open spec fn spec_lookup(fs: RandFs, parent: u64, name: Seq<char>) -> Option<
    (u64, FileAttributes),
> {
    if parent == ROOT_DIR_INODE && name == spec_file_name() {
        Some((FILE_INODE, spec_current_file_attributes(fs)))
    } else {
        None
    }
}

/// What an attribute query returns: the static directory record for the root,
/// the current file record for the file inode, nothing for any other inode.
pub open spec fn spec_getattr(fs: RandFs, inode: u64) -> Option<FileAttributes> {
    if inode == ROOT_DIR_INODE {
        Some(spec_dir_attributes())
    } else if inode == FILE_INODE {
        Some(spec_current_file_attributes(fs))
    } else {
        None
    }
}

impl RandFs {
    /// Creates the handler with a freshly initialized synthetic file.
    pub fn new() -> (r: RandFs) {
        RandFs { file: RandFsFile::new() }
    }

    /// Resolves `name` inside the directory `parent`. Succeeds exactly when
    /// `parent` is the root and `name` is the fixed file name; the attributes
    /// returned carry the size of the current rendering. No side effects.
    pub fn lookup(&self, parent: u64, name: &str) -> (r: Option<(u64, FileAttributes)>)
        ensures
            r == spec_lookup(*self, parent, name@),
    {
        if parent == ROOT_DIR_INODE && name.to_owned() == file_name().to_owned() {
            let rendering = render_hex(self.file.data);
            Some((FILE_INODE, file_attributes(rendering.len() as u64)))
        } else {
            None
        }
    }

    /// Queries the attributes of `inode`. Succeeds exactly for the root
    /// directory and the file inode; a genuinely unknown inode yields
    /// nothing, rather than being conflated with the file inode.
    pub fn getattr(&self, inode: u64) -> (r: Option<FileAttributes>)
        ensures
            r == spec_getattr(*self, inode),
    {
        if inode == ROOT_DIR_INODE {
            Some(dir_attributes())
        } else if inode == FILE_INODE {
            let rendering = render_hex(self.file.data);
            Some(file_attributes(rendering.len() as u64))
        } else {
            None
        }
    }

    /// Reads the file's bytes from `offset` to the end of the rendering. A
    /// read starting at offset zero first draws a fresh value; any other
    /// offset leaves the value unchanged, so a read sequence continued from a
    /// nonzero offset observes stable content. An offset past the end yields
    /// an empty result. Any inode but the file's yields nothing.
    pub fn read(&mut self, inode: u64, offset: i64) -> (r: Option<Vec<u8>>)
        requires
            offset >= 0,
        ensures
            r is Some <==> inode == FILE_INODE,
            !(inode == FILE_INODE && offset == 0) ==> *final(self) == *old(self),
            inode == FILE_INODE ==> (r matches Some(bytes) && ({
                let rendering = hex_render(final(self).file.data as nat);
                &&& offset <= rendering.len() ==> bytes@ == rendering.skip(offset as int)
                &&& offset > rendering.len() ==> bytes@ == Seq::<u8>::empty()
                &&& offset == 0 ==> bytes@.len() >= 3
            })),
    {
        if inode != FILE_INODE {
            return None;
        }
        let full: Vec<u8> = self.file.read(offset);
        let len: usize = full.len();
        let start: usize = if offset as u64 >= len as u64 {
            len
        } else {
            offset as usize
        };
        let mut out: Vec<u8> = Vec::new();
        let mut i: usize = start;
        while i < len
            invariant
                start <= i <= len,
                len == full.len(),
                out@ == full@.subrange(start as int, i as int),
            decreases len - i,
        {
            out.push(full[i]);
            i = i + 1;
        }
        proof {
            assert(out@ =~= full@.skip(start as int));
            if offset > full@.len() {
                assert(out@ =~= Seq::<u8>::empty());
            }
        }
        Some(out)
    }

    /// Lists the root directory's entries starting at the table index
    /// `offset`; each entry carries the offset at which to resume right after
    /// it. An offset at or past the end of the table yields an empty listing;
    /// any inode but the root's yields nothing. No side effects.
    pub fn readdir(&self, inode: u64, offset: i64) -> (r: Option<Vec<DirectoryEntry>>)
        requires
            offset >= 0,
        ensures
            r is Some <==> inode == ROOT_DIR_INODE,
            r matches Some(entries) ==> ({
                &&& entries@.len() == if offset <= spec_dir_listing().len() {
                    spec_dir_listing().len() - offset
                } else {
                    0int
                }
                &&& forall|i: int|
                    0 <= i < entries@.len() ==> entry_matches(#[trigger] entries@[i], offset + i)
            }),
    {
        if inode != ROOT_DIR_INODE {
            return None;
        }
        let mut entries: Vec<DirectoryEntry> = Vec::new();
        if offset <= 0 {
            entries.push(
                DirectoryEntry {
                    inode: ROOT_DIR_INODE,
                    kind: FileKind::Directory,
                    name: ".".to_owned(),
                    next_offset: 1,
                },
            );
        }
        if offset <= 1 {
            entries.push(
                DirectoryEntry {
                    inode: ROOT_DIR_INODE,
                    kind: FileKind::Directory,
                    name: "..".to_owned(),
                    next_offset: 2,
                },
            );
        }
        if offset <= 2 {
            entries.push(
                DirectoryEntry {
                    inode: FILE_INODE,
                    kind: FileKind::RegularFile,
                    name: file_name().to_owned(),
                    next_offset: 3,
                },
            );
        }
        Some(entries)
    }
}

/// Law: resolution fails for every name other than the fixed file name and
/// for every parent other than the root directory.
pub proof fn lemma_lookup_not_found(fs: RandFs, parent: u64, name: Seq<char>)
    requires
        parent != ROOT_DIR_INODE || name != spec_file_name(),
    ensures
        spec_lookup(fs, parent, name) is None,
{
}

/// Law: the root directory's attributes always report a directory of size
/// zero with two links, whatever the handler's state.
pub proof fn lemma_root_attributes(fs: RandFs)
    ensures
        spec_getattr(fs, ROOT_DIR_INODE) matches Some(a) && a.kind == FileKind::Directory
            && a.size == 0 && a.nlink == 2,
{
}

/// Law: the file's attributes always report a regular file whose size is the
/// byte length of the current rendering of the synthetic value.
pub proof fn lemma_file_attributes(fs: RandFs)
    ensures
        spec_getattr(fs, FILE_INODE) matches Some(a) && a.kind == FileKind::RegularFile
            && a.size == hex_render(fs.file.data as nat).len(),
{
    lemma_hex_digits_len_u16(fs.file.data as nat);
}

/// Law (round trip): resolving the fixed file name under the root and then
/// querying the attributes of the returned inode yields exactly the
/// attributes that the resolution itself reported.
pub proof fn lemma_resolve_then_getattr(fs: RandFs)
    ensures
        spec_lookup(fs, ROOT_DIR_INODE, spec_file_name()) matches Some(entry)
            && spec_getattr(fs, entry.0) == Some(entry.1),
{
}

} // verus!
