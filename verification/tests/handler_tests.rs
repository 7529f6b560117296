use randfs::attrs::{FileKind, ATTR_TTL_SECS, FILE_INODE, ROOT_DIR_INODE};
use randfs::handler::RandFs;

#[test]
fn resolve_file_name() {
    let fs = RandFs::new();
    let (ino, attr) = fs.lookup(ROOT_DIR_INODE, "1.txt").expect("the fixed name must resolve");
    assert_eq!(ino, FILE_INODE);
    assert_eq!(attr.ino, FILE_INODE);
    assert_eq!(attr.kind, FileKind::RegularFile);
    assert_eq!(attr.nlink, 1);
    assert!(ATTR_TTL_SECS >= 1);
}

#[test]
fn resolve_unknown_name() {
    let fs = RandFs::new();
    assert!(fs.lookup(ROOT_DIR_INODE, "2.txt").is_none());
    assert!(fs.lookup(ROOT_DIR_INODE, "").is_none());
    assert!(fs.lookup(ROOT_DIR_INODE, "1.txt ").is_none());
    assert!(fs.lookup(ROOT_DIR_INODE, "1.TXT").is_none());
}

#[test]
fn resolve_wrong_parent() {
    let fs = RandFs::new();
    assert!(fs.lookup(FILE_INODE, "1.txt").is_none());
    assert!(fs.lookup(0, "1.txt").is_none());
    assert!(fs.lookup(99, "1.txt").is_none());
}

#[test]
fn root_attributes() {
    let fs = RandFs::new();
    let attr = fs.getattr(ROOT_DIR_INODE).expect("the root must have attributes");
    assert_eq!(attr.ino, ROOT_DIR_INODE);
    assert_eq!(attr.kind, FileKind::Directory);
    assert_eq!(attr.size, 0);
    assert_eq!(attr.nlink, 2);
}

#[test]
fn file_attributes_track_content() {
    let mut fs = RandFs::new();
    let bytes = fs.read(FILE_INODE, 0).expect("the file must be readable");
    let attr = fs.getattr(FILE_INODE).expect("the file must have attributes");
    assert_eq!(attr.kind, FileKind::RegularFile);
    assert_eq!(attr.size, bytes.len() as u64);
}

#[test]
fn unknown_inode_attributes() {
    let fs = RandFs::new();
    assert!(fs.getattr(0).is_none());
    assert!(fs.getattr(3).is_none());
    assert!(fs.getattr(99).is_none());
}

#[test]
fn read_from_start_non_empty() {
    let mut fs = RandFs::new();
    let bytes = fs.read(FILE_INODE, 0).expect("the file must be readable");
    assert!(bytes.len() >= 3);
    assert_eq!(&bytes[..2], b"0x");
    for b in &bytes[2..] {
        assert!(b.is_ascii_hexdigit());
    }
}

#[test]
fn reads_regenerate_at_zero() {
    let mut fs = RandFs::new();
    let first = fs.read(FILE_INODE, 0).expect("the file must be readable");
    let mut saw_different = false;
    for _ in 0..64 {
        let next = fs.read(FILE_INODE, 0).expect("the file must be readable");
        if next != first {
            saw_different = true;
        }
    }
    assert!(saw_different, "64 fresh read sequences never changed the content");
}

#[test]
fn read_suffix_stable() {
    let mut fs = RandFs::new();
    let full = fs.read(FILE_INODE, 0).expect("the file must be readable");
    let tail = fs.read(FILE_INODE, 2).expect("the file must be readable");
    assert_eq!(tail, full[2..].to_vec());
    let tail_again = fs.read(FILE_INODE, 2).expect("the file must be readable");
    assert_eq!(tail_again, tail);
    let attr = fs.getattr(FILE_INODE).expect("the file must have attributes");
    assert_eq!(attr.size, full.len() as u64);
}

#[test]
fn read_past_end_is_empty() {
    let mut fs = RandFs::new();
    let full = fs.read(FILE_INODE, 0).expect("the file must be readable");
    let beyond = fs.read(FILE_INODE, full.len() as i64 + 5).expect("the file must be readable");
    assert!(beyond.is_empty());
    let at_end = fs.read(FILE_INODE, full.len() as i64).expect("the file must be readable");
    assert!(at_end.is_empty());
}

#[test]
fn read_non_file_inode() {
    let mut fs = RandFs::new();
    assert!(fs.read(ROOT_DIR_INODE, 0).is_none());
    assert!(fs.read(7, 0).is_none());
}

#[test]
fn list_root_from_start() {
    let fs = RandFs::new();
    let entries = fs.readdir(ROOT_DIR_INODE, 0).expect("the root must be listable");
    assert_eq!(entries.len(), 3);
    assert_eq!(entries[0].name, ".");
    assert_eq!(entries[0].inode, ROOT_DIR_INODE);
    assert_eq!(entries[0].kind, FileKind::Directory);
    assert_eq!(entries[0].next_offset, 1);
    assert_eq!(entries[1].name, "..");
    assert_eq!(entries[1].inode, ROOT_DIR_INODE);
    assert_eq!(entries[1].kind, FileKind::Directory);
    assert_eq!(entries[1].next_offset, 2);
    assert_eq!(entries[2].name, "1.txt");
    assert_eq!(entries[2].inode, FILE_INODE);
    assert_eq!(entries[2].kind, FileKind::RegularFile);
    assert_eq!(entries[2].next_offset, 3);
}

#[test]
fn list_root_resumes_after_continuation_offset() {
    let fs = RandFs::new();
    let entries = fs.readdir(ROOT_DIR_INODE, 2).expect("the root must be listable");
    assert_eq!(entries.len(), 1);
    assert_eq!(entries[0].name, "1.txt");
    assert_eq!(entries[0].next_offset, 3);
}

#[test]
fn list_root_exhausted() {
    let fs = RandFs::new();
    assert!(fs.readdir(ROOT_DIR_INODE, 3).expect("the root must be listable").is_empty());
    assert!(fs.readdir(ROOT_DIR_INODE, 7).expect("the root must be listable").is_empty());
}

#[test]
fn list_non_root_inode() {
    let fs = RandFs::new();
    assert!(fs.readdir(FILE_INODE, 0).is_none());
    assert!(fs.readdir(42, 0).is_none());
}

#[test]
fn resolve_then_getattr_round_trip() {
    let fs = RandFs::new();
    let (ino, attr) = fs.lookup(ROOT_DIR_INODE, "1.txt").expect("the fixed name must resolve");
    let direct = fs.getattr(ino).expect("the resolved inode must have attributes");
    assert_eq!(direct, attr);
}
