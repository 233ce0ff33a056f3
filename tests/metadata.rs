use openat::metadata::{major, minor};
use openat::{Metadata, SimpleType, Timespec};

fn meta(mode: u32) -> Metadata {
    let t = Timespec { sec: 1_000, nsec: 5 };
    Metadata {
        dev: libc::makedev(8, 1),
        ino: 99,
        nlink: 2,
        mode,
        uid: 1000,
        gid: 100,
        rdev: libc::makedev(4, 64),
        size: 4096,
        blksize: 512,
        blocks: 8,
        atime: t,
        mtime: Timespec { sec: 2_000, nsec: 0 },
        ctime: t,
    }
}

#[test]
fn dir() {
    let m = meta(libc::S_IFDIR | 0o755);
    assert_eq!(m.simple_type(), SimpleType::Dir);
    assert!(m.is_dir());
    assert!(!m.is_file());
}

#[test]
fn file() {
    let m = meta(libc::S_IFREG | 0o644);
    assert_eq!(m.simple_type(), SimpleType::File);
    assert!(!m.is_dir());
    assert!(m.is_file());
}

#[test]
fn other_types() {
    assert_eq!(meta(libc::S_IFLNK | 0o777).simple_type(), SimpleType::Symlink);
    assert_eq!(meta(libc::S_IFIFO | 0o600).simple_type(), SimpleType::Other);
    assert_eq!(meta(0o600).simple_type(), SimpleType::Unknown);
}

#[test]
fn accessors() {
    let m = meta(libc::S_IFREG | 0o4755);
    assert_eq!(m.mode(), Some(libc::S_IFREG | 0o4755));
    assert_eq!(m.file_type(), Some(libc::S_IFREG));
    assert_eq!(m.file_mode(), Some(0o4755));
    assert_eq!(m.ino(), Some(99));
    assert_eq!(m.nlink(), Some(2));
    assert_eq!(m.uid(), Some(1000));
    assert_eq!(m.gid(), Some(100));
    assert_eq!(m.size(), Some(4096));
    assert_eq!(m.len(), 4096);
    assert_eq!(m.blksize(), Some(512));
    assert_eq!(m.blocks(), Some(8));
    assert_eq!(m.atime(), Some(Timespec { sec: 1_000, nsec: 5 }));
    assert_eq!(m.mtime(), Some(Timespec { sec: 2_000, nsec: 0 }));
    assert_eq!(m.ctime(), Some(Timespec { sec: 1_000, nsec: 5 }));
    assert_eq!(m.btime(), None);
}

#[test]
fn device_numbers() {
    let m = meta(libc::S_IFREG | 0o644);
    assert_eq!(m.dev_major(), Some(8));
    assert_eq!(m.dev_minor(), Some(1));
    assert_eq!(m.rdev(), None);
    assert_eq!(m.rdev_major(), None);
    let c = meta(libc::S_IFCHR | 0o666);
    assert_eq!(c.rdev(), Some(libc::makedev(4, 64)));
    assert_eq!(c.rdev_major(), Some(4));
    assert_eq!(c.rdev_minor(), Some(64));
    let dev = libc::makedev(0x12345, 0x6789a);
    assert_eq!(major(dev), 0x12345);
    assert_eq!(minor(dev), 0x6789a);
}
