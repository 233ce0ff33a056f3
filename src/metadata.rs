//! The status of a file, as plain values, and what can be read from it.
use vstd::prelude::*;

use crate::list::SimpleType;
use crate::sys::{
    major_of, minor_of, s_ifblk, s_ifchr, s_ifdir, s_iflnk, s_ifmt, s_ifreg, spec_s_ifblk,
    spec_s_ifchr, spec_s_ifdir, spec_s_iflnk, spec_s_ifmt, spec_s_ifreg,
};

verus! {

/// A point in time: seconds and nanoseconds since the Unix epoch.
#[derive(Clone, Copy, Debug, PartialEq, Eq, Structural)]
pub struct Timespec {
    pub sec: i64,
    pub nsec: i64,
}

/// The status of a file.
#[derive(Clone, Copy, Debug, PartialEq, Eq, Structural)]
pub struct Metadata {
    pub dev: u64,
    pub ino: u64,
    pub nlink: u64,
    pub mode: u32,
    pub uid: u32,
    pub gid: u32,
    pub rdev: u64,
    pub size: i64,
    pub blksize: i64,
    pub blocks: i64,
    pub atime: Timespec,
    pub mtime: Timespec,
    pub ctime: Timespec,
}

/// The coarse type that a mode gives.
pub open spec fn type_of_mode(mode: u32) -> SimpleType {
    let t = mode & spec_s_ifmt();
    if t == spec_s_ifreg() {
        SimpleType::File
    } else if t == spec_s_ifdir() {
        SimpleType::Dir
    } else if t == spec_s_iflnk() {
        SimpleType::Symlink
    } else if t == 0 {
        SimpleType::Unknown
    } else {
        SimpleType::Other
    }
}

/// Whether a mode is that of a block or character device.
pub open spec fn is_device(mode: u32) -> bool {
    mode & spec_s_ifmt() == spec_s_ifblk() || mode & spec_s_ifmt() == spec_s_ifchr()
}

/// The major number of a device number.
pub fn major(dev: u64) -> (r: u32)
    ensures
        r == major_of(dev),
{
    crate::sys::major(dev)
}

/// The minor number of a device number.
pub fn minor(dev: u64) -> (r: u32)
    ensures
        r == minor_of(dev),
{
    crate::sys::minor(dev)
}

impl Metadata {
    /// The coarse type of the file.
    pub fn simple_type(&self) -> (r: SimpleType)
        ensures
            r == type_of_mode(self.mode),
    {
        let t = self.mode & s_ifmt();
        if t == s_ifreg() {
            SimpleType::File
        } else if t == s_ifdir() {
            SimpleType::Dir
        } else if t == s_iflnk() {
            SimpleType::Symlink
        } else if t == 0 {
            SimpleType::Unknown
        } else {
            SimpleType::Other
        }
    }

    /// Whether the file is a regular file.
    pub fn is_file(&self) -> (r: bool)
        ensures
            r == (type_of_mode(self.mode) == SimpleType::File),
    {
        match self.simple_type() {
            SimpleType::File => true,
            _ => false,
        }
    }

    /// Whether the file is a directory.
    pub fn is_dir(&self) -> (r: bool)
        ensures
            r == (type_of_mode(self.mode) == SimpleType::Dir),
    {
        match self.simple_type() {
            SimpleType::Dir => true,
            _ => false,
        }
    }

    /// The size in bytes, read as unsigned.
    pub fn len(&self) -> (r: u64)
        ensures
            r == self.size as u64,
    {
        self.size as u64
    }

    /// The whole mode.
    pub fn mode(&self) -> (r: Option<u32>)
        ensures
            r == Some(self.mode),
    {
        Some(self.mode)
    }

    /// The file type bits of the mode.
    pub fn file_type(&self) -> (r: Option<u32>)
        ensures
            r == Some(self.mode & spec_s_ifmt()),
    {
        Some(self.mode & s_ifmt())
    }

    /// The permission bits of the mode, with set-id and sticky bits.
    pub fn file_mode(&self) -> (r: Option<u32>)
        ensures
            r == Some(self.mode & 0o7777u32),
    {
        Some(self.mode & 0o7777u32)
    }

    /// The inode number.
    pub fn ino(&self) -> (r: Option<u64>)
        ensures
            r == Some(self.ino),
    {
        Some(self.ino)
    }

    /// The device that holds the file.
    pub fn dev(&self) -> (r: Option<u64>)
        ensures
            r == Some(self.dev),
    {
        Some(self.dev)
    }

    /// The major number of the device that holds the file.
    pub fn dev_major(&self) -> (r: Option<u32>)
        ensures
            r == Some(major_of(self.dev)),
    {
        Some(major(self.dev))
    }

    /// The minor number of the device that holds the file.
    pub fn dev_minor(&self) -> (r: Option<u32>)
        ensures
            r == Some(minor_of(self.dev)),
    {
        Some(minor(self.dev))
    }

    /// The device that the file stands for, if it is a device.
    pub fn rdev(&self) -> (r: Option<u64>)
        ensures
            r == (if is_device(self.mode) {
                Some(self.rdev)
            } else {
                None
            }),
    {
        let t = self.mode & s_ifmt();
        if t == s_ifblk() || t == s_ifchr() {
            Some(self.rdev)
        } else {
            None
        }
    }

    /// The major number of the device that the file stands for.
    pub fn rdev_major(&self) -> (r: Option<u32>)
        ensures
            r == (if is_device(self.mode) {
                Some(major_of(self.rdev))
            } else {
                None
            }),
    {
        match self.rdev() {
            Some(d) => Some(major(d)),
            None => None,
        }
    }

    /// The minor number of the device that the file stands for.
    pub fn rdev_minor(&self) -> (r: Option<u32>)
        ensures
            r == (if is_device(self.mode) {
                Some(minor_of(self.rdev))
            } else {
                None
            }),
    {
        match self.rdev() {
            Some(d) => Some(minor(d)),
            None => None,
        }
    }

    /// The preferred block size for I/O.
    pub fn blksize(&self) -> (r: Option<i64>)
        ensures
            r == Some(self.blksize),
    {
        Some(self.blksize)
    }

    /// The number of 512-byte blocks allocated.
    pub fn blocks(&self) -> (r: Option<i64>)
        ensures
            r == Some(self.blocks),
    {
        Some(self.blocks)
    }

    /// The size in bytes.
    pub fn size(&self) -> (r: Option<i64>)
        ensures
            r == Some(self.size),
    {
        Some(self.size)
    }

    /// The number of hard links.
    pub fn nlink(&self) -> (r: Option<u64>)
        ensures
            r == Some(self.nlink),
    {
        Some(self.nlink)
    }

    /// The owner's user id.
    pub fn uid(&self) -> (r: Option<u32>)
        ensures
            r == Some(self.uid),
    {
        Some(self.uid)
    }

    /// The owner's group id.
    pub fn gid(&self) -> (r: Option<u32>)
        ensures
            r == Some(self.gid),
    {
        Some(self.gid)
    }

    /// The time of the last access.
    pub fn atime(&self) -> (r: Option<Timespec>)
        ensures
            r == Some(self.atime),
    {
        Some(self.atime)
    }

    /// The time of creation: not reported by this status.
    pub fn btime(&self) -> (r: Option<Timespec>)
        ensures
            r is None,
    {
        None
    }

    /// The time of the last status change.
    pub fn ctime(&self) -> (r: Option<Timespec>)
        ensures
            r == Some(self.ctime),
    {
        Some(self.ctime)
    }

    /// The time of the last modification.
    pub fn mtime(&self) -> (r: Option<Timespec>)
        ensures
            r == Some(self.mtime),
    {
        Some(self.mtime)
    }
}

} // verus!
