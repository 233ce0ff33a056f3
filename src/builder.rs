//! Flag builders: values that gather open flags before the call that uses
//! them. They never check a combination; the system does, at the call.
use vstd::prelude::*;

use crate::dir::{
    Call, Capabilities, Dir, FdType, SysCall, dot_cstr, method_default_flags, on_path, open_at,
    plan, upgrade_plan, clone_dirfd_upgrade,
};
use crate::error::Error;
use crate::path::{cstr, to_cstr};
use crate::sys::{
    o_append, o_cloexec, o_creat, o_directory, o_excl, o_nofollow, o_rdonly, o_tmpfile, o_trunc,
    o_wronly, spec_o_append, spec_o_cloexec, spec_o_creat, spec_o_directory, spec_o_excl,
    spec_o_rdonly, spec_o_tmpfile, spec_o_trunc, spec_o_wronly,
};

verus! {

/// Flags for opening a directory handle; made by `Dir::flags`, which sets
/// close-on-exec.
#[derive(Clone, Copy, Debug)]
pub struct DirFlags {
    pub flags: i32,
}

impl DirFlags {
    /// A builder with exactly `flags`.
    pub fn new(flags: i32) -> (r: DirFlags)
        ensures
            r.flags == flags,
    {
        DirFlags { flags }
    }

    /// Adds `flags`.
    pub fn with(self, flags: i32) -> (r: DirFlags)
        ensures
            r.flags == self.flags | flags,
    {
        DirFlags { flags: self.flags | flags }
    }

    /// Removes `flags`.
    pub fn without(self, flags: i32) -> (r: DirFlags)
        ensures
            r.flags == self.flags & !flags,
    {
        DirFlags { flags: self.flags & !flags }
    }

    /// The flags gathered so far.
    pub fn get_flags(&self) -> (r: i32)
        ensures
            r == self.flags,
    {
        self.flags
    }

    /// Plans opening the directory at `path` with these flags.
    pub fn open(&self, path: &[u8]) -> (r: Result<SysCall, Error>)
        ensures
            plan(r) == on_path(
                path@,
                Call::Open { path: cstr(path@), flags: spec_o_directory() | self.flags },
            ),
    {
        match to_cstr(path) {
            Ok(p) => Ok(SysCall::Open { path: p, flags: o_directory() | self.flags }),
            Err(e) => Err(e),
        }
    }
}

/// Flags for the calls that open something inside a directory; made by
/// `Dir::with` or `Dir::without`, which start from close-on-exec and
/// no-follow.
#[derive(Clone, Copy, Debug)]
pub struct DirMethodFlags<'a> {
    pub object: &'a Dir,
    pub flags: i32,
}

impl<'a> DirMethodFlags<'a> {
    /// A builder on `object` with exactly `flags`.
    pub fn new(object: &'a Dir, flags: i32) -> (r: DirMethodFlags<'a>)
        ensures
            r.object == object,
            r.flags == flags,
    {
        DirMethodFlags { object, flags }
    }

    /// Adds `flags`.
    pub fn with(self, flags: i32) -> (r: DirMethodFlags<'a>)
        ensures
            r.object == self.object,
            r.flags == self.flags | flags,
    {
        DirMethodFlags { object: self.object, flags: self.flags | flags }
    }

    /// Removes `flags`.
    pub fn without(self, flags: i32) -> (r: DirMethodFlags<'a>)
        ensures
            r.object == self.object,
            r.flags == self.flags & !flags,
    {
        DirMethodFlags { object: self.object, flags: self.flags & !flags }
    }

    /// Plans opening the subdirectory `path`.
    pub fn sub_dir(&self, path: &[u8]) -> (r: Result<SysCall, Error>)
        ensures
            plan(r) == on_path(
                path@,
                Call::OpenAt {
                    dirfd: self.object.raw(),
                    path: cstr(path@),
                    flags: self.flags | spec_o_directory(),
                    mode: 0,
                },
            ),
    {
        open_at(self.object.as_raw_fd(), path, self.flags | o_directory(), 0)
    }

    /// Plans opening the file `path` for reading.
    pub fn open_file(&self, path: &[u8]) -> (r: Result<SysCall, Error>)
        ensures
            plan(r) == on_path(
                path@,
                Call::OpenAt {
                    dirfd: self.object.raw(),
                    path: cstr(path@),
                    flags: self.flags | spec_o_rdonly(),
                    mode: 0,
                },
            ),
    {
        open_at(self.object.as_raw_fd(), path, self.flags | o_rdonly(), 0)
    }

    /// Plans opening the file `path` for writing: created when missing,
    /// truncated.
    pub fn write_file(&self, path: &[u8], mode: u32) -> (r: Result<SysCall, Error>)
        ensures
            plan(r) == on_path(
                path@,
                Call::OpenAt {
                    dirfd: self.object.raw(),
                    path: cstr(path@),
                    flags: self.flags | spec_o_creat() | spec_o_wronly() | spec_o_trunc(),
                    mode,
                },
            ),
    {
        open_at(self.object.as_raw_fd(), path, self.flags | o_creat() | o_wronly() | o_trunc(), mode)
    }

    /// Plans opening the file `path` for appending: created when missing.
    pub fn append_file(&self, path: &[u8], mode: u32) -> (r: Result<SysCall, Error>)
        ensures
            plan(r) == on_path(
                path@,
                Call::OpenAt {
                    dirfd: self.object.raw(),
                    path: cstr(path@),
                    flags: self.flags | spec_o_creat() | spec_o_wronly() | spec_o_append(),
                    mode,
                },
            ),
    {
        open_at(self.object.as_raw_fd(), path, self.flags | o_creat() | o_wronly() | o_append(), mode)
    }

    /// Plans creating a file with no name in the directory.
    pub fn new_unnamed_file(&self, mode: u32, caps: &Capabilities) -> (r: Result<SysCall, Error>)
        ensures
            plan(r) == (if caps.anonymous_files {
                Ok::<Call, Error>(
                    Call::OpenAt {
                        dirfd: self.object.raw(),
                        path: dot_cstr(),
                        flags: self.flags | spec_o_tmpfile() | spec_o_wronly(),
                        mode,
                    },
                )
            } else {
                Err(Error::Unsupported)
            }),
    {
        if caps.anonymous_files {
            let mut p: Vec<u8> = Vec::new();
            p.push(46u8);
            p.push(0u8);
            assert(p@ =~= dot_cstr());
            Ok(
                SysCall::OpenAt {
                    dirfd: self.object.as_raw_fd(),
                    path: p,
                    flags: self.flags | o_tmpfile() | o_wronly(),
                    mode,
                },
            )
        } else {
            Err(Error::Unsupported)
        }
    }

    /// Plans creating the file `path`, failing if it exists.
    pub fn new_file(&self, path: &[u8], mode: u32) -> (r: Result<SysCall, Error>)
        ensures
            plan(r) == on_path(
                path@,
                Call::OpenAt {
                    dirfd: self.object.raw(),
                    path: cstr(path@),
                    flags: self.flags | spec_o_creat() | spec_o_excl() | spec_o_wronly(),
                    mode,
                },
            ),
    {
        open_at(self.object.as_raw_fd(), path, self.flags | o_creat() | o_excl() | o_wronly(), mode)
    }

    /// Plans a new normal handle on the directory with these flags, once it
    /// has been classified as `kind`.
    pub fn clone_upgrade(&self, kind: FdType) -> (r: Result<SysCall, Error>)
        ensures
            plan(r) == upgrade_plan(self.object.raw(), kind, self.flags),
    {
        clone_dirfd_upgrade(self.object.as_raw_fd(), kind, self.flags)
    }
}

impl Dir {
    /// A builder for opening directory handles, starting from close-on-exec.
    pub fn flags() -> (r: DirFlags)
        ensures
            r.flags == spec_o_cloexec(),
    {
        DirFlags::new(o_cloexec())
    }

    /// A builder for calls inside this directory: close-on-exec, no-follow
    /// and `flags`.
    pub fn with<'a>(&'a self, flags: i32) -> (r: DirMethodFlags<'a>)
        ensures
            r.object == self,
            r.flags == method_default_flags() | flags,
    {
        DirMethodFlags::new(self, (o_cloexec() | o_nofollow()) | flags)
    }

    /// A builder for calls inside this directory: close-on-exec and
    /// no-follow, less `flags`.
    pub fn without<'a>(&'a self, flags: i32) -> (r: DirMethodFlags<'a>)
        ensures
            r.object == self,
            r.flags == method_default_flags() & !flags,
    {
        DirMethodFlags::new(self, (o_cloexec() | o_nofollow()) & !flags)
    }
}

} // verus!
