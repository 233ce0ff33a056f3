//! Directory handles, the system calls that operate relative to them, and
//! the classification of descriptors.
use vstd::prelude::*;

use crate::error::Error;
use crate::path::{cstr, dec_signed, decimal_signed, has_nul, to_cstr};
use crate::sys::{
    at_fdcwd, at_removedir, at_symlink_follow, at_symlink_nofollow, o_append, o_cloexec, o_creat, o_directory, o_excl, o_nofollow, o_path, o_rdonly, o_rdwr, o_tmpfile, o_trunc, o_wronly, rename_exchange, s_ifdir, s_ifmt, spec_at_fdcwd, spec_at_removedir, spec_at_symlink_follow, spec_at_symlink_nofollow, spec_o_append, spec_o_cloexec, spec_o_creat, spec_o_directory, spec_o_excl, spec_o_nofollow, spec_o_path, spec_o_rdonly, spec_o_rdwr, spec_o_tmpfile, spec_o_trunc, spec_o_wronly, spec_rename_exchange, spec_s_ifdir, spec_s_ifmt,
};

verus! {

/// The descriptor that a handle stands for.
#[derive(Debug, PartialEq, Eq, Structural)]
pub enum DirFd {
    /// An open descriptor that the handle owns.
    Fd(i32),
    /// The working directory of the process; owns no descriptor.
    Cwd,
}

/// A handle on a directory: every path operation resolves relative to it.
///
/// A handle owns its descriptor; copies of a handle are made only by the
/// clone operations, which open a new descriptor.
#[derive(Debug)]
pub struct Dir {
    pub fd: DirFd,
}

/// What a descriptor turned out to be.
#[derive(Clone, Copy, Debug, PartialEq, Eq, Structural)]
pub enum FdType {
    /// A directory that can be listed.
    NormalDir,
    /// A restricted directory handle: an anchor for paths and metadata only.
    OPathDir,
    /// Anything else.
    Other,
}

/// What the host offers.
#[derive(Clone, Copy, Debug, PartialEq, Eq, Structural)]
pub struct Capabilities {
    /// The flags of an open descriptor report whether it is a directory.
    pub flags_report_directory: bool,
    /// Restricted (anchor-only) directory handles exist.
    pub restricted_handles: bool,
    /// Files without a directory entry can be created.
    pub anonymous_files: bool,
    /// An open file can be linked into a directory through `/proc`.
    pub descriptor_linking: bool,
    /// Renames take flags.
    pub rename_with_flags: bool,
    /// Two names can be swapped atomically.
    pub rename_exchange: bool,
}

impl Capabilities {
    /// What Linux offers: everything.
    pub fn host() -> (r: Capabilities)
        ensures
            r.flags_report_directory,
            r.restricted_handles,
            r.anonymous_files,
            r.descriptor_linking,
            r.rename_with_flags,
            r.rename_exchange,
    {
        Capabilities {
            flags_report_directory: true,
            restricted_handles: true,
            anonymous_files: true,
            descriptor_linking: true,
            rename_with_flags: true,
            rename_exchange: true,
        }
    }
}

/// A system call, with every argument it takes. Paths are nul-terminated.
#[derive(Debug)]
pub enum SysCall {
    Open { path: Vec<u8>, flags: i32 },
    OpenAt { dirfd: i32, path: Vec<u8>, flags: i32, mode: u32 },
    Dup { fd: i32 },
    GetFlags { fd: i32 },
    Fstat { fd: i32 },
    FstatAt { dirfd: i32, path: Vec<u8>, flags: i32 },
    ReadLinkAt { dirfd: i32, path: Vec<u8> },
    SymlinkAt { target: Vec<u8>, dirfd: i32, path: Vec<u8> },
    MkdirAt { dirfd: i32, path: Vec<u8>, mode: u32 },
    UnlinkAt { dirfd: i32, path: Vec<u8>, flags: i32 },
    RenameAt { old_dirfd: i32, old: Vec<u8>, new_dirfd: i32, new: Vec<u8>, flags: i32 },
    LinkAt { old_dirfd: i32, old: Vec<u8>, new_dirfd: i32, new: Vec<u8>, flags: i32 },
    Close { fd: i32 },
}

/// The mathematical form of a `SysCall`.
pub enum Call {
    Open { path: Seq<u8>, flags: i32 },
    OpenAt { dirfd: i32, path: Seq<u8>, flags: i32, mode: u32 },
    Dup { fd: i32 },
    GetFlags { fd: i32 },
    Fstat { fd: i32 },
    FstatAt { dirfd: i32, path: Seq<u8>, flags: i32 },
    ReadLinkAt { dirfd: i32, path: Seq<u8> },
    SymlinkAt { target: Seq<u8>, dirfd: i32, path: Seq<u8> },
    MkdirAt { dirfd: i32, path: Seq<u8>, mode: u32 },
    UnlinkAt { dirfd: i32, path: Seq<u8>, flags: i32 },
    RenameAt { old_dirfd: i32, old: Seq<u8>, new_dirfd: i32, new: Seq<u8>, flags: i32 },
    LinkAt { old_dirfd: i32, old: Seq<u8>, new_dirfd: i32, new: Seq<u8>, flags: i32 },
    Close { fd: i32 },
}

impl View for SysCall {
    type V = Call;

    open spec fn view(&self) -> Call {
        match self {
            SysCall::Open { path, flags } => Call::Open { path: path@, flags: *flags },
            SysCall::OpenAt { dirfd, path, flags, mode } => Call::OpenAt {
                dirfd: *dirfd,
                path: path@,
                flags: *flags,
                mode: *mode,
            },
            SysCall::Dup { fd } => Call::Dup { fd: *fd },
            SysCall::GetFlags { fd } => Call::GetFlags { fd: *fd },
            SysCall::Fstat { fd } => Call::Fstat { fd: *fd },
            SysCall::FstatAt { dirfd, path, flags } => Call::FstatAt {
                dirfd: *dirfd,
                path: path@,
                flags: *flags,
            },
            SysCall::ReadLinkAt { dirfd, path } => Call::ReadLinkAt { dirfd: *dirfd, path: path@ },
            SysCall::SymlinkAt { target, dirfd, path } => Call::SymlinkAt {
                target: target@,
                dirfd: *dirfd,
                path: path@,
            },
            SysCall::MkdirAt { dirfd, path, mode } => Call::MkdirAt {
                dirfd: *dirfd,
                path: path@,
                mode: *mode,
            },
            SysCall::UnlinkAt { dirfd, path, flags } => Call::UnlinkAt {
                dirfd: *dirfd,
                path: path@,
                flags: *flags,
            },
            SysCall::RenameAt { old_dirfd, old, new_dirfd, new, flags } => Call::RenameAt {
                old_dirfd: *old_dirfd,
                old: old@,
                new_dirfd: *new_dirfd,
                new: new@,
                flags: *flags,
            },
            SysCall::LinkAt { old_dirfd, old, new_dirfd, new, flags } => Call::LinkAt {
                old_dirfd: *old_dirfd,
                old: old@,
                new_dirfd: *new_dirfd,
                new: new@,
                flags: *flags,
            },
            SysCall::Close { fd } => Call::Close { fd: *fd },
        }
    }
}

/// The mathematical form of a planned call.
pub open spec fn plan(r: Result<SysCall, Error>) -> Result<Call, Error> {
    match r {
        Ok(c) => Ok(c@),
        Err(e) => Err(e),
    }
}

/// The plan of a call that takes the path `path`: refused when the path
/// holds a nul byte.
pub open spec fn on_path(path: Seq<u8>, call: Call) -> Result<Call, Error> {
    if has_nul(path) {
        Err(Error::InvalidInput)
    } else {
        Ok(call)
    }
}

/// The plan of a call that takes the paths `a` and `b`.
pub open spec fn on_paths(a: Seq<u8>, b: Seq<u8>, call: Call) -> Result<Call, Error> {
    if has_nul(a) || has_nul(b) {
        Err(Error::InvalidInput)
    } else {
        Ok(call)
    }
}

/// Reads the return value of a system call: `-1` means failure, with the
/// error number `errno`.
pub fn libc_ok(ret: i32, errno: i32) -> (r: Result<i32, Error>)
    ensures
        r == (if ret != -1 {
            Ok::<i32, Error>(ret)
        } else {
            Err(Error::Os(errno))
        }),
{
    if ret != -1 {
        Ok(ret)
    } else {
        Err(Error::Os(errno))
    }
}

/// The call that classifies the descriptor `fd`: a query of its flags
/// where they report directories, else a status query.
pub fn classify_call(fd: i32, caps: &Capabilities) -> (r: SysCall)
    ensures
        r@ == (if caps.flags_report_directory {
            Call::GetFlags { fd }
        } else {
            Call::Fstat { fd }
        }),
{
    if caps.flags_report_directory {
        SysCall::GetFlags { fd }
    } else {
        SysCall::Fstat { fd }
    }
}

/// Classifies a descriptor by its open flags. Without restricted handles
/// every directory is a normal one.
pub fn fd_type_from_flags(flags: i32, caps: &Capabilities) -> (r: FdType)
    ensures
        r == (if flags & spec_o_directory() == 0 {
            FdType::Other
        } else if caps.restricted_handles && flags & spec_o_path() != 0 {
            FdType::OPathDir
        } else {
            FdType::NormalDir
        }),
{
    if flags & o_directory() == 0 {
        FdType::Other
    } else if caps.restricted_handles && flags & o_path() != 0 {
        FdType::OPathDir
    } else {
        FdType::NormalDir
    }
}

/// Classifies a descriptor by the mode of its status: this cannot tell a
/// restricted handle from a normal one.
pub fn fd_type_from_mode(mode: u32) -> (r: FdType)
    ensures
        r == (if mode & spec_s_ifmt() == spec_s_ifdir() {
            FdType::NormalDir
        } else {
            FdType::Other
        }),
{
    if mode & s_ifmt() == s_ifdir() {
        FdType::NormalDir
    } else {
        FdType::Other
    }
}

/// Plans `openat(dirfd, path, flags, mode)`.
pub(crate) fn open_at(dirfd: i32, path: &[u8], flags: i32, mode: u32) -> (r: Result<SysCall, Error>)
    ensures
        plan(r) == on_path(path@, Call::OpenAt { dirfd, path: cstr(path@), flags, mode }),
{
    match to_cstr(path) {
        Ok(p) => Ok(SysCall::OpenAt { dirfd, path: p, flags, mode }),
        Err(e) => Err(e),
    }
}

/// The path `.`, nul-terminated.
pub open spec fn dot_cstr() -> Seq<u8> {
    seq![46u8, 0u8]
}

fn dot() -> (r: Vec<u8>)
    ensures
        r@ == dot_cstr(),
{
    let mut v: Vec<u8> = Vec::new();
    v.push(46u8);
    v.push(0u8);
    assert(v@ =~= dot_cstr());
    v
}

/// The flags of a plain clone: reopen through `.` as a directory.
pub open spec fn reopen_flags() -> i32 {
    spec_o_directory() | spec_o_cloexec()
}

/// A new descriptor of the same kind as `fd`: a normal directory is
/// reopened through `.`, a restricted one is duplicated.
pub open spec fn clone_plan(fd: i32, kind: FdType) -> Result<Call, Error> {
    match kind {
        FdType::NormalDir => Ok(
            Call::OpenAt { dirfd: fd, path: dot_cstr(), flags: reopen_flags(), mode: 0 },
        ),
        FdType::OPathDir => Ok(Call::Dup { fd }),
        FdType::Other => Err(Error::NotADirectory),
    }
}

/// A new normal descriptor on the directory `fd`, whatever its kind, opened
/// with the extra `flags`.
pub open spec fn upgrade_plan(fd: i32, kind: FdType, flags: i32) -> Result<Call, Error> {
    match kind {
        FdType::Other => Err(Error::NotADirectory),
        _ => Ok(
            Call::OpenAt {
                dirfd: fd,
                path: dot_cstr(),
                flags: flags | spec_o_directory() | spec_o_cloexec(),
                mode: 0,
            },
        ),
    }
}

/// A new restricted descriptor on the directory `fd`; a plain clone where
/// restricted handles do not exist.
pub open spec fn downgrade_plan(fd: i32, kind: FdType, caps: Capabilities) -> Result<Call, Error> {
    match kind {
        FdType::Other => Err(Error::NotADirectory),
        FdType::OPathDir => Ok(Call::Dup { fd }),
        FdType::NormalDir => Ok(
            Call::OpenAt {
                dirfd: fd,
                path: dot_cstr(),
                flags: if caps.restricted_handles {
                    spec_o_path() | reopen_flags()
                } else {
                    reopen_flags()
                },
                mode: 0,
            },
        ),
    }
}

/// Plans a new descriptor of the same kind as `fd`, once `fd` has been
/// classified as `kind`.
pub fn clone_dirfd(fd: i32, kind: FdType) -> (r: Result<SysCall, Error>)
    ensures
        plan(r) == clone_plan(fd, kind),
{
    match kind {
        FdType::NormalDir => Ok(
            SysCall::OpenAt { dirfd: fd, path: dot(), flags: o_directory() | o_cloexec(), mode: 0 },
        ),
        FdType::OPathDir => Ok(SysCall::Dup { fd }),
        FdType::Other => Err(Error::NotADirectory),
    }
}

/// Plans a new normal descriptor on the directory `fd`, opened with the
/// extra `flags`.
pub fn clone_dirfd_upgrade(fd: i32, kind: FdType, flags: i32) -> (r: Result<SysCall, Error>)
    ensures
        plan(r) == upgrade_plan(fd, kind, flags),
{
    match kind {
        FdType::Other => Err(Error::NotADirectory),
        _ => Ok(
            SysCall::OpenAt {
                dirfd: fd,
                path: dot(),
                flags: flags | o_directory() | o_cloexec(),
                mode: 0,
            },
        ),
    }
}

/// Plans a new restricted descriptor on the directory `fd`.
pub fn clone_dirfd_downgrade(fd: i32, kind: FdType, caps: &Capabilities) -> (r: Result<SysCall, Error>)
    ensures
        plan(r) == downgrade_plan(fd, kind, *caps),
{
    match kind {
        FdType::Other => Err(Error::NotADirectory),
        FdType::OPathDir => Ok(SysCall::Dup { fd }),
        FdType::NormalDir => {
            let flags = if caps.restricted_handles {
                o_path() | (o_directory() | o_cloexec())
            } else {
                o_directory() | o_cloexec()
            };
            Ok(SysCall::OpenAt { dirfd: fd, path: dot(), flags, mode: 0 })
        },
    }
}

/// The path `/proc/self/fd/<fd>`, through which the open file `fd` is seen.
pub open spec fn proc_fd_path(fd: int) -> Seq<u8> {
    seq![47u8, 112u8, 114u8, 111u8, 99u8, 47u8, 115u8, 101u8, 108u8, 102u8, 47u8, 102u8, 100u8, 47u8]
        + dec_signed(fd)
}

/// The path `/proc/self/cwd`, the working directory of the process.
pub open spec fn proc_cwd_path() -> Seq<u8> {
    seq![47u8, 112u8, 114u8, 111u8, 99u8, 47u8, 115u8, 101u8, 108u8, 102u8, 47u8, 99u8, 119u8, 100u8]
}

/// Writes the path through which the open file `fd` is seen.
pub fn proc_fd_path_of(fd: i32) -> (r: Vec<u8>)
    ensures
        r@ == proc_fd_path(fd as int),
{
    let mut v: Vec<u8> = vec![47u8, 112u8, 114u8, 111u8, 99u8, 47u8, 115u8, 101u8, 108u8, 102u8, 47u8, 102u8, 100u8, 47u8];
    let digits = decimal_signed(fd as i64);
    let mut i: usize = 0;
    let ghost prefix = v@;
    while i < digits.len()
        invariant
            i <= digits@.len(),
            v@ == prefix + digits@.subrange(0, i as int),
        decreases digits@.len() - i,
    {
        v.push(digits[i]);
        i = i + 1;
        assert(v@ =~= prefix + digits@.subrange(0, i as int));
    }
    assert(digits@.subrange(0, digits@.len() as int) =~= digits@);
    v
}

/// The flags that a file operation of `Dir` adds to its own: close on exec
/// and no symlink in the last component.
pub open spec fn file_flags(flags: i32) -> i32 {
    flags | spec_o_cloexec() | spec_o_nofollow()
}

/// The flags with which `Dir::open` opens a directory.
pub open spec fn open_flags() -> i32 {
    spec_o_directory() | (spec_o_path() | spec_o_cloexec())
}

/// The flags with which `Dir::sub_dir` opens a subdirectory.
pub open spec fn sub_dir_flags() -> i32 {
    (spec_o_path() | spec_o_cloexec() | spec_o_nofollow()) | spec_o_directory()
}

/// The flags that a builder made by `Dir::with` or `Dir::without` starts
/// from.
pub open spec fn method_default_flags() -> i32 {
    spec_o_cloexec() | spec_o_nofollow()
}

impl Dir {
    /// The descriptor that calls relative to this handle receive.
    pub open spec fn raw(&self) -> i32 {
        match self.fd {
            DirFd::Fd(n) => n,
            DirFd::Cwd => spec_at_fdcwd(),
        }
    }

    /// A handle on the working directory of the process, whatever it is at
    /// the time of each call.
    pub fn cwd() -> (r: Dir)
        ensures
            r.fd == DirFd::Cwd,
    {
        Dir { fd: DirFd::Cwd }
    }

    /// Takes ownership of the descriptor `fd`, unchecked.
    pub fn from_fd(fd: i32) -> (r: Dir)
        ensures
            r.fd == DirFd::Fd(fd),
    {
        Dir { fd: DirFd::Fd(fd) }
    }

    /// Takes ownership of the descriptor `fd` once it has been classified as
    /// `kind`: only a directory is taken.
    pub fn from_raw_fd_checked(fd: i32, kind: FdType) -> (r: Result<Dir, Error>)
        ensures
            kind == FdType::Other <==> r is Err,
            r is Err ==> r->Err_0 == Error::NotADirectory,
            r is Ok ==> r->Ok_0.fd == DirFd::Fd(fd),
    {
        match kind {
            FdType::Other => Err(Error::NotADirectory),
            _ => Ok(Dir { fd: DirFd::Fd(fd) }),
        }
    }

    /// The handle that an open call made, from its return value.
    pub fn from_open_result(ret: i32, errno: i32) -> (r: Result<Dir, Error>)
        ensures
            ret != -1 <==> r is Ok,
            r is Ok ==> r->Ok_0.fd == DirFd::Fd(ret),
            r is Err ==> r->Err_0 == Error::Os(errno),
    {
        match libc_ok(ret, errno) {
            Ok(fd) => Ok(Dir { fd: DirFd::Fd(fd) }),
            Err(e) => Err(e),
        }
    }

    /// The descriptor of this handle.
    pub fn as_raw_fd(&self) -> (r: i32)
        ensures
            r == self.raw(),
    {
        match self.fd {
            DirFd::Fd(n) => n,
            DirFd::Cwd => at_fdcwd(),
        }
    }

    /// Gives up the handle and hands its descriptor to the caller.
    pub fn into_raw_fd(self) -> (r: i32)
        ensures
            r == self.raw(),
    {
        self.as_raw_fd()
    }

    /// What dropping the handle must do: close the descriptor it owns. The
    /// working directory owns none.
    pub fn close_call(&self) -> (r: Option<SysCall>)
        ensures
            match self.fd {
                DirFd::Fd(n) => r is Some && r->Some_0@ == (Call::Close { fd: n }),
                DirFd::Cwd => r is None,
            },
    {
        match self.fd {
            DirFd::Fd(n) => Some(SysCall::Close { fd: n }),
            DirFd::Cwd => None,
        }
    }

    /// Whether a descriptor classified as `kind` is a directory. A failed
    /// classification counts as no directory.
    pub fn is_dir(kind: Result<FdType, Error>) -> (r: bool)
        ensures
            r == (kind == Ok::<FdType, Error>(FdType::NormalDir) || kind == Ok::<FdType, Error>(
                FdType::OPathDir,
            )),
    {
        match kind {
            Ok(FdType::NormalDir) => true,
            Ok(FdType::OPathDir) => true,
            _ => false,
        }
    }

    /// Plans opening the directory at `path`, relative to the working
    /// directory unless absolute, as a restricted handle.
    pub fn open(path: &[u8]) -> (r: Result<SysCall, Error>)
        ensures
            plan(r) == on_path(path@, Call::Open { path: cstr(path@), flags: open_flags() }),
    {
        match to_cstr(path) {
            Ok(p) => Ok(SysCall::Open { path: p, flags: o_directory() | (o_path() | o_cloexec()) }),
            Err(e) => Err(e),
        }
    }

    /// Plans opening the subdirectory `path` as a restricted handle, without
    /// following a symlink in its last component.
    pub fn sub_dir(&self, path: &[u8]) -> (r: Result<SysCall, Error>)
        ensures
            plan(r) == on_path(
                path@,
                Call::OpenAt { dirfd: self.raw(), path: cstr(path@), flags: sub_dir_flags(), mode: 0 },
            ),
    {
        open_at(
            self.as_raw_fd(),
            path,
            (o_path() | o_cloexec() | o_nofollow()) | o_directory(),
            0,
        )
    }

    /// Plans reading the symlink `path`.
    pub fn read_link(&self, path: &[u8]) -> (r: Result<SysCall, Error>)
        ensures
            plan(r) == on_path(path@, Call::ReadLinkAt { dirfd: self.raw(), path: cstr(path@) }),
    {
        match to_cstr(path) {
            Ok(p) => Ok(SysCall::ReadLinkAt { dirfd: self.as_raw_fd(), path: p }),
            Err(e) => Err(e),
        }
    }

    /// The size of the buffer that a symlink is read into.
    pub fn read_link_buffer_len() -> (r: usize)
        ensures
            r == 4096,
    {
        4096
    }

    /// The target of a symlink, from the buffer it was read into and the
    /// count of bytes that the call reported (negative on failure).
    pub fn read_link_result(buf: Vec<u8>, res: isize, errno: i32) -> (r: Result<Vec<u8>, Error>)
        requires
            res <= buf@.len(),
        ensures
            res < 0 ==> r == Err::<Vec<u8>, Error>(Error::Os(errno)),
            res >= 0 ==> r is Ok && r->Ok_0@ == buf@.subrange(0, res as int),
    {
        if res < 0 {
            Err(Error::Os(errno))
        } else {
            let mut buf = buf;
            buf.truncate(res as usize);
            Ok(buf)
        }
    }

    /// Plans opening the file `path` for reading.
    pub fn open_file(&self, path: &[u8]) -> (r: Result<SysCall, Error>)
        ensures
            plan(r) == on_path(
                path@,
                Call::OpenAt {
                    dirfd: self.raw(),
                    path: cstr(path@),
                    flags: file_flags(spec_o_rdonly()),
                    mode: 0,
                },
            ),
    {
        open_at(self.as_raw_fd(), path, o_rdonly() | o_cloexec() | o_nofollow(), 0)
    }

    /// Plans opening the file `path` for writing: created when missing,
    /// truncated.
    pub fn write_file(&self, path: &[u8], mode: u32) -> (r: Result<SysCall, Error>)
        ensures
            plan(r) == on_path(
                path@,
                Call::OpenAt {
                    dirfd: self.raw(),
                    path: cstr(path@),
                    flags: file_flags(spec_o_creat() | spec_o_wronly() | spec_o_trunc()),
                    mode,
                },
            ),
    {
        open_at(
            self.as_raw_fd(),
            path,
            (o_creat() | o_wronly() | o_trunc()) | o_cloexec() | o_nofollow(),
            mode,
        )
    }

    /// Plans opening the file `path` for appending: created when missing.
    pub fn append_file(&self, path: &[u8], mode: u32) -> (r: Result<SysCall, Error>)
        ensures
            plan(r) == on_path(
                path@,
                Call::OpenAt {
                    dirfd: self.raw(),
                    path: cstr(path@),
                    flags: file_flags(spec_o_creat() | spec_o_wronly() | spec_o_append()),
                    mode,
                },
            ),
    {
        open_at(
            self.as_raw_fd(),
            path,
            (o_creat() | o_wronly() | o_append()) | o_cloexec() | o_nofollow(),
            mode,
        )
    }

    /// The same plan as `write_file`.
    pub fn create_file(&self, path: &[u8], mode: u32) -> (r: Result<SysCall, Error>)
        ensures
            plan(r) == on_path(
                path@,
                Call::OpenAt {
                    dirfd: self.raw(),
                    path: cstr(path@),
                    flags: file_flags(spec_o_creat() | spec_o_wronly() | spec_o_trunc()),
                    mode,
                },
            ),
    {
        self.write_file(path, mode)
    }

    /// Plans creating the file `path`, failing if it exists: the one atomic
    /// test of existence that the system offers.
    pub fn new_file(&self, path: &[u8], mode: u32) -> (r: Result<SysCall, Error>)
        ensures
            plan(r) == on_path(
                path@,
                Call::OpenAt {
                    dirfd: self.raw(),
                    path: cstr(path@),
                    flags: file_flags(spec_o_creat() | spec_o_excl() | spec_o_wronly()),
                    mode,
                },
            ),
    {
        open_at(
            self.as_raw_fd(),
            path,
            (o_creat() | o_excl() | o_wronly()) | o_cloexec() | o_nofollow(),
            mode,
        )
    }

    /// Plans opening the file `path` for reading and writing, created when
    /// missing, not truncated.
    pub fn update_file(&self, path: &[u8], mode: u32) -> (r: Result<SysCall, Error>)
        ensures
            plan(r) == on_path(
                path@,
                Call::OpenAt {
                    dirfd: self.raw(),
                    path: cstr(path@),
                    flags: file_flags(spec_o_creat() | spec_o_rdwr()),
                    mode,
                },
            ),
    {
        open_at(self.as_raw_fd(), path, (o_creat() | o_rdwr()) | o_cloexec() | o_nofollow(), mode)
    }

    /// Plans creating a file with no name in this directory, to be linked
    /// in later with `link_file_at`.
    pub fn new_unnamed_file(&self, mode: u32, caps: &Capabilities) -> (r: Result<SysCall, Error>)
        ensures
            plan(r) == (if caps.anonymous_files {
                Ok::<Call, Error>(
                    Call::OpenAt {
                        dirfd: self.raw(),
                        path: dot_cstr(),
                        flags: file_flags(spec_o_tmpfile() | spec_o_wronly()),
                        mode,
                    },
                )
            } else {
                Err(Error::Unsupported)
            }),
    {
        if caps.anonymous_files {
            Ok(
                SysCall::OpenAt {
                    dirfd: self.as_raw_fd(),
                    path: dot(),
                    flags: (o_tmpfile() | o_wronly()) | o_cloexec() | o_nofollow(),
                    mode,
                },
            )
        } else {
            Err(Error::Unsupported)
        }
    }

    /// Plans giving the open file `file_fd` the name `path` in this
    /// directory, through its path under `/proc`.
    pub fn link_file_at(&self, file_fd: i32, path: &[u8], caps: &Capabilities) -> (r: Result<
        SysCall,
        Error,
    >)
        ensures
            plan(r) == (if !caps.descriptor_linking {
                Err(Error::Unsupported)
            } else {
                on_path(
                    path@,
                    Call::LinkAt {
                        old_dirfd: spec_at_fdcwd(),
                        old: cstr(proc_fd_path(file_fd as int)),
                        new_dirfd: self.raw(),
                        new: cstr(path@),
                        flags: spec_at_symlink_follow(),
                    },
                )
            }),
    {
        if !caps.descriptor_linking {
            return Err(Error::Unsupported);
        }
        let new = match to_cstr(path) {
            Ok(p) => p,
            Err(e) => return Err(e),
        };
        let mut old = proc_fd_path_of(file_fd);
        old.push(0u8);
        Ok(
            SysCall::LinkAt {
                old_dirfd: at_fdcwd(),
                old,
                new_dirfd: self.as_raw_fd(),
                new,
                flags: at_symlink_follow(),
            },
        )
    }

    /// Plans making the symlink `path` in this directory, pointing at
    /// `value`.
    pub fn symlink(&self, path: &[u8], value: &[u8]) -> (r: Result<SysCall, Error>)
        ensures
            plan(r) == on_paths(
                path@,
                value@,
                Call::SymlinkAt { target: cstr(value@), dirfd: self.raw(), path: cstr(path@) },
            ),
    {
        let p = match to_cstr(path) {
            Ok(p) => p,
            Err(e) => return Err(e),
        };
        let v = match to_cstr(value) {
            Ok(v) => v,
            Err(e) => return Err(e),
        };
        Ok(SysCall::SymlinkAt { target: v, dirfd: self.as_raw_fd(), path: p })
    }

    /// Plans making the subdirectory `path`.
    pub fn create_dir(&self, path: &[u8], mode: u32) -> (r: Result<SysCall, Error>)
        ensures
            plan(r) == on_path(path@, Call::MkdirAt { dirfd: self.raw(), path: cstr(path@), mode }),
    {
        match to_cstr(path) {
            Ok(p) => Ok(SysCall::MkdirAt { dirfd: self.as_raw_fd(), path: p, mode }),
            Err(e) => Err(e),
        }
    }

    /// Plans renaming `old` to `new`, both in this directory.
    pub fn local_rename(&self, old: &[u8], new: &[u8]) -> (r: Result<SysCall, Error>)
        ensures
            plan(r) == on_paths(
                old@,
                new@,
                Call::RenameAt {
                    old_dirfd: self.raw(),
                    old: cstr(old@),
                    new_dirfd: self.raw(),
                    new: cstr(new@),
                    flags: 0,
                },
            ),
    {
        rename(self, old, self, new)
    }

    /// Plans swapping the entries `old` and `new` of this directory
    /// atomically.
    pub fn local_exchange(&self, old: &[u8], new: &[u8], caps: &Capabilities) -> (r: Result<
        SysCall,
        Error,
    >)
        ensures
            plan(r) == (if !caps.rename_exchange {
                Err(Error::Unsupported)
            } else {
                on_paths(
                    old@,
                    new@,
                    Call::RenameAt {
                        old_dirfd: self.raw(),
                        old: cstr(old@),
                        new_dirfd: self.raw(),
                        new: cstr(new@),
                        flags: spec_rename_exchange(),
                    },
                )
            }),
    {
        if !caps.rename_exchange {
            return Err(Error::Unsupported);
        }
        let o = match to_cstr(old) {
            Ok(p) => p,
            Err(e) => return Err(e),
        };
        let n = match to_cstr(new) {
            Ok(p) => p,
            Err(e) => return Err(e),
        };
        let fd = self.as_raw_fd();
        Ok(SysCall::RenameAt { old_dirfd: fd, old: o, new_dirfd: fd, new: n, flags: rename_exchange() })
    }

    /// Plans removing the empty subdirectory `path`.
    pub fn remove_dir(&self, path: &[u8]) -> (r: Result<SysCall, Error>)
        ensures
            plan(r) == on_path(
                path@,
                Call::UnlinkAt { dirfd: self.raw(), path: cstr(path@), flags: spec_at_removedir() },
            ),
    {
        match to_cstr(path) {
            Ok(p) => Ok(SysCall::UnlinkAt { dirfd: self.as_raw_fd(), path: p, flags: at_removedir() }),
            Err(e) => Err(e),
        }
    }

    /// Plans removing the file `path`.
    pub fn remove_file(&self, path: &[u8]) -> (r: Result<SysCall, Error>)
        ensures
            plan(r) == on_path(
                path@,
                Call::UnlinkAt { dirfd: self.raw(), path: cstr(path@), flags: 0 },
            ),
    {
        match to_cstr(path) {
            Ok(p) => Ok(SysCall::UnlinkAt { dirfd: self.as_raw_fd(), path: p, flags: 0 }),
            Err(e) => Err(e),
        }
    }

    /// The path under `/proc` through which the directory's own path can be
    /// read.
    pub fn recover_path(&self, caps: &Capabilities) -> (r: Result<Vec<u8>, Error>)
        ensures
            !caps.descriptor_linking ==> r == Err::<Vec<u8>, Error>(Error::Unsupported),
            caps.descriptor_linking ==> r is Ok && r->Ok_0@ == match self.fd {
                DirFd::Fd(n) => proc_fd_path(n as int),
                DirFd::Cwd => proc_cwd_path(),
            },
    {
        if !caps.descriptor_linking {
            return Err(Error::Unsupported);
        }
        match self.fd {
            DirFd::Fd(n) => Ok(proc_fd_path_of(n)),
            DirFd::Cwd => Ok(
                vec![47u8, 112u8, 114u8, 111u8, 99u8, 47u8, 115u8, 101u8, 108u8, 102u8, 47u8, 99u8, 119u8, 100u8],
            ),
        }
    }

    /// Plans reading the status of the entry `path`, not following a final
    /// symlink.
    pub fn metadata(&self, path: &[u8]) -> (r: Result<SysCall, Error>)
        ensures
            plan(r) == on_path(
                path@,
                Call::FstatAt { dirfd: self.raw(), path: cstr(path@), flags: spec_at_symlink_nofollow() },
            ),
    {
        match to_cstr(path) {
            Ok(p) => Ok(
                SysCall::FstatAt { dirfd: self.as_raw_fd(), path: p, flags: at_symlink_nofollow() },
            ),
            Err(e) => Err(e),
        }
    }

    /// Plans reading the status of the directory itself.
    pub fn self_metadata(&self) -> (r: SysCall)
        ensures
            r@ == (Call::Fstat { fd: self.raw() }),
    {
        SysCall::Fstat { fd: self.as_raw_fd() }
    }

    /// Plans a new handle of the same kind, once this one has been
    /// classified as `kind`.
    pub fn try_clone(&self, kind: FdType) -> (r: Result<SysCall, Error>)
        ensures
            plan(r) == clone_plan(self.raw(), kind),
    {
        clone_dirfd(self.as_raw_fd(), kind)
    }

    /// Plans a new normal handle, once this one has been classified as
    /// `kind`.
    pub fn clone_upgrade(&self, kind: FdType) -> (r: Result<SysCall, Error>)
        ensures
            plan(r) == upgrade_plan(self.raw(), kind, 0),
    {
        clone_dirfd_upgrade(self.as_raw_fd(), kind, 0)
    }

    /// Plans a new restricted handle, once this one has been classified as
    /// `kind`.
    pub fn clone_downgrade(&self, kind: FdType, caps: &Capabilities) -> (r: Result<SysCall, Error>)
        ensures
            plan(r) == downgrade_plan(self.raw(), kind, *caps),
    {
        clone_dirfd_downgrade(self.as_raw_fd(), kind, caps)
    }

    /// Gives up the handle for listing: its descriptor goes to the
    /// directory stream. It must not be a restricted handle, or reading the
    /// stream fails.
    pub fn list(self) -> (r: i32)
        ensures
            r == self.raw(),
    {
        self.as_raw_fd()
    }

    /// Plans opening the subdirectory `path` for listing: a normal handle,
    /// not following a final symlink.
    pub fn list_dir(&self, path: &[u8]) -> (r: Result<SysCall, Error>)
        ensures
            plan(r) == on_path(
                path@,
                Call::OpenAt {
                    dirfd: self.raw(),
                    path: cstr(path@),
                    flags: method_default_flags() | spec_o_directory(),
                    mode: 0,
                },
            ),
    {
        open_at(self.as_raw_fd(), path, (o_cloexec() | o_nofollow()) | o_directory(), 0)
    }

    /// Plans a normal handle on this directory for listing it, once this one
    /// has been classified as `kind`.
    pub fn list_self(&self, kind: FdType) -> (r: Result<SysCall, Error>)
        ensures
            plan(r) == upgrade_plan(self.raw(), kind, method_default_flags()),
    {
        clone_dirfd_upgrade(self.as_raw_fd(), kind, o_cloexec() | o_nofollow())
    }
}

/// Plans renaming `old` in `old_dir` to `new` in `new_dir`. Both must lie on
/// one file system: nothing is copied.
pub fn rename(old_dir: &Dir, old: &[u8], new_dir: &Dir, new: &[u8]) -> (r: Result<SysCall, Error>)
    ensures
        plan(r) == on_paths(
            old@,
            new@,
            Call::RenameAt {
                old_dirfd: old_dir.raw(),
                old: cstr(old@),
                new_dirfd: new_dir.raw(),
                new: cstr(new@),
                flags: 0,
            },
        ),
{
    let o = match to_cstr(old) {
        Ok(p) => p,
        Err(e) => return Err(e),
    };
    let n = match to_cstr(new) {
        Ok(p) => p,
        Err(e) => return Err(e),
    };
    Ok(
        SysCall::RenameAt {
            old_dirfd: old_dir.as_raw_fd(),
            old: o,
            new_dirfd: new_dir.as_raw_fd(),
            new: n,
            flags: 0,
        },
    )
}

/// Plans a hard link `new` in `new_dir` to `old` in `old_dir`, not
/// following a symlink at `old`.
pub fn hardlink(old_dir: &Dir, old: &[u8], new_dir: &Dir, new: &[u8]) -> (r: Result<SysCall, Error>)
    ensures
        plan(r) == on_paths(
            old@,
            new@,
            Call::LinkAt {
                old_dirfd: old_dir.raw(),
                old: cstr(old@),
                new_dirfd: new_dir.raw(),
                new: cstr(new@),
                flags: 0,
            },
        ),
{
    let o = match to_cstr(old) {
        Ok(p) => p,
        Err(e) => return Err(e),
    };
    let n = match to_cstr(new) {
        Ok(p) => p,
        Err(e) => return Err(e),
    };
    Ok(
        SysCall::LinkAt {
            old_dirfd: old_dir.as_raw_fd(),
            old: o,
            new_dirfd: new_dir.as_raw_fd(),
            new: n,
            flags: 0,
        },
    )
}

/// Plans renaming with `flags`, where renames take flags.
pub fn rename_flags(
    old_dir: &Dir,
    old: &[u8],
    new_dir: &Dir,
    new: &[u8],
    flags: i32,
    caps: &Capabilities,
) -> (r: Result<SysCall, Error>)
    ensures
        plan(r) == (if !caps.rename_with_flags {
            Err(Error::Unsupported)
        } else {
            on_paths(
                old@,
                new@,
                Call::RenameAt {
                    old_dirfd: old_dir.raw(),
                    old: cstr(old@),
                    new_dirfd: new_dir.raw(),
                    new: cstr(new@),
                    flags,
                },
            )
        }),
{
    if !caps.rename_with_flags {
        return Err(Error::Unsupported);
    }
    let o = match to_cstr(old) {
        Ok(p) => p,
        Err(e) => return Err(e),
    };
    let n = match to_cstr(new) {
        Ok(p) => p,
        Err(e) => return Err(e),
    };
    Ok(
        SysCall::RenameAt {
            old_dirfd: old_dir.as_raw_fd(),
            old: o,
            new_dirfd: new_dir.as_raw_fd(),
            new: n,
            flags,
        },
    )
}

/// A handle made by upgrading a clone is a normal handle on the same
/// directory: the upgrade reopens `.` relative to the source, whatever the
/// source's kind, as a directory and with no restriction.
pub proof fn lemma_upgrade_is_normal(fd: i32, kind: FdType)
    requires
        kind != FdType::Other,
    ensures
        upgrade_plan(fd, kind, 0) == Ok::<Call, Error>(
            Call::OpenAt { dirfd: fd, path: dot_cstr(), flags: reopen_flags(), mode: 0 },
        ),
        reopen_flags() & spec_o_path() == 0,
        reopen_flags() & spec_o_directory() != 0,
{
    assert((0i32 | 0x10000i32) | 0x80000i32 == (0x10000i32 | 0x80000i32)) by (bit_vector);
    assert((0x10000i32 | 0x80000i32) & 0x200000i32 == 0) by (bit_vector);
    assert((0x10000i32 | 0x80000i32) & 0x10000i32 != 0) by (bit_vector);
}

/// Exclusive creation asks the system to create the file and to fail if
/// it exists, without truncating anything; a nul byte is refused before
/// any call.
pub proof fn lemma_new_file_exclusive()
    ensures
        file_flags(spec_o_creat() | spec_o_excl() | spec_o_wronly()) & spec_o_creat() != 0,
        file_flags(spec_o_creat() | spec_o_excl() | spec_o_wronly()) & spec_o_excl() != 0,
        file_flags(spec_o_creat() | spec_o_excl() | spec_o_wronly()) & spec_o_trunc() == 0,
        file_flags(spec_o_creat() | spec_o_excl() | spec_o_wronly()) & spec_o_append() == 0,
{
    assert((64i32 | 128i32 | 1i32) | 0x80000i32 | 0x20000i32 == 0xa00c1i32) by (bit_vector);
    assert(0xa00c1i32 & 64i32 != 0) by (bit_vector);
    assert(0xa00c1i32 & 128i32 != 0) by (bit_vector);
    assert(0xa00c1i32 & 512i32 == 0) by (bit_vector);
    assert(0xa00c1i32 & 1024i32 == 0) by (bit_vector);
}

/// A handle opened by `Dir::open` or `Dir::sub_dir` is restricted: its
/// flags classify it as such wherever restricted handles exist, so it is
/// no handle to list.
pub proof fn lemma_open_is_restricted(caps: Capabilities)
    requires
        caps.restricted_handles,
    ensures
        open_flags() & spec_o_directory() != 0,
        open_flags() & spec_o_path() != 0,
        sub_dir_flags() & spec_o_directory() != 0,
        sub_dir_flags() & spec_o_path() != 0,
{
    assert(0x10000i32 | (0x200000i32 | 0x80000i32) == 0x290000i32) by (bit_vector);
    assert((0x200000i32 | 0x80000i32 | 0x20000i32) | 0x10000i32 == 0x2b0000i32) by (bit_vector);
    assert(0x290000i32 & 0x10000i32 != 0) by (bit_vector);
    assert(0x290000i32 & 0x200000i32 != 0) by (bit_vector);
    assert(0x2b0000i32 & 0x10000i32 != 0) by (bit_vector);
    assert(0x2b0000i32 & 0x200000i32 != 0) by (bit_vector);
}

} // verus!
