//! Values and pure functions of the host's C library.
//!
//! Each item here is taken from the `libc` crate. The contracts state the
//! values that `libc` defines for Linux on x86_64 with glibc.
use vstd::prelude::*;

verus! {

/// The value of `O_RDONLY` (open for reading only).
pub open spec fn spec_o_rdonly() -> i32 {
    0
}

/// Relies on `libc::O_RDONLY`.
#[verifier::external_body]
pub(crate) fn o_rdonly() -> (r: i32)
    ensures
        r == spec_o_rdonly(),
{
    libc::O_RDONLY
}

/// The value of `O_WRONLY` (open for writing only).
pub open spec fn spec_o_wronly() -> i32 {
    1
}

/// Relies on `libc::O_WRONLY`.
#[verifier::external_body]
pub(crate) fn o_wronly() -> (r: i32)
    ensures
        r == spec_o_wronly(),
{
    libc::O_WRONLY
}

/// The value of `O_RDWR` (open for reading and writing).
pub open spec fn spec_o_rdwr() -> i32 {
    2
}

/// Relies on `libc::O_RDWR`.
#[verifier::external_body]
pub(crate) fn o_rdwr() -> (r: i32)
    ensures
        r == spec_o_rdwr(),
{
    libc::O_RDWR
}

/// The value of `O_CREAT` (create the file if it is missing).
pub open spec fn spec_o_creat() -> i32 {
    64
}

/// Relies on `libc::O_CREAT`.
#[verifier::external_body]
pub(crate) fn o_creat() -> (r: i32)
    ensures
        r == spec_o_creat(),
{
    libc::O_CREAT
}

/// The value of `O_EXCL` (fail if the file exists).
pub open spec fn spec_o_excl() -> i32 {
    128
}

/// Relies on `libc::O_EXCL`.
#[verifier::external_body]
pub(crate) fn o_excl() -> (r: i32)
    ensures
        r == spec_o_excl(),
{
    libc::O_EXCL
}

/// The value of `O_TRUNC` (truncate on open).
pub open spec fn spec_o_trunc() -> i32 {
    512
}

/// Relies on `libc::O_TRUNC`.
#[verifier::external_body]
pub(crate) fn o_trunc() -> (r: i32)
    ensures
        r == spec_o_trunc(),
{
    libc::O_TRUNC
}

/// The value of `O_APPEND` (append on each write).
pub open spec fn spec_o_append() -> i32 {
    1024
}

/// Relies on `libc::O_APPEND`.
#[verifier::external_body]
pub(crate) fn o_append() -> (r: i32)
    ensures
        r == spec_o_append(),
{
    libc::O_APPEND
}

/// The value of `O_DIRECTORY` (fail unless the target is a directory).
pub open spec fn spec_o_directory() -> i32 {
    0x10000
}

/// Relies on `libc::O_DIRECTORY`.
#[verifier::external_body]
pub(crate) fn o_directory() -> (r: i32)
    ensures
        r == spec_o_directory(),
{
    libc::O_DIRECTORY
}

/// The value of `O_NOFOLLOW` (fail on a symlink in the last component).
pub open spec fn spec_o_nofollow() -> i32 {
    0x20000
}

/// Relies on `libc::O_NOFOLLOW`.
#[verifier::external_body]
pub(crate) fn o_nofollow() -> (r: i32)
    ensures
        r == spec_o_nofollow(),
{
    libc::O_NOFOLLOW
}

/// The value of `O_CLOEXEC` (close the descriptor on exec).
pub open spec fn spec_o_cloexec() -> i32 {
    0x80000
}

/// Relies on `libc::O_CLOEXEC`.
#[verifier::external_body]
pub(crate) fn o_cloexec() -> (r: i32)
    ensures
        r == spec_o_cloexec(),
{
    libc::O_CLOEXEC
}

/// The value of `O_PATH` (open an anchor-only descriptor).
pub open spec fn spec_o_path() -> i32 {
    0x200000
}

/// Relies on `libc::O_PATH`.
#[verifier::external_body]
pub(crate) fn o_path() -> (r: i32)
    ensures
        r == spec_o_path(),
{
    libc::O_PATH
}

/// The value of `O_TMPFILE` (create an unnamed file).
pub open spec fn spec_o_tmpfile() -> i32 {
    0x410000
}

/// Relies on `libc::O_TMPFILE`.
#[verifier::external_body]
pub(crate) fn o_tmpfile() -> (r: i32)
    ensures
        r == spec_o_tmpfile(),
{
    libc::O_TMPFILE
}

/// The value of `AT_FDCWD` (the descriptor value that stands for the working directory).
pub open spec fn spec_at_fdcwd() -> i32 {
    -100i32
}

/// Relies on `libc::AT_FDCWD`.
#[verifier::external_body]
pub(crate) fn at_fdcwd() -> (r: i32)
    ensures
        r == spec_at_fdcwd(),
{
    libc::AT_FDCWD
}

/// The value of `AT_SYMLINK_NOFOLLOW` (do not follow a final symlink).
pub open spec fn spec_at_symlink_nofollow() -> i32 {
    0x100
}

/// Relies on `libc::AT_SYMLINK_NOFOLLOW`.
#[verifier::external_body]
pub(crate) fn at_symlink_nofollow() -> (r: i32)
    ensures
        r == spec_at_symlink_nofollow(),
{
    libc::AT_SYMLINK_NOFOLLOW
}

/// The value of `AT_REMOVEDIR` (remove a directory rather than a file).
pub open spec fn spec_at_removedir() -> i32 {
    0x200
}

/// Relies on `libc::AT_REMOVEDIR`.
#[verifier::external_body]
pub(crate) fn at_removedir() -> (r: i32)
    ensures
        r == spec_at_removedir(),
{
    libc::AT_REMOVEDIR
}

/// The value of `AT_SYMLINK_FOLLOW` (follow a final symlink).
pub open spec fn spec_at_symlink_follow() -> i32 {
    0x400
}

/// Relies on `libc::AT_SYMLINK_FOLLOW`.
#[verifier::external_body]
pub(crate) fn at_symlink_follow() -> (r: i32)
    ensures
        r == spec_at_symlink_follow(),
{
    libc::AT_SYMLINK_FOLLOW
}

/// The value of `EBADF` (bad file descriptor).
pub open spec fn spec_ebadf() -> i32 {
    9
}

/// Relies on `libc::EBADF`.
#[verifier::external_body]
pub(crate) fn ebadf() -> (r: i32)
    ensures
        r == spec_ebadf(),
{
    libc::EBADF
}

/// The value of `ENOTDIR` (not a directory).
pub open spec fn spec_enotdir() -> i32 {
    20
}

/// Relies on `libc::ENOTDIR`.
#[verifier::external_body]
pub(crate) fn enotdir() -> (r: i32)
    ensures
        r == spec_enotdir(),
{
    libc::ENOTDIR
}

/// The value of `S_IFMT` (mask of the file type bits of a mode).
pub open spec fn spec_s_ifmt() -> u32 {
    0o170000
}

/// Relies on `libc::S_IFMT`.
#[verifier::external_body]
pub(crate) fn s_ifmt() -> (r: u32)
    ensures
        r == spec_s_ifmt(),
{
    libc::S_IFMT
}

/// The value of `S_IFCHR` (character device).
pub open spec fn spec_s_ifchr() -> u32 {
    0o020000
}

/// Relies on `libc::S_IFCHR`.
#[verifier::external_body]
pub(crate) fn s_ifchr() -> (r: u32)
    ensures
        r == spec_s_ifchr(),
{
    libc::S_IFCHR
}

/// The value of `S_IFDIR` (directory).
pub open spec fn spec_s_ifdir() -> u32 {
    0o040000
}

/// Relies on `libc::S_IFDIR`.
#[verifier::external_body]
pub(crate) fn s_ifdir() -> (r: u32)
    ensures
        r == spec_s_ifdir(),
{
    libc::S_IFDIR
}

/// The value of `S_IFBLK` (block device).
pub open spec fn spec_s_ifblk() -> u32 {
    0o060000
}

/// Relies on `libc::S_IFBLK`.
#[verifier::external_body]
pub(crate) fn s_ifblk() -> (r: u32)
    ensures
        r == spec_s_ifblk(),
{
    libc::S_IFBLK
}

/// The value of `S_IFREG` (regular file).
pub open spec fn spec_s_ifreg() -> u32 {
    0o100000
}

/// Relies on `libc::S_IFREG`.
#[verifier::external_body]
pub(crate) fn s_ifreg() -> (r: u32)
    ensures
        r == spec_s_ifreg(),
{
    libc::S_IFREG
}

/// The value of `S_IFLNK` (symbolic link).
pub open spec fn spec_s_iflnk() -> u32 {
    0o120000
}

/// Relies on `libc::S_IFLNK`.
#[verifier::external_body]
pub(crate) fn s_iflnk() -> (r: u32)
    ensures
        r == spec_s_iflnk(),
{
    libc::S_IFLNK
}

/// The value of `DT_UNKNOWN` (entry type not reported).
pub open spec fn spec_dt_unknown() -> u8 {
    0
}

/// Relies on `libc::DT_UNKNOWN`.
#[verifier::external_body]
pub(crate) fn dt_unknown() -> (r: u8)
    ensures
        r == spec_dt_unknown(),
{
    libc::DT_UNKNOWN
}

/// The value of `DT_DIR` (entry is a directory).
pub open spec fn spec_dt_dir() -> u8 {
    4
}

/// Relies on `libc::DT_DIR`.
#[verifier::external_body]
pub(crate) fn dt_dir() -> (r: u8)
    ensures
        r == spec_dt_dir(),
{
    libc::DT_DIR
}

/// The value of `DT_REG` (entry is a regular file).
pub open spec fn spec_dt_reg() -> u8 {
    8
}

/// Relies on `libc::DT_REG`.
#[verifier::external_body]
pub(crate) fn dt_reg() -> (r: u8)
    ensures
        r == spec_dt_reg(),
{
    libc::DT_REG
}

/// The value of `DT_LNK` (entry is a symbolic link).
pub open spec fn spec_dt_lnk() -> u8 {
    10
}

/// Relies on `libc::DT_LNK`.
#[verifier::external_body]
pub(crate) fn dt_lnk() -> (r: u8)
    ensures
        r == spec_dt_lnk(),
{
    libc::DT_LNK
}

/// The value of `RENAME_EXCHANGE` (swap both names atomically).
pub open spec fn spec_rename_exchange() -> i32 {
    2
}

/// Relies on `libc::RENAME_EXCHANGE`, an unsigned constant that fits in `i32`.
#[verifier::external_body]
pub(crate) fn rename_exchange() -> (r: i32)
    ensures
        r == spec_rename_exchange(),
{
    libc::RENAME_EXCHANGE as i32
}

/// The major number that a device number encodes.
pub open spec fn major_of(dev: u64) -> u32 {
    (((dev & 0x00000000000fff00u64) >> 8u64) | ((dev & 0xfffff00000000000u64) >> 32u64)) as u32
}

/// The minor number that a device number encodes.
pub open spec fn minor_of(dev: u64) -> u32 {
    ((dev & 0x00000000000000ffu64) | ((dev & 0x00000ffffff00000u64) >> 12u64)) as u32
}

/// Relies on `libc::major`: the major number of a device number.
#[verifier::external_body]
pub(crate) fn major(dev: u64) -> (r: u32)
    ensures
        r == major_of(dev),
{
    libc::major(dev)
}

/// Relies on `libc::minor`: the minor number of a device number.
#[verifier::external_body]
pub(crate) fn minor(dev: u64) -> (r: u32)
    ensures
        r == minor_of(dev),
{
    libc::minor(dev)
}

} // verus!
