//! Directory-relative file system access.
//!
//! Every operation is expressed relative to an open directory handle. This
//! crate holds the verified core: the handle model and its flags, the
//! classification of descriptors, the system calls that each operation makes
//! (with their exact arguments), how their results are read, the directory
//! iterator's state machine and the recursive-removal planner.
use vstd::prelude::*;

pub mod builder;
pub mod dir;
pub mod error;
pub mod list;
pub mod metadata;
pub mod path;
pub mod remove;
pub mod sys;

pub use builder::{DirFlags, DirMethodFlags};
pub use dir::{
    Call, Capabilities, Dir, DirFd, FdType, SysCall, hardlink, libc_ok, rename, rename_flags,
};
pub use error::Error;
pub use list::{DirIter, DirPosition, Entry, IterState, ReadOutcome, SimpleType, Step};
pub use metadata::{Metadata, Timespec};
pub use path::to_cstr;
pub use remove::{AtomicAction, AtomicRemove, RemoveAction, RemoveEvent, Remover};
