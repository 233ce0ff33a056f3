use openat::list::{open_dirfd, simple_type_of_tag};
use openat::{Dir, FdType, SysCall, DirIter, DirPosition, Entry, Error, IterState, ReadOutcome, SimpleType, Step};

fn read(name: &str, d_type: u8) -> ReadOutcome {
    ReadOutcome::Entry { name: name.as_bytes().to_vec(), d_type, ino: 7 }
}

/// Runs an iterator over the reads `reads` the way a caller does, and
/// collects what it yields.
fn collect(it: &mut DirIter, reads: Vec<ReadOutcome>) -> Vec<Result<Entry, Error>> {
    let mut reads = reads.into_iter();
    let mut out = Vec::new();
    loop {
        if !it.needs_read() {
            match it.idle_next() {
                Some(x) => {
                    out.push(x);
                    return out;
                }
                None => return out,
            }
        }
        match it.next_entry(reads.next().unwrap_or(ReadOutcome::End)) {
            Step::Skip => continue,
            Step::Yield(e) => out.push(Ok(e)),
            Step::End => return out,
            Step::Error(e) => {
                out.push(Err(e));
                return out;
            }
        }
    }
}

#[test]
fn listing_skips_dot_entries() {
    let mut it = open_dirfd(true, 0).unwrap();
    let got = collect(
        &mut it,
        vec![read(".", libc::DT_DIR), read("a", libc::DT_REG), read("..", libc::DT_DIR), read("b", libc::DT_DIR)],
    );
    let names: Vec<Vec<u8>> = got.into_iter().map(|e| e.unwrap().file_name().to_vec()).collect();
    assert_eq!(names, vec![b"a".to_vec(), b"b".to_vec()]);
    assert_eq!(it.state, IterState::Ended);
}

#[test]
fn listing_finds_member() {
    let mut it = open_dirfd(true, 0).unwrap();
    let got = collect(&mut it, vec![read("lib.rs", libc::DT_REG), read("dir", libc::DT_DIR)]);
    assert!(got.iter().any(|e| e.as_ref().unwrap().file_name() == b"lib.rs"));
}

#[test]
fn entry_types_from_tags() {
    assert_eq!(simple_type_of_tag(libc::DT_UNKNOWN), None);
    assert_eq!(simple_type_of_tag(libc::DT_REG), Some(SimpleType::File));
    assert_eq!(simple_type_of_tag(libc::DT_DIR), Some(SimpleType::Dir));
    assert_eq!(simple_type_of_tag(libc::DT_LNK), Some(SimpleType::Symlink));
    assert_eq!(simple_type_of_tag(libc::DT_FIFO), Some(SimpleType::Other));
    let mut it = open_dirfd(true, 0).unwrap();
    match it.next_entry(ReadOutcome::Entry { name: b"x".to_vec(), d_type: libc::DT_LNK, ino: 42 }) {
        Step::Yield(e) => {
            assert_eq!(e.simple_type(), Some(SimpleType::Symlink));
            assert_eq!(e.inode(), 42);
            assert_eq!(e.file_name(), b"x");
        }
        _ => panic!("expected an entry"),
    }
}

#[test]
fn failed_read_is_an_error_not_the_end() {
    let mut it = open_dirfd(true, 0).unwrap();
    let got = collect(&mut it, vec![read("a", libc::DT_REG), ReadOutcome::Failed(libc::EBADF)]);
    assert_eq!(got.len(), 2);
    assert_eq!(got[1].as_ref().unwrap_err(), &Error::Os(libc::EBADF));
    assert_eq!(it.state, IterState::Failed);
    assert!(it.idle_next().is_none());
}

#[test]
fn opening_the_stream_can_fail() {
    assert_eq!(open_dirfd(false, libc::EBADF).unwrap_err(), Error::Os(libc::EBADF));
}

#[test]
fn close_is_idempotent() {
    let mut it = open_dirfd(true, 0).unwrap();
    assert!(it.close());
    assert!(!it.close());
    assert_eq!(it.state, IterState::Closed);
    let mut it = open_dirfd(true, 0).unwrap();
    collect(&mut it, vec![]);
    assert_eq!(it.state, IterState::Ended);
    assert!(it.close());
    assert!(!it.close());
}

#[test]
fn closed_stream_reports_bad_descriptor() {
    let mut it = open_dirfd(true, 0).unwrap();
    it.close();
    assert!(!it.needs_read());
    assert_eq!(it.idle_next().unwrap().unwrap_err(), Error::Os(libc::EBADF));
    assert_eq!(it.current_position(5, 0).unwrap_err(), Error::Os(libc::EBADF));
    assert_eq!(it.seek(DirPosition { pos: 5 }), None);
    assert!(!it.rewind());
    let e = Entry { name: b"f".to_vec(), file_type: None, ino: 1 };
    assert_eq!(e.metadata(None).unwrap_err(), Error::Os(libc::EBADF));
    match e.metadata(Some(4)).unwrap() {
        openat::SysCall::FstatAt { dirfd, path, flags } => {
            assert_eq!((dirfd, path, flags), (4, b"f\0".to_vec(), libc::AT_SYMLINK_NOFOLLOW));
        }
        other => panic!("unexpected call {:?}", other),
    }
}

#[test]
fn position_round_trip() {
    let mut it = open_dirfd(true, 0).unwrap();
    let p = it.current_position(1234, 0).unwrap();
    assert_eq!(p, DirPosition { pos: 1234 });
    collect(&mut it, vec![read("a", libc::DT_REG)]);
    assert_eq!(it.state, IterState::Ended);
    assert_eq!(it.seek(p), Some(1234));
    assert_eq!(it.state, IterState::Open);
    assert_eq!(it.current_position(-1, libc::EBADF).unwrap_err(), Error::Os(libc::EBADF));
    collect(&mut it, vec![]);
    assert!(it.rewind());
    assert_eq!(it.state, IterState::Open);
}

fn src_listing() -> Vec<ReadOutcome> {
    vec![
        read(".", libc::DT_DIR),
        read("..", libc::DT_DIR),
        read("dir.rs", libc::DT_REG),
        read("lib.rs", libc::DT_REG),
    ]
}

fn lists_lib_rs(fd: i32) {
    assert!(fd >= 0);
    let mut it = open_dirfd(true, 0).unwrap();
    let got = collect(&mut it, src_listing());
    assert!(got
        .into_iter()
        .collect::<Result<Vec<_>, _>>()
        .unwrap()
        .iter()
        .find(|x| x.file_name() == b"lib.rs")
        .is_some());
}

fn opened_dir(call: SysCall, want_flags: i32) -> Dir {
    match call {
        SysCall::OpenAt { flags, .. } | SysCall::Open { flags, .. } => assert_eq!(flags, want_flags),
        other => panic!("unexpected call {:?}", other),
    }
    Dir::from_open_result(5, 0).unwrap()
}

#[test]
fn test_list() {
    let dir = opened_dir(Dir::flags().open(b"src").unwrap(), libc::O_DIRECTORY | libc::O_CLOEXEC);
    lists_lib_rs(dir.list());
}

#[test]
fn test_list_self() {
    let dir = opened_dir(Dir::open(b"src").unwrap(), libc::O_DIRECTORY | libc::O_PATH | libc::O_CLOEXEC);
    let me = opened_dir(
        dir.list_self(FdType::OPathDir).unwrap(),
        libc::O_CLOEXEC | libc::O_NOFOLLOW | libc::O_DIRECTORY,
    );
    lists_lib_rs(me.list());
}

#[test]
fn test_list_dot() {
    let dir = opened_dir(Dir::open(b"src").unwrap(), libc::O_DIRECTORY | libc::O_PATH | libc::O_CLOEXEC);
    match dir.list_dir(b".").unwrap() {
        SysCall::OpenAt { path, .. } => assert_eq!(path, b".\0".to_vec()),
        other => panic!("unexpected call {:?}", other),
    }
    let me = opened_dir(dir.list_dir(b".").unwrap(), libc::O_CLOEXEC | libc::O_NOFOLLOW | libc::O_DIRECTORY);
    lists_lib_rs(me.list());
}

#[test]
fn test_list_dir() {
    let dir = opened_dir(Dir::open(b".").unwrap(), libc::O_DIRECTORY | libc::O_PATH | libc::O_CLOEXEC);
    match dir.list_dir(b"src").unwrap() {
        SysCall::OpenAt { path, .. } => assert_eq!(path, b"src\0".to_vec()),
        other => panic!("unexpected call {:?}", other),
    }
    let me = opened_dir(dir.list_dir(b"src").unwrap(), libc::O_CLOEXEC | libc::O_NOFOLLOW | libc::O_DIRECTORY);
    lists_lib_rs(me.list());
}
