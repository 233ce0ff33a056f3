use openat::{Dir, Error, FdType, SysCall, Capabilities};

#[test]
fn dir_flags_builder_basic() {
    let dir = Dir::flags()
        .without(libc::O_CLOEXEC)
        .with(libc::O_NOFOLLOW)
        .open(b"src");

    assert!(dir.is_ok());
}

#[test]
fn dir_flags_builder_reuse() {
    let dir_flags = Dir::flags().without(libc::O_CLOEXEC).with(libc::O_NOFOLLOW);

    let src_dir = dir_flags.open(b"src");
    let tests_dir = dir_flags.open(b"tests");

    assert!(src_dir.is_ok());
    assert!(tests_dir.is_ok());
}

#[test]
fn method_flags_exported() {
    let dir = Dir::flags()
        .with(libc::O_PATH)
        .open(b"src");

    assert!(dir.is_ok());
}

#[test]
fn dir_flags_values() {
    assert_eq!(Dir::flags().get_flags(), libc::O_CLOEXEC);
    let f = Dir::flags().without(libc::O_CLOEXEC).with(libc::O_NOFOLLOW);
    assert_eq!(f.get_flags(), libc::O_NOFOLLOW);
    match f.open(b"src").unwrap() {
        SysCall::Open { path, flags } => {
            assert_eq!(path, b"src\0".to_vec());
            assert_eq!(flags, libc::O_DIRECTORY | libc::O_NOFOLLOW);
        }
        other => panic!("unexpected call {:?}", other),
    }
    assert_eq!(f.open(b"s\0rc").unwrap_err(), Error::InvalidInput);
}

#[test]
fn method_flags_values() {
    let dir = Dir::from_fd(3);
    let b = dir.with(0);
    assert_eq!(b.flags, libc::O_CLOEXEC | libc::O_NOFOLLOW);
    let b = dir.without(libc::O_NOFOLLOW);
    assert_eq!(b.flags, libc::O_CLOEXEC);
    match b.open_file(b"dir.rs").unwrap() {
        SysCall::OpenAt { dirfd, flags, .. } => {
            assert_eq!(dirfd, 3);
            assert_eq!(flags, libc::O_CLOEXEC | libc::O_RDONLY);
        }
        other => panic!("unexpected call {:?}", other),
    }
    let b = b.with(libc::O_NOATIME).without(libc::O_CLOEXEC);
    assert_eq!(b.flags, libc::O_NOATIME);
    match b.sub_dir(b"d").unwrap() {
        SysCall::OpenAt { flags, .. } => assert_eq!(flags, libc::O_NOATIME | libc::O_DIRECTORY),
        other => panic!("unexpected call {:?}", other),
    }
    match b.write_file(b"w", 0o600).unwrap() {
        SysCall::OpenAt { flags, mode, .. } => {
            assert_eq!(flags, libc::O_NOATIME | libc::O_CREAT | libc::O_WRONLY | libc::O_TRUNC);
            assert_eq!(mode, 0o600);
        }
        other => panic!("unexpected call {:?}", other),
    }
    match b.append_file(b"w", 0o600).unwrap() {
        SysCall::OpenAt { flags, .. } => {
            assert_eq!(flags, libc::O_NOATIME | libc::O_CREAT | libc::O_WRONLY | libc::O_APPEND)
        }
        other => panic!("unexpected call {:?}", other),
    }
    match b.new_file(b"w", 0o600).unwrap() {
        SysCall::OpenAt { flags, .. } => {
            assert_eq!(flags, libc::O_NOATIME | libc::O_CREAT | libc::O_EXCL | libc::O_WRONLY)
        }
        other => panic!("unexpected call {:?}", other),
    }
    match b.new_unnamed_file(0o600, &Capabilities::host()).unwrap() {
        SysCall::OpenAt { flags, .. } => assert_eq!(flags, libc::O_NOATIME | libc::O_TMPFILE | libc::O_WRONLY),
        other => panic!("unexpected call {:?}", other),
    }
    match b.clone_upgrade(FdType::OPathDir).unwrap() {
        SysCall::OpenAt { flags, .. } => {
            assert_eq!(flags, libc::O_NOATIME | libc::O_DIRECTORY | libc::O_CLOEXEC)
        }
        other => panic!("unexpected call {:?}", other),
    }
}

#[test]
fn upgraded_handle_acts_like_opened_one() {
    let opened = Dir::from_fd(4);
    let upgraded = Dir::from_fd(9);
    for (a, b) in [
        (opened.sub_dir(b"p").unwrap(), upgraded.sub_dir(b"p").unwrap()),
        (opened.open_file(b"p").unwrap(), upgraded.open_file(b"p").unwrap()),
    ] {
        match (a, b) {
            (
                SysCall::OpenAt { dirfd: d1, path: p1, flags: f1, mode: m1 },
                SysCall::OpenAt { dirfd: d2, path: p2, flags: f2, mode: m2 },
            ) => {
                assert_eq!((d1, d2), (4, 9));
                assert_eq!((p1, f1, m1), (p2, f2, m2));
            }
            other => panic!("unexpected calls {:?}", other),
        }
    }
}

fn src_dir() -> Dir {
    assert!(Dir::open(b"src").is_ok());
    Dir::from_open_result(3, 0).unwrap()
}

#[test]
fn method_flags_builder_basic() {
    let dir = src_dir();
    let file = dir.without(libc::O_NOFOLLOW).open_file(b"dir.rs");
    assert!(file.is_ok());
}

#[test]
fn method_flags_builder_reuse() {
    let dir = src_dir();
    let dir_flags = dir.without(libc::O_NOFOLLOW);

    let file1 = dir_flags.open_file(b"dir.rs");
    let file2 = dir_flags.open_file(b"builder.rs");

    assert!(file1.is_ok());
    assert!(file2.is_ok());
}
