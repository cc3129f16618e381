//! The conflict predicate on real resources: regular files and a pty.

use clircle::{Clircle, Identifier, UnixIdentifier};

use nix::fcntl::{open, OFlag};
use nix::pty::{openpty, OpenptyResult};
use nix::sys::stat::Mode;
use nix::unistd::{close, read};

#[test]
fn test_pty_equal_but_not_conflicting() -> Result<(), &'static str> {
    let OpenptyResult { master, slave } = openpty(None, None).expect("Could not open pty.");
    let res = UnixIdentifier::try_from_raw_fd(slave, false)
        .map_err(|_| "Error creating UnixIdentifier from pty fd")
        .and_then(|ident| {
            if !ident.eq(&ident) {
                return Err("ident != ident");
            }
            if ident.surely_conflicts_with(&ident) {
                return Err("pty fd does not conflict with itself, but conflict detected");
            }

            let second_ident = UnixIdentifier::try_from_raw_fd(slave, false)
                .map_err(|_| "Error creating second Identifier to pty")?;
            if !ident.eq(&second_ident) {
                return Err("ident != second_ident");
            }
            if ident.surely_conflicts_with(&second_ident) {
                return Err("Two Identifiers to the same pty should not conflict, but they do.");
            }
            Ok(())
        });

    let r1 = close(master);
    let r2 = close(slave);

    r1.expect("Error closing master end of pty");
    r2.expect("Error closing slave end of pty");

    res
}

#[test]
fn test_pty_not_conflicting_in_either_ordering() {
    let OpenptyResult { master, slave } = openpty(None, None).expect("Could not open pty.");

    let a = UnixIdentifier::try_from_raw_fd(slave, false)
        .expect("Error creating UnixIdentifier from pty fd");
    let b = UnixIdentifier::try_from_raw_fd(slave, false)
        .expect("Error creating second UnixIdentifier from pty fd");
    assert!(a == b);
    assert!(!a.surely_conflicts_with(&b));
    assert!(!b.surely_conflicts_with(&a));
    drop(a);
    drop(b);

    close(master).expect("Error closing master end of pty");
    close(slave).expect("Error closing slave end of pty");
}

#[test]
fn test_conflict_on_regular_file_with_unread_content() {
    let dir = tempfile::tempdir().expect("Couldn't create tempdir.");
    let path = dir.path().join("payload");
    let fd = open(
        &path,
        OFlag::O_CREAT | OFlag::O_WRONLY,
        Mode::from_bits_truncate(0o600),
    )
    .expect("Could not create test file.");
    nix::unistd::write(fd, b"Some test content").expect("Error filling test file");
    close(fd).expect("Error closing test file");

    let path_str = path.to_str().expect("path was not UTF-8");
    let writer = Identifier::from_path(path_str).expect("Error deriving writer identity");

    // A reader that has not consumed the file yet: a certain hazard.
    let reader_fd = open(&path, OFlag::O_RDONLY, Mode::empty()).expect("Could not open reader.");
    let reader =
        Identifier::try_from_raw_fd(reader_fd, false).expect("Error deriving reader identity");
    assert!(writer == reader);
    assert!(writer.surely_conflicts_with(&reader));
    drop(reader);

    // Consume everything through the same descriptor: nothing left to
    // disturb, so the conflict is no longer certain.
    let mut buf = [0u8; 64];
    let mut total = 0;
    loop {
        let n = read(reader_fd, &mut buf).expect("Error reading test file");
        if n == 0 {
            break;
        }
        total += n;
    }
    assert_eq!(total, b"Some test content".len());
    let drained =
        Identifier::try_from_raw_fd(reader_fd, false).expect("Error deriving drained identity");
    assert!(writer == drained);
    assert!(!writer.surely_conflicts_with(&drained));
    drop(drained);

    close(reader_fd).expect("Error closing reader");
}

#[test]
fn test_distinct_files_never_conflict() {
    let dir = tempfile::tempdir().expect("Couldn't create tempdir.");
    let path_a = dir.path().join("a");
    let path_b = dir.path().join("b");
    for path in [&path_a, &path_b] {
        let fd = open(
            path,
            OFlag::O_CREAT | OFlag::O_WRONLY,
            Mode::from_bits_truncate(0o600),
        )
        .expect("Could not create test file.");
        nix::unistd::write(fd, b"x").expect("Error filling test file");
        close(fd).expect("Error closing test file");
    }

    let a = Identifier::from_path(path_a.to_str().expect("path was not UTF-8"))
        .expect("Error deriving identity");
    let b = Identifier::from_path(path_b.to_str().expect("path was not UTF-8"))
        .expect("Error deriving identity");

    assert!(a != b);
    // Unequal identities never surely conflict, in either ordering, even
    // though both files still have unread content.
    assert!(!a.surely_conflicts_with(&b));
    assert!(!b.surely_conflicts_with(&a));
}
