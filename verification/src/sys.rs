//! Trusted boundary to the operating system.
//!
//! Every function here is a thin wrapper around one call into the `nix`
//! crate; Verus believes the stated contracts and does not look at the
//! bodies. Everything that can be checked — how the raw values that come
//! back are combined into identities and decisions — lives in verified
//! code elsewhere in the crate.

use vstd::prelude::*;

verus! {

/// Metadata of an open descriptor, exactly as POSIX `fstat` reports it:
/// device, inode, size in bytes, and the raw `st_mode` bits.
pub struct RawMetadata {
    pub device: u64,
    pub inode: u64,
    pub size: u64,
    pub mode: u32,
}

/// Relies on `nix::sys::stat::fstat`: on success the record carries the
/// descriptor's device, inode, size and mode fields verbatim from the OS;
/// on failure the OS errno is returned. What the OS reports depends on the
/// state of the file system, so nothing is promised of the values.
#[verifier::external_body]
pub(crate) fn fstat_fd(fd: i32) -> (r: Result<RawMetadata, i32>) {
    match nix::sys::stat::fstat(fd) {
        Ok(st) => Ok(RawMetadata {
            device: st.st_dev as u64,
            inode: st.st_ino as u64,
            size: st.st_size as u64,
            mode: st.st_mode as u32,
        }),
        Err(e) => Err(e as i32),
    }
}

/// Relies on `nix::unistd::lseek` with `SEEK_CUR` and offset zero: on
/// success it returns the current file offset, which `lseek` reports as a
/// non-negative value, without moving it; on failure the OS errno. The
/// offset is live OS state, so nothing is promised of the value.
#[verifier::external_body]
pub(crate) fn current_offset_fd(fd: i32) -> (r: Result<u64, i32>) {
    match nix::unistd::lseek(fd, 0, nix::unistd::Whence::SeekCur) {
        Ok(off) => Ok(off as u64),
        Err(e) => Err(e as i32),
    }
}

/// Relies on `nix::unistd::isatty`: `Ok(true)` iff the descriptor refers to
/// a terminal device, `Ok(false)` if it is open but no terminal, and the OS
/// errno when the descriptor cannot be examined at all.
#[verifier::external_body]
pub(crate) fn isatty_fd(fd: i32) -> (r: Result<bool, i32>) {
    match nix::unistd::isatty(fd) {
        Ok(b) => Ok(b),
        Err(e) => Err(e as i32),
    }
}

/// Relies on `nix::unistd::close`: releases the descriptor. A failure to
/// close is deliberately dropped here — release at destruction is
/// best-effort only and not observable to the caller.
#[verifier::external_body]
pub(crate) fn close_fd(fd: i32)
    opens_invariants none
    no_unwind
{
    let _ = nix::unistd::close(fd);
}

/// Relies on `nix::fcntl::open` with `O_RDONLY`: on success it returns the
/// newly opened, non-negative file descriptor, which the caller then owns;
/// on failure the OS errno.
#[verifier::external_body]
pub(crate) fn open_read_path(path: &str) -> (r: Result<i32, i32>)
    ensures
        r matches Ok(fd) ==> 0 <= fd,
{
    match nix::fcntl::open(path, nix::fcntl::OFlag::O_RDONLY, nix::sys::stat::Mode::empty()) {
        Ok(fd) => Ok(fd),
        Err(e) => Err(e as i32),
    }
}

} // verus!
