//! The POSIX backend: identities built on the device and inode pair.

use vstd::prelude::*;
use vstd::std_specs::cmp::PartialEqSpec;

use crate::spec_conflict;
use crate::spec_stdio_fd;
use crate::stdio_fd;
use crate::sys;
use crate::Clircle;
use crate::Error;
use crate::Stdio;

verus! {

/// Identity of an open file on a POSIX system: the device and inode pair
/// that names the file, the size and file type seen when the identity was
/// derived, and the descriptor it was derived from, together with the duty
/// — or not — to close that descriptor.
#[derive(Debug)]
pub struct UnixIdentifier {
    device: u64,
    inode: u64,
    size: u64,
    is_regular_file: bool,
    fd: i32,
    owns_fd: bool,
}

/// Whether POSIX `st_mode` bits describe a regular file: the file-type bits
/// (mask `0o170000`) hold the regular-file type `0o100000`.
pub open spec fn spec_mode_is_regular(mode: u32) -> bool {
    mode & 0o170000 == 0o100000
}

/// The terminal gate of stream resolution: what a terminal probe's report
/// dictates. A stream that the probe says is a terminal is refused with the
/// distinct is-terminal error; a stream the probe clears, or one the probe
/// could not examine at all, goes on to the metadata query, which surfaces
/// its own failure.
pub fn terminal_gate(report: Result<bool, i32>) -> (r: Option<Error>)
    ensures
        r == (match report {
            Ok(true) => Some(Error::IsTerminal),
            _ => None::<Error>,
        }),
{
    match report {
        Ok(true) => Some(Error::IsTerminal),
        _ => None,
    }
}

impl UnixIdentifier {
    /// Builds the identity that a raw metadata record describes, for the
    /// given descriptor, owned iff `owns_fd`. This is the whole step from
    /// what `fstat` reported to an identity; nothing of the record is
    /// dropped but the non-type bits of the mode.
    pub fn from_stat(fd: i32, owns_fd: bool, meta: &sys::RawMetadata) -> (id: Self)
        ensures
            id.key() == (meta.device, meta.inode),
            id.size() == meta.size,
            id.is_regular() == spec_mode_is_regular(meta.mode),
            id.fd() == fd,
            id.owns() == owns_fd,
    {
        UnixIdentifier {
            device: meta.device,
            inode: meta.inode,
            size: meta.size,
            is_regular_file: (meta.mode & 0o170000) == 0o100000,
            fd,
            owns_fd,
        }
    }

    /// Derives the identity of an already-open descriptor. `owns_fd` says
    /// whether the identity is to close the descriptor when it is destroyed:
    /// hand `true` only for a descriptor whose ownership is given up with
    /// the call. When the metadata query fails, an owned descriptor is
    /// released before the error is returned; a borrowed one is left alone.
    pub fn try_from_raw_fd(fd: i32, owns_fd: bool) -> (r: Result<Self, Error>)
        ensures
            fd < 0 ==> r == Err::<UnixIdentifier, Error>(Error::InvalidHandle),
            r matches Ok(id) ==> id.fd() == fd && id.owns() == owns_fd,
            r matches Err(e) ==> (e == Error::InvalidHandle || e matches Error::MetadataQueryFailed(_)),
            0 <= fd ==> (r matches Err(e) ==> e matches Error::MetadataQueryFailed(_)),
    {
        if fd < 0 {
            return Err(Error::InvalidHandle);
        }
        match sys::fstat_fd(fd) {
            Ok(meta) => Ok(UnixIdentifier::from_stat(fd, owns_fd, &meta)),
            Err(errno) => {
                if owns_fd {
                    sys::close_fd(fd);
                }
                Err(Error::MetadataQueryFailed(errno))
            },
        }
    }

    /// Derives the identity of the file behind a path, opening it read-only.
    /// The identity owns the new descriptor. A failure to open surfaces as a
    /// metadata-query failure carrying the OS errno.
    pub fn from_path(path: &str) -> (r: Result<Self, Error>)
        ensures
            r matches Ok(id) ==> id.owns() && 0 <= id.fd(),
            r matches Err(e) ==> e matches Error::MetadataQueryFailed(_),
    {
        match sys::open_read_path(path) {
            Ok(fd) => UnixIdentifier::try_from_raw_fd(fd, true),
            Err(errno) => Err(Error::MetadataQueryFailed(errno)),
        }
    }

    /// Current read offset of the descriptor, where the OS can report one.
    fn current_file_offset(&self) -> Option<u64> {
        match sys::current_offset_fd(self.fd) {
            Ok(off) => Some(off),
            Err(_) => None,
        }
    }

    /// The exact conflict decision, taken from the reader's offset as it
    /// came back from the OS — `None` where it could not be read.
    pub fn conflicts_given_offset(&self, other: &Self, offset: Option<u64>) -> (r: bool)
        ensures
            r == spec_conflict(self.key(), self.is_regular(), other.key(), other.size(), offset),
    {
        (self.device == other.device) && (self.inode == other.inode) && self.is_regular_file
            && (match offset {
            Some(o) => o < other.size,
            None => true,
        })
    }

    /// Releases the descriptor iff the identity still owns it, and strips
    /// the duty to close from the identity; everything else is kept. A
    /// failure to close is swallowed: release is best-effort only. This is
    /// what destruction runs; a borrowed identity's descriptor is never
    /// touched.
    pub fn release(&mut self)
        ensures
            !final(self).owns(),
            final(self).key() == old(self).key(),
            final(self).size() == old(self).size(),
            final(self).is_regular() == old(self).is_regular(),
            final(self).fd() == old(self).fd(),
        opens_invariants none
        no_unwind
    {
        if self.owns_fd {
            self.owns_fd = false;
            sys::close_fd(self.fd);
        }
    }
}

impl Clircle for UnixIdentifier {
    /// Device and inode: the key POSIX keeps unique per file system among
    /// live files.
    closed spec fn key(&self) -> (u64, u64) {
        (self.device, self.inode)
    }

    closed spec fn size(&self) -> u64 {
        self.size
    }

    closed spec fn is_regular(&self) -> bool {
        self.is_regular_file
    }

    closed spec fn owns(&self) -> bool {
        self.owns_fd
    }

    closed spec fn fd(&self) -> i32 {
        self.fd
    }

    fn same_file_as(&self, other: &Self) -> bool {
        (self.device == other.device) && (self.inode == other.inode)
    }

    /// The conflict check used by the GNU coreutils program `cat`: equal
    /// identities, a regular file on the writer side, and unread content —
    /// or an unreadable offset — on the reader side. The result is the
    /// exact conflict decision for whatever the offset query reported;
    /// [`UnixIdentifier::conflicts_given_offset`] carries that decision for
    /// each possible report.
    fn surely_conflicts_with(&self, other: &Self) -> (r: bool) {
        if self.same_file_as(other) && self.is_regular_file {
            let offset = other.current_file_offset();
            self.conflicts_given_offset(other, offset)
        } else {
            proof {
                assert(!spec_conflict(self.key(), self.is_regular(), other.key(), other.size(), None));
            }
            false
        }
    }

    fn into_inner(self) -> Option<i32> {
        if self.owns_fd {
            let mut this = self;
            this.owns_fd = false;
            Some(this.fd)
        } else {
            None
        }
    }

    fn try_from_stdio(stdio: Stdio) -> (r: Result<Self, Error>)
        ensures
            r matches Ok(id) ==> id.fd() == spec_stdio_fd(stdio),
            r matches Err(e) ==> (e == Error::IsTerminal || e matches Error::MetadataQueryFailed(_)),
    {
        let fd = stdio_fd(stdio);
        match terminal_gate(sys::isatty_fd(fd)) {
            Some(e) => Err(e),
            None => UnixIdentifier::try_from_raw_fd(fd, false),
        }
    }

    fn stdin() -> (r: Option<Self>)
        ensures
            r matches Some(id) ==> id.fd() == spec_stdio_fd(Stdio::Stdin),
    {
        match UnixIdentifier::try_from_stdio(Stdio::Stdin) {
            Ok(id) => Some(id),
            Err(_) => None,
        }
    }

    fn stdout() -> (r: Option<Self>)
        ensures
            r matches Some(id) ==> id.fd() == spec_stdio_fd(Stdio::Stdout),
    {
        match UnixIdentifier::try_from_stdio(Stdio::Stdout) {
            Ok(id) => Some(id),
            Err(_) => None,
        }
    }

    fn stderr() -> (r: Option<Self>)
        ensures
            r matches Some(id) ==> id.fd() == spec_stdio_fd(Stdio::Stderr),
    {
        match UnixIdentifier::try_from_stdio(Stdio::Stderr) {
            Ok(id) => Some(id),
            Err(_) => None,
        }
    }
}

impl PartialEq for UnixIdentifier {
    /// Identities are equal exactly when they name the same file; size,
    /// ownership and the descriptor take no part.
    fn eq(&self, other: &Self) -> bool {
        (self.device == other.device) && (self.inode == other.inode)
    }
}

impl Eq for UnixIdentifier {

}

impl vstd::std_specs::cmp::PartialEqSpecImpl for UnixIdentifier {
    open spec fn obeys_eq_spec() -> bool {
        true
    }

    open spec fn eq_spec(&self, other: &Self) -> bool {
        self.key() == other.key()
    }
}

/// Law: `==` between identities goes by the key alone — how either identity
/// was derived, its recorded size, its descriptor and its ownership take no
/// part. Independent opens of one file compare equal, in either order.
pub proof fn lemma_equality_is_key_equality(a: &UnixIdentifier, b: &UnixIdentifier)
    ensures
        a.eq_spec(b) == (a.key() == b.key()),
        a.eq_spec(b) == b.eq_spec(a),
{
}



impl Drop for UnixIdentifier {
    /// Destruction is [`UnixIdentifier::release`]: the descriptor is closed
    /// iff the identity still owns it, and a borrowed descriptor is never
    /// touched.
    fn drop(&mut self)
        opens_invariants none
        no_unwind
    {
        self.release();
    }
}

} // verus!
