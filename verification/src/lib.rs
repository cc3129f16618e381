//! Detection of input/output circles in command-line tools.
//!
//! A program that reads several inputs and writes one output can be told,
//! through redirection, to write onto one of its own inputs (`cat a b > a`),
//! which turns into an endless read-after-write cycle. This crate derives a
//! stable identity for an open file or for one of the three standard streams,
//! tracks who is responsible for closing the underlying descriptor, and offers
//! a conflict predicate that flags only certain read/write hazards.
//!
//! The [`Clircle`] trait carries the platform-independent interface; the
//! [`Identifier`] type selects the backend for the platform the crate is
//! built for and forwards to it. Identities compare equal exactly when they
//! name the same file — the device and inode pair on POSIX — however the two
//! were derived and whoever owns the underlying descriptor.
//!
//! Two known limitations. The OS may recycle a device and inode pair after
//! a file is deleted and another is created, so an identity names a live
//! file only for as long as that file exists. And the identity types carry
//! equality but no hashing: equality goes by the device and inode pair
//! alone, a derived hash would cover every field and disagree with it, and
//! a hand-written one is out of reach here — collections of identities are
//! checked by pairwise equality instead.

use vstd::prelude::*;
use vstd::slice::slice_index_get;
use vstd::std_specs::cmp::PartialEqSpec;

mod clircle_unix;
mod sys;

pub use clircle_unix::spec_mode_is_regular;
pub use clircle_unix::terminal_gate;
pub use clircle_unix::UnixIdentifier;
pub use sys::RawMetadata;

verus! {

/// The three standard streams, used as a stateless lookup key when resolving
/// an identity for stdin, stdout or stderr.
#[derive(Clone, Copy, Debug, PartialEq, Eq, Structural)]
pub enum Stdio {
    Stdin,
    Stdout,
    Stderr,
}

/// The file descriptor that a standard stream occupies on POSIX systems.
pub open spec fn spec_stdio_fd(stdio: Stdio) -> i32 {
    match stdio {
        Stdio::Stdin => 0,
        Stdio::Stdout => 1,
        Stdio::Stderr => 2,
    }
}

/// Maps a standard stream to its well-known POSIX file descriptor.
pub fn stdio_fd(stdio: Stdio) -> (fd: i32)
    ensures
        fd == spec_stdio_fd(stdio),
{
    match stdio {
        Stdio::Stdin => 0,
        Stdio::Stdout => 1,
        Stdio::Stderr => 2,
    }
}

/// Why no identity could be derived for a resource.
#[derive(Clone, Copy, Debug, PartialEq, Eq, Structural)]
pub enum Error {
    /// The OS metadata query on the resource failed; carries the OS errno.
    MetadataQueryFailed(i32),
    /// The resource was a sentinel: a negative file descriptor.
    InvalidHandle,
    /// The standard stream leads to a terminal device. Stdin and stdout of an
    /// interactive program both point at one controlling terminal; issuing
    /// identities for them would manufacture a cycle where no read-after-write
    /// hazard exists, so resolution refuses terminals outright.
    IsTerminal,
}

/// What the conflict predicate concludes from the writer identity's key and
/// file type, the reader identity's key and recorded size, and the reader's
/// offset, where one could be read: the two name the same file, the writer
/// side is a regular on-disk file, and the reader still has unread content.
/// Where the offset is unknown, a conflict is assumed rather than missed:
/// the predicate over-reports, it never proves safety.
pub open spec fn spec_conflict(
    writer_key: (u64, u64),
    writer_regular: bool,
    reader_key: (u64, u64),
    reader_size: u64,
    offset: Option<u64>,
) -> bool {
    &&& writer_key == reader_key
    &&& writer_regular
    &&& match offset {
        Some(o) => o < reader_size,
        None => true,
    }
}

/// Law: identities that name different files never surely conflict,
/// whatever offset the reader side turned out to have.
pub proof fn lemma_distinct_identities_never_conflict<T: Clircle>(
    a: T,
    b: T,
    offset: Option<u64>,
)
    requires
        a.key() != b.key(),
    ensures
        !spec_conflict(a.key(), a.is_regular(), b.key(), b.size(), offset),
{
}

/// Law: two identities of anything but regular on-disk files — a terminal,
/// a pipe — never surely conflict, even when they name the same resource,
/// in either ordering and whatever the two offset queries reported.
pub proof fn lemma_non_regular_never_conflicts<T: Clircle>(
    a: T,
    b: T,
    offset_a: Option<u64>,
    offset_b: Option<u64>,
)
    requires
        !a.is_regular(),
        !b.is_regular(),
    ensures
        !spec_conflict(a.key(), a.is_regular(), b.key(), b.size(), offset_a),
        !spec_conflict(b.key(), b.is_regular(), a.key(), a.size(), offset_b),
{
}

/// The platform-independent interface of the crate: identity comparison, the
/// conflict predicate, resource extraction, and resolution of the standard
/// streams. It is implemented by the platform backends and by the
/// [`Identifier`] facade.
pub trait Clircle: Sized {
    /// The pair that names the file: on POSIX the device and the inode, the
    /// key the OS keeps unique per file system among live files. Identities
    /// with equal keys name the same file, whatever else they hold.
    spec fn key(&self) -> (u64, u64);

    /// Whether the identity describes a regular on-disk file, as opposed to
    /// a terminal, pipe, socket or other special resource.
    spec fn is_regular(&self) -> bool;

    /// Size in bytes that the file had when the identity was derived.
    spec fn size(&self) -> u64;

    /// Whether this identity is responsible for closing its descriptor.
    spec fn owns(&self) -> bool;

    /// The raw file descriptor the identity was derived from.
    spec fn fd(&self) -> i32;

    /// Whether the two identities name the same file.
    fn same_file_as(&self, other: &Self) -> (r: bool)
        ensures
            r == (self.key() == other.key()),
    ;

    /// Whether a write through `self` would without doubt disturb a pending
    /// read through `other`. `false` means "not proven", never "proven
    /// safe": the predicate errs toward reporting a conflict where the OS
    /// leaves the reader's position unknown, and stays silent unless the
    /// identities are equal and name a regular file. A backend without a
    /// sharper signal keeps this default, which concludes nothing.
    fn surely_conflicts_with(&self, other: &Self) -> (r: bool)
        ensures
            r ==> self.key() == other.key() && self.is_regular(),
            exists|offset: Option<u64>|
                r == spec_conflict(self.key(), self.is_regular(), other.key(), other.size(), offset),
        default_ensures
            r == false,
    {
        proof {
            let offset = Some(other.size());
            assert(!spec_conflict(self.key(), self.is_regular(), other.key(), other.size(), offset));
        }
        false
    }

    /// Extracts the descriptor if this identity owns it, making the caller
    /// responsible for closing it; a borrowed identity yields nothing.
    /// Consuming `self` is what makes the transfer happen at most once.
    fn into_inner(self) -> (r: Option<i32>)
        ensures
            r == if self.owns() {
                Some(self.fd())
            } else {
                None::<i32>
            },
    ;

    /// Derives the identity of a standard stream. The resolved resource is
    /// only borrowed: the stream stays open when the identity goes away.
    fn try_from_stdio(stdio: Stdio) -> (r: Result<Self, Error>)
        ensures
            r matches Ok(id) ==> !id.owns(),
    ;

    /// Shorthand for `try_from_stdio(Stdio::Stdin)`.
    fn stdin() -> (r: Option<Self>)
        ensures
            r matches Some(id) ==> !id.owns(),
    ;

    /// Shorthand for `try_from_stdio(Stdio::Stdout)`.
    fn stdout() -> (r: Option<Self>)
        ensures
            r matches Some(id) ==> !id.owns(),
    ;

    /// Shorthand for `try_from_stdio(Stdio::Stderr)`.
    fn stderr() -> (r: Option<Self>)
        ensures
            r matches Some(id) ==> !id.owns(),
    ;
}

/// Identifies a file. The platform-independent face of the crate: it holds
/// the backend identity of the platform the crate was built for — here the
/// POSIX backend — and forwards to it, with no per-call dispatch.
#[derive(Debug)]
pub struct Identifier(UnixIdentifier);

impl Identifier {
    /// Derives the identity of an already-open descriptor; see
    /// [`UnixIdentifier::try_from_raw_fd`].
    pub fn try_from_raw_fd(fd: i32, owns_fd: bool) -> (r: Result<Self, Error>)
        ensures
            fd < 0 ==> r == Err::<Identifier, Error>(Error::InvalidHandle),
            r matches Ok(id) ==> id.fd() == fd && id.owns() == owns_fd,
            r matches Err(e) ==> (e == Error::InvalidHandle || e matches Error::MetadataQueryFailed(_)),
            0 <= fd ==> (r matches Err(e) ==> e matches Error::MetadataQueryFailed(_)),
    {
        match UnixIdentifier::try_from_raw_fd(fd, owns_fd) {
            Ok(id) => Ok(Identifier(id)),
            Err(e) => Err(e),
        }
    }

    /// Derives the identity of the file behind a path, opening it
    /// read-only; see [`UnixIdentifier::from_path`].
    pub fn from_path(path: &str) -> (r: Result<Self, Error>)
        ensures
            r matches Ok(id) ==> id.owns() && 0 <= id.fd(),
            r matches Err(e) ==> e matches Error::MetadataQueryFailed(_),
    {
        match UnixIdentifier::from_path(path) {
            Ok(id) => Ok(Identifier(id)),
            Err(e) => Err(e),
        }
    }

    /// Releases the descriptor iff the identity still owns it; see
    /// [`UnixIdentifier::release`].
    pub fn release(&mut self)
        ensures
            !final(self).owns(),
            final(self).key() == old(self).key(),
            final(self).size() == old(self).size(),
            final(self).is_regular() == old(self).is_regular(),
            final(self).fd() == old(self).fd(),
        no_unwind
    {
        self.0.release();
    }
}

impl Clircle for Identifier {
    closed spec fn key(&self) -> (u64, u64) {
        self.0.key()
    }

    closed spec fn size(&self) -> u64 {
        self.0.size()
    }

    closed spec fn is_regular(&self) -> bool {
        self.0.is_regular()
    }

    closed spec fn owns(&self) -> bool {
        self.0.owns()
    }

    closed spec fn fd(&self) -> i32 {
        self.0.fd()
    }

    fn same_file_as(&self, other: &Self) -> bool {
        self.0.same_file_as(&other.0)
    }

    fn surely_conflicts_with(&self, other: &Self) -> (r: bool) {
        let r = self.0.surely_conflicts_with(&other.0);
        proof {
            let offset = choose|offset: Option<u64>|
                r == spec_conflict(
                    self.0.key(),
                    self.0.is_regular(),
                    other.0.key(),
                    other.0.size(),
                    offset,
                );
            assert(r == spec_conflict(self.key(), self.is_regular(), other.key(), other.size(), offset));
        }
        r
    }

    fn into_inner(self) -> Option<i32> {
        self.0.into_inner()
    }

    fn try_from_stdio(stdio: Stdio) -> (r: Result<Self, Error>)
        ensures
            r matches Ok(id) ==> id.fd() == spec_stdio_fd(stdio),
            r matches Err(e) ==> (e == Error::IsTerminal || e matches Error::MetadataQueryFailed(_)),
    {
        match UnixIdentifier::try_from_stdio(stdio) {
            Ok(id) => Ok(Identifier(id)),
            Err(e) => Err(e),
        }
    }

    fn stdin() -> (r: Option<Self>)
        ensures
            r matches Some(id) ==> id.fd() == spec_stdio_fd(Stdio::Stdin),
    {
        match Identifier::try_from_stdio(Stdio::Stdin) {
            Ok(id) => Some(id),
            Err(_) => None,
        }
    }

    fn stdout() -> (r: Option<Self>)
        ensures
            r matches Some(id) ==> id.fd() == spec_stdio_fd(Stdio::Stdout),
    {
        match Identifier::try_from_stdio(Stdio::Stdout) {
            Ok(id) => Some(id),
            Err(_) => None,
        }
    }

    fn stderr() -> (r: Option<Self>)
        ensures
            r matches Some(id) ==> id.fd() == spec_stdio_fd(Stdio::Stderr),
    {
        match Identifier::try_from_stdio(Stdio::Stderr) {
            Ok(id) => Some(id),
            Err(_) => None,
        }
    }
}

impl PartialEq for Identifier {
    /// Identities are equal exactly when they name the same file.
    fn eq(&self, other: &Self) -> bool {
        self.0.same_file_as(&other.0)
    }
}

impl Eq for Identifier {

}

impl vstd::std_specs::cmp::PartialEqSpecImpl for Identifier {
    open spec fn obeys_eq_spec() -> bool {
        true
    }

    open spec fn eq_spec(&self, other: &Self) -> bool {
        self.key() == other.key()
    }
}

/// Law: `==` between identities goes by the key alone — how either identity
/// was derived, its recorded size, its descriptor and its ownership take no
/// part. Independent opens of one file compare equal, in either order.
pub proof fn lemma_identifier_equality_is_key_equality(a: &Identifier, b: &Identifier)
    ensures
        a.eq_spec(b) == (a.key() == b.key()),
        a.eq_spec(b) == b.eq_spec(a),
{
}

/// Whether some element of `inputs` names the same file as `x`.
pub open spec fn spec_matches_any<T: Clircle>(x: T, inputs: Seq<T>) -> bool {
    exists|i: int| 0 <= i < inputs.len() && x.key() == #[trigger] inputs[i].key()
}

/// Whether some element of `inputs` names the same file as `x`: the exact
/// equality-matching decision that the batch helpers are built on.
pub fn contains_matching<T: Clircle>(inputs: &[T], x: &T) -> (r: bool)
    ensures
        r == spec_matches_any(*x, inputs@),
{
    let mut i: usize = 0;
    while i < inputs.len()
        invariant
            i <= inputs@.len(),
            forall|k: int| 0 <= k < i ==> x.key() != #[trigger] inputs@[k].key(),
        decreases inputs@.len() - i,
    {
        if x.same_file_as(slice_index_get(inputs, i)) {
            return true;
        }
        i = i + 1;
    }
    false
}

/// Finds the writer among the readers: returns the first element of
/// `outputs`, in list order, that names the same file as some element of
/// `inputs`, and nothing when no element of `outputs` does.
pub fn output_among_inputs<'o, T: Clircle>(outputs: &'o [T], inputs: &[T]) -> (r: Option<&'o T>)
    ensures
        match r {
            Some(x) => exists|j: int|
                0 <= j < outputs@.len() && #[trigger] outputs@[j] == *x
                    && spec_matches_any(outputs@[j], inputs@)
                    && (forall|k: int| 0 <= k < j ==> !spec_matches_any(#[trigger] outputs@[k], inputs@)),
            None => forall|j: int|
                0 <= j < outputs@.len() ==> !spec_matches_any(#[trigger] outputs@[j], inputs@),
        },
{
    let mut j: usize = 0;
    while j < outputs.len()
        invariant
            j <= outputs@.len(),
            forall|k: int| 0 <= k < j ==> !spec_matches_any(#[trigger] outputs@[k], inputs@),
        decreases outputs@.len() - j,
    {
        let candidate = slice_index_get(outputs, j);
        if contains_matching(inputs, candidate) {
            return Some(candidate);
        }
        j = j + 1;
    }
    None
}

/// The decision behind [`stdout_among_inputs`], taken from the resolution
/// outcome as it came back: a stream that could not be resolved matches
/// nothing, and a resolved one matches exactly when some element of
/// `inputs` names the same file.
pub fn resolved_among<T: Clircle>(resolved: Option<T>, inputs: &[T]) -> (r: bool)
    ensures
        r == (match resolved {
            Some(id) => spec_matches_any(id, inputs@),
            None => false,
        }),
{
    match resolved {
        Some(id) => contains_matching(inputs, &id),
        None => false,
    }
}

/// Whether the resolved standard output names the same file as some element
/// of `inputs`; `false` when stdout cannot be resolved at all, the exact
/// rule standing in [`resolved_among`].
pub fn stdout_among_inputs<T: Clircle>(inputs: &[T]) -> (r: bool)
    ensures
        r ==> inputs@.len() > 0,
{
    resolved_among(T::stdout(), inputs)
}

} // verus!
