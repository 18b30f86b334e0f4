//! Cross-platform file identity and per-path metadata, modelled over the
//! plain values that the operating system's queries resolve to.
//!
//! The queries themselves (a symlink-aware stat, a handle-based identity
//! lookup) are blocking syscalls and live with the caller; this module
//! holds the types they fill in and the rules for degrading on failure.

use vstd::prelude::*;

verus! {

/// Why a metadata or identity query failed.
#[derive(Clone, Copy, PartialEq, Eq, Structural, Debug)]
pub enum FsErrorKind {
    /// The path was gone by the time it was queried: ordinary
    /// filesystem churn, dropped silently.
    NotFound,
    /// Any other I/O failure (permission denied, device error, ...):
    /// logged as a warning, then dropped.
    Other,
}

/// A failed metadata or identity query: its class and a human-readable
/// description carrying the path and the underlying OS error text.
#[derive(Clone, Debug)]
pub struct FsError {
    pub kind: FsErrorKind,
    pub message: String,
}

impl FsError {
    /// Creates an error of the given class with the given description.
    pub fn new(kind: FsErrorKind, message: String) -> (r: FsError)
        ensures
            r.kind == kind,
            r.message@ == message@,
    {
        FsError { kind, message }
    }
}

/// Identity of a file's underlying storage object: equal values mean
/// the same object, which is how hard-linked paths are recognised.
/// The identity field is 128 bits wide to accommodate platforms whose
/// inode numbers or file-reference schemes exceed 64 bits.
#[derive(Clone, Copy, PartialEq, Eq, Structural, Hash, Debug)]
pub struct FileId {
    /// The inode-equivalent identifier, stable per filesystem.
    pub inode: u128,
    /// The identifier of the device that holds the object.
    pub device: u64,
}

impl FileId {
    /// Builds the identity from a resolved device identifier and
    /// inode-equivalent identifier.
    pub fn new(inode: u128, device: u64) -> (r: FileId)
        ensures
            r.inode == inode,
            r.device == device,
    {
        FileId { inode, device }
    }
}

/// Decides what to do with the outcome of an identity query: a resolved
/// identity is kept; a vanished path is dropped silently; any other
/// failure is dropped with its message handed back for a warning log.
pub fn file_id_or_log_err(r: Result<FileId, FsError>) -> (out: (Option<FileId>, Option<String>))
    ensures
        r is Ok ==> out.0 == Some(r->Ok_0) && out.1 is None,
        r is Err && r->Err_0.kind is NotFound ==> out.0 is None && out.1 is None,
        r is Err && r->Err_0.kind is Other ==> out.0 is None
            && (out.1 matches Some(m) && m@ == r->Err_0.message@),
{
    match r {
        Ok(id) => (Some(id), None),
        Err(e) => match e.kind {
            FsErrorKind::NotFound => (None, None),
            FsErrorKind::Other => (None, Some(e.message)),
        },
    }
}

/// OS-level metadata for one path, resolved to plain values: byte
/// length, device identifier and inode-equivalent identifier. The
/// caller obtains these with a symlink-non-following query, so a
/// symlink is distinguished from its target.
#[derive(Clone, Copy, PartialEq, Eq, Structural, Debug)]
pub struct FileMetadata {
    pub len: u64,
    pub device: u64,
    pub inode: u128,
}

impl FileMetadata {
    /// Assembles the metadata from the resolved values.
    pub fn new(len: u64, device: u64, inode: u128) -> (r: FileMetadata)
        ensures
            r.len == len,
            r.device == device,
            r.inode == inode,
    {
        FileMetadata { len, device, inode }
    }

    /// The file's length in bytes.
    pub fn len(&self) -> (r: crate::units::FileLen)
        ensures
            r == crate::units::FileLen(self.len),
    {
        crate::units::FileLen(self.len)
    }

    /// The identifier of the device holding the file.
    pub fn device_id(&self) -> (r: u64)
        ensures
            r == self.device,
    {
        self.device
    }

    /// The file's inode-equivalent identity number.
    pub fn inode_id(&self) -> (r: u128)
        ensures
            r == self.inode,
    {
        self.inode
    }

    /// The identity of the file's storage object, as
    /// [`FileId`] carries it.
    pub fn file_id(&self) -> (r: FileId)
        ensures
            r.inode == self.inode,
            r.device == self.device,
    {
        FileId { inode: self.inode, device: self.device }
    }
}

} // verus!
