//! Scan-time file records carrying a packed physical-location sort key:
//! the top 16 bits hold the index of the device in the external device
//! registry, the low 48 bits a proxy for the position of the file's
//! data on that device (the inode number at first, replaceable by a
//! real extent offset where the OS exposes one).

use vstd::prelude::*;
use crate::ident::FileMetadata;
use crate::ident::FsError;
use crate::units::FileLen;
use crate::units::FilePos;

verus! {

/// The low 48 bits of the location key: the on-device position proxy.
pub const OFFSET_MASK: u64 = 0x0000_FFFF_FFFF_FFFF;

/// The high 16 bits of the location key: the device index.
pub const DEVICE_MASK: u64 = 0xFFFF_0000_0000_0000;

/// The location key formed from a device index and a position proxy:
/// the index in the top 16 bits, the low 48 bits of the proxy below it.
pub open spec fn pack_location(device_index: u16, pos: u64) -> u64 {
    (device_index as u64) << 48 | pos & OFFSET_MASK
}

/// The device index packed into the top 16 bits of a location key.
pub open spec fn device_index_of(location: u64) -> u16 {
    (location >> 48) as u16
}

/// The position proxy packed into the low 48 bits of a location key.
pub open spec fn offset_of(location: u64) -> u64 {
    location & OFFSET_MASK
}

/// Unpacking a location key recovers exactly the device index and the
/// low 48 bits of the position proxy that were packed into it.
pub proof fn lemma_pack_location_round_trip(device_index: u16, pos: u64)
    ensures
        device_index_of(pack_location(device_index, pos)) == device_index,
        offset_of(pack_location(device_index, pos)) == pos & OFFSET_MASK,
{
    let d = device_index;
    let p = pos;
    assert((((d as u64) << 48 | p & 0x0000_FFFF_FFFF_FFFFu64) >> 48) as u16 == d) by (bit_vector);
    assert((((d as u64) << 48 | p & 0x0000_FFFF_FFFF_FFFFu64) & 0x0000_FFFF_FFFF_FFFFu64)
        == p & 0x0000_FFFF_FFFF_FFFFu64) by (bit_vector);
}

/// Anything that exposes the path it concerns.
pub trait AsPath {
    /// The characters of the path.
    spec fn path_view(&self) -> Seq<char>;

    /// The path itself.
    fn path(&self) -> (r: &String)
        ensures
            r@ == self.path_view(),
    ;
}

impl AsPath for String {
    open spec fn path_view(&self) -> Seq<char> {
        self@
    }

    fn path(&self) -> (r: &String) {
        self
    }
}

/// Anything that can be taken apart into the path it concerns.
pub trait IntoPath {
    /// The characters of the path.
    spec fn into_path_view(&self) -> Seq<char>;

    /// Consumes the value, keeping only the path.
    fn into_path(self) -> (r: String)
        ensures
            r@ == self.into_path_view(),
    ;
}

/// A contiguous region of one file, to be hashed as a unit.
pub struct FileChunk<'a> {
    pub path: &'a String,
    pub pos: FilePos,
    pub len: FileLen,
}

impl FileChunk<'_> {
    /// Describes the region of `len` bytes at `pos` within the file at
    /// `path`.
    pub fn new<'a>(path: &'a String, pos: FilePos, len: FileLen) -> (r: FileChunk<'a>)
        ensures
            r.path@ == path@,
            r.pos == pos,
            r.len == len,
    {
        FileChunk { path, pos, len }
    }
}

/// How a file's contents are going to be read, for I/O scheduling.
#[derive(Clone, Copy, Debug)]
pub enum FileAccess {
    Sequential,
    Random,
}

/// A scan-time record of one candidate file: its path, its length, and
/// the packed location key that orders reads for reduced seek cost.
#[derive(Clone, Debug)]
pub struct FileInfo {
    pub path: String,
    pub len: FileLen,
    pub location: u64,
}

impl FileInfo {
    /// Builds the record for a file from its resolved metadata and the
    /// index its device has in the external device registry. The
    /// location key starts out with the inode number as the position
    /// proxy.
    pub fn new(path: String, device_index: u16, metadata: &FileMetadata) -> (r: FileInfo)
        ensures
            r.path@ == path@,
            r.len == FileLen(metadata.len),
            r.location == pack_location(device_index, metadata.inode as u64),
            device_index_of(r.location) == device_index,
    {
        let len = metadata.len();
        let inode = metadata.inode_id() as u64;
        proof {
            lemma_pack_location_round_trip(device_index, metadata.inode as u64);
        }
        FileInfo {
            path,
            len,
            location: (device_index as u64) << 48 | inode & OFFSET_MASK,
        }
    }

    /// The index of the file's device in the device registry the record
    /// was built against.
    pub fn get_device_index(&self) -> (r: usize)
        ensures
            r == device_index_of(self.location) as usize,
            r < 0x10000,
    {
        let loc = self.location;
        proof {
            assert((loc >> 48) < 0x10000 && ((loc >> 48) as u16) as u64 == loc >> 48)
                by (bit_vector);
        }
        (self.location >> 48) as usize
    }

    /// Replaces the position proxy in the location key with bits 8..56
    /// of a file's real physical offset, once an extent query has
    /// produced one; the device index is preserved. A file with no
    /// discoverable extents reports no offset and the key is left
    /// unchanged, which is not an error. Returns the resulting key.
    pub fn update_physical_location(&mut self, physical_offset: Option<u64>) -> (r: u64)
        ensures
            final(self).path@ == old(self).path@,
            final(self).len == old(self).len,
            physical_offset matches Some(p)
                ==> final(self).location == (old(self).location & DEVICE_MASK
                    | (p >> 8) & OFFSET_MASK),
            physical_offset is None ==> final(self).location == old(self).location,
            device_index_of(final(self).location) == device_index_of(old(self).location),
            r == final(self).location,
    {
        if let Some(p) = physical_offset {
            let ghost loc = self.location;
            self.location = self.location & DEVICE_MASK | (p >> 8) & OFFSET_MASK;
            proof {
                let newloc = self.location;
                assert(((loc & 0xFFFF_0000_0000_0000u64 | (p >> 8) & 0x0000_FFFF_FFFF_FFFFu64)
                    >> 48) as u16 == (loc >> 48) as u16) by (bit_vector);
            }
        }
        self.location
    }
}

impl AsPath for FileInfo {
    open spec fn path_view(&self) -> Seq<char> {
        self.path@
    }

    fn path(&self) -> (r: &String) {
        &self.path
    }
}

impl IntoPath for FileInfo {
    open spec fn into_path_view(&self) -> Seq<char> {
        self.path@
    }

    fn into_path(self) -> (r: String) {
        self.path
    }
}

/// Decides what to do with the outcome of building a record: a built
/// record is kept; a vanished path is dropped silently; any other
/// failure is dropped with its message handed back for a warning log.
pub fn file_info_or_log_err(r: Result<FileInfo, FsError>) -> (out: (Option<FileInfo>, Option<
    String,
>))
    ensures
        r is Ok ==> (out.0 matches Some(info) && info == r->Ok_0) && out.1 is None,
        r is Err && r->Err_0.kind is NotFound ==> out.0 is None && out.1 is None,
        r is Err && r->Err_0.kind is Other ==> out.0 is None
            && (out.1 matches Some(m) && m@ == r->Err_0.message@),
{
    match r {
        Ok(info) => (Some(info), None),
        Err(e) => match e.kind {
            crate::ident::FsErrorKind::NotFound => (None, None),
            crate::ident::FsErrorKind::Other => (None, Some(e.message)),
        },
    }
}

} // verus!
