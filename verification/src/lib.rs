//! File-identity and physical-location metadata layer for a duplicate-file
//! detection engine: typed byte offsets and lengths, 128-bit content
//! fingerprints, cross-platform file identity, and a packed sort key that
//! approximates a file's physical position on its storage device.

pub mod error;
pub mod hash;
pub mod ident;
pub mod info;
pub mod text;
pub mod units;

pub use error::Error;
pub use hash::AsFileHash;
pub use hash::FileHash;
pub use ident::FileId;
pub use ident::FileMetadata;
pub use ident::FsError;
pub use ident::FsErrorKind;
pub use ident::file_id_or_log_err;
pub use info::AsPath;
pub use info::FileAccess;
pub use info::FileChunk;
pub use info::FileInfo;
pub use info::IntoPath;
pub use info::file_info_or_log_err;
pub use units::FileLen;
pub use units::FilePos;
