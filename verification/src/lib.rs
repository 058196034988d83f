//! Decoding of the tag blocks embedded in photographic image files.
//!
//! The crate turns the raw directory entries of such a block — each one a
//! numeric format code, a byte span and a governing byte order — into typed
//! values, assembles them into a name-keyed table, and offers accessors for
//! the photographic parameters callers ask for most.
//!
//! Locating the directories inside an image container is the business of an
//! external parser; this crate receives what that parser enumerates as plain
//! values and does everything from there.

pub mod accessors;
pub mod decode;
pub mod table;
pub mod value;
pub mod walker;

pub use decode::ByteOrder;
pub use decode::to_exif_value;
pub use table::ExifEntries;
pub use value::ExifRational;
pub use value::ExifSRational;
pub use value::ExifValue;
pub use walker::ExifContent;
pub use walker::ExifEntry;
pub use walker::ReadBody;
pub use walker::build_table;
