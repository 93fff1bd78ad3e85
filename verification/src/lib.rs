//! Metadata of a single entry of a zip archive.
//!
//! The crate models the descriptive record that a zip writer keeps for one
//! entry (name, sizes, checksum, version numbers, flags, timestamp) together
//! with the closed vocabulary of compression methods. It performs no I/O and
//! no compression: it stores the fields exactly as given and offers the checks
//! that a serializer runs before it writes a header.

pub mod header;
pub mod method;
pub mod timestamp;
pub mod version;

pub use header::{FileHeader, ValidationError};
pub use method::{code_of, method_of, Method, UnsupportedMethod};
pub use timestamp::Timestamp;
pub use version::{CreatorVersion, VersionBytes, ZipVersion};
