//! The header of one archive entry and the checks a serializer runs on it.

use crate::method::Method;
use crate::timestamp::Timestamp;
use crate::version::ZipVersion;
use vstd::prelude::*;
use vstd::std_specs::iter::IteratorSpec;
use vstd::utf8::encode_utf8;

verus! {

/// Largest number of encoded bytes that a comment may take.
pub const MAX_COMMENT_BYTES: usize = 65535;

/// Largest size that fits the 32-bit size fields of a header.
pub const MAX_PLAIN_SIZE: u64 = 4_294_967_295;

/// Lowest reader version that understands zip64 records.
pub const ZIP64_READER_VERSION: u16 = 45;

/// Describes a file within a zip archive.
///
/// All fields are stored exactly as given. Nothing is checked when a field
/// is assigned: [`FileHeader::validate`] reports what a serializer must
/// refuse.
#[derive(Debug, Clone)]
pub struct FileHeader {
    /// Name of the file: a relative path that does not start with a drive
    /// letter and uses forward slashes.
    pub name: String,
    /// User-defined annotation of at most 65535 encoded bytes.
    pub comment: Option<String>,
    /// True when the bytes of name or comment are not valid UTF-8; decides
    /// which flag bit a serializer sets.
    pub non_utf8: bool,
    /// Packed version of the producer: platform byte and specification
    /// version.
    pub creator_version: u16,
    /// Lowest specification version that a reader needs for this entry.
    pub reader_version: u16,
    /// General-purpose bit flags.
    pub flags: u16,
    /// Time of last modification, in UTC.
    pub modified: Timestamp,
    /// CRC-32 of the uncompressed content; 0 until computed.
    pub crc32: u32,
    /// Size of the content as stored; 0 until known.
    pub compressed_size: u64,
    /// Size of the content before compression.
    pub uncompressed_size: u64,
    /// Raw extra-field block, kept as it is.
    pub extra: Option<Vec<u8>>,
    /// Platform-specific file attributes, kept as they are.
    pub external_attrs: u32,
}

/// What [`FileHeader::validate`] found wrong with a header.
#[derive(Debug, Clone, Copy, PartialEq, Eq, Structural)]
pub enum ValidationError {
    /// The comment takes more than 65535 encoded bytes.
    CommentTooLong {
        /// Encoded length of the comment in bytes.
        length: usize,
    },
    /// The name begins with a drive designator such as `C:`.
    NameNotRelative {
        /// The drive letter found.
        drive: char,
    },
    /// The name holds a backslash.
    NameUsesBackslash {
        /// Index of the first backslash, counted in characters.
        position: usize,
    },
    /// A size needs zip64 but the reader version is below 4.5.
    SizeExceedsVersionCapability {
        /// The compressed size of the header.
        compressed_size: u64,
        /// The uncompressed size of the header.
        uncompressed_size: u64,
        /// The reader version of the header.
        reader_version: u16,
    },
}

/// Whether `c` can name a drive: an ASCII letter.
pub open spec fn is_drive_letter(c: char) -> bool {
    ('a' <= c && c <= 'z') || ('A' <= c && c <= 'Z')
}

/// Whether `name` begins with a drive designator: a letter and a colon.
pub open spec fn starts_with_drive(name: Seq<char>) -> bool {
    name.len() >= 2 && is_drive_letter(name[0]) && name[1] == ':'
}

/// Whether `name` holds a backslash anywhere.
pub open spec fn has_backslash(name: Seq<char>) -> bool {
    exists|i: int| 0 <= i < name.len() && name[i] == '\\'
}

/// Whether the first backslash of `name` stands at index `position`.
pub open spec fn is_first_backslash(name: Seq<char>, position: int) -> bool {
    &&& 0 <= position < name.len()
    &&& name[position] == '\\'
    &&& forall|i: int| 0 <= i < position ==> name[i] != '\\'
}

/// Number of bytes that `text` takes once it is serialized as UTF-8.
pub open spec fn encoded_len(text: Seq<char>) -> nat {
    encode_utf8(text).len()
}


/// Every character takes at least one byte, so a text has no more
/// characters than encoded bytes.
proof fn lemma_chars_within_bytes(text: Seq<char>)
    ensures
        text.len() <= encoded_len(text),
    decreases text.len(),
{
    if text.len() > 0 {
        lemma_chars_within_bytes(text.drop_first());
    }
}

/// Returns the number of bytes that `text` takes as UTF-8.
fn encoded_length(text: &str) -> (length: usize)
    ensures
        length == encoded_len(text@),
{
    text.as_bytes().len()
}

/// Returns the drive letter if `name` begins with a drive designator.
fn leading_drive(name: &str) -> (drive: Option<char>)
    ensures
        drive is Some <==> starts_with_drive(name@),
        drive matches Some(letter) ==> letter == name@[0],
{
    let mut chars = name.chars();
    let first = chars.next();
    let second = chars.next();
    match (first, second) {
        (Some(letter), Some(':')) => {
            if ('a' <= letter && letter <= 'z') || ('A' <= letter && letter <= 'Z') {
                Some(letter)
            } else {
                None
            }
        },
        _ => None,
    }
}

/// Returns the index of the first backslash of `name`, in characters.
fn first_backslash(name: &str) -> (position: Option<usize>)
    ensures
        position is Some <==> has_backslash(name@),
        position matches Some(p) ==> is_first_backslash(name@, p as int),
{
    // An index never passes the byte length, which fits a `usize`.
    let limit: usize = encoded_length(name);
    proof {
        lemma_chars_within_bytes(name@);
    }
    let mut chars = name.chars();
    let mut index: usize = 0;
    loop
        invariant
            index <= name@.len() <= limit,
            chars.remaining() == name@.skip(index as int),
            forall|i: int| 0 <= i < index ==> name@[i] != '\\',
        decreases name@.len() - index,
    {
        match chars.next() {
            Some(c) => {
                if c == '\\' {
                    return Some(index);
                }
                index = index + 1;
            },
            None => {
                return None;
            },
        }
    }
}

impl FileHeader {
    /// Encoded length of the comment in bytes; 0 without a comment.
    pub open spec fn comment_len(&self) -> nat {
        match self.comment {
            Some(comment) => encoded_len(comment@),
            None => 0,
        }
    }

    /// Whether the comment fits the 16-bit length field of a header.
    pub open spec fn comment_fits(&self) -> bool {
        self.comment_len() <= MAX_COMMENT_BYTES
    }

    /// Whether a size is beyond the 32-bit size fields.
    pub open spec fn needs_zip64(&self) -> bool {
        self.compressed_size > MAX_PLAIN_SIZE || self.uncompressed_size > MAX_PLAIN_SIZE
    }

    /// Whether the reader version is high enough for the sizes.
    pub open spec fn version_covers_sizes(&self) -> bool {
        self.needs_zip64() ==> self.reader_version >= ZIP64_READER_VERSION
    }

    /// Whether a serializer can write this header as it stands.
    pub open spec fn is_conformant(&self) -> bool {
        &&& self.comment_fits()
        &&& !starts_with_drive(self.name@)
        &&& !has_backslash(self.name@)
        &&& self.version_covers_sizes()
    }

    /// Creates the header of an entry named `name` whose content takes
    /// `uncompressed_size` bytes.
    ///
    /// Every other field starts from its default: no comment, no extra
    /// block, no flags, checksum and compressed size not yet known, the
    /// Unix epoch as time, and version 4.5 for producer and reader. The
    /// method selects the codec and leaves no trace in the header.
    pub fn new(name: String, uncompressed_size: u64, method: Method) -> (header: FileHeader)
        ensures
            header.name == name,
            header.comment is None,
            !header.non_utf8,
            header.creator_version == 45,
            header.reader_version == 45,
            header.flags == 0,
            header.modified == Timestamp::epoch(),
            header.crc32 == 0,
            header.compressed_size == 0,
            header.uncompressed_size == uncompressed_size,
            header.extra is None,
            header.external_attrs == 0,
            header.comment_fits(),
            header.version_covers_sizes(),
            header.is_conformant() <==> !starts_with_drive(name@) && !has_backslash(name@),
    {
        let version: u16 = ZipVersion::Version45.code() as u16;
        FileHeader {
            name,
            comment: None,
            non_utf8: false,
            creator_version: version,
            reader_version: version,
            flags: 0,
            modified: Timestamp::unix_epoch(),
            crc32: 0,
            compressed_size: 0,
            uncompressed_size,
            extra: None,
            external_attrs: 0,
        }
    }

    /// Tells whether the entry needs the zip64 extension: whether one of its
    /// sizes is above 4,294,967,295.
    pub fn requires_zip64(&self) -> (needed: bool)
        ensures
            needed == self.needs_zip64(),
            needed <==> (self.compressed_size > 4_294_967_295 || self.uncompressed_size
                > 4_294_967_295),
    {
        self.compressed_size > MAX_PLAIN_SIZE || self.uncompressed_size > MAX_PLAIN_SIZE
    }

    /// Checks the header against what the format demands of it, in this
    /// order: the length of the comment, the drive designator and the
    /// backslashes of the name, the reader version against the sizes. The
    /// first violation found is the one reported.
    pub fn validate(&self) -> (outcome: Result<(), ValidationError>)
        ensures
            outcome is Ok <==> self.is_conformant(),
            match outcome {
                Ok(()) => self.is_conformant(),
                Err(ValidationError::CommentTooLong { length }) => {
                    &&& !self.comment_fits()
                    &&& length == self.comment_len()
                },
                Err(ValidationError::NameNotRelative { drive }) => {
                    &&& self.comment_fits()
                    &&& starts_with_drive(self.name@)
                    &&& drive == self.name@[0]
                },
                Err(ValidationError::NameUsesBackslash { position }) => {
                    &&& self.comment_fits()
                    &&& !starts_with_drive(self.name@)
                    &&& is_first_backslash(self.name@, position as int)
                },
                Err(
                    ValidationError::SizeExceedsVersionCapability {
                        compressed_size,
                        uncompressed_size,
                        reader_version,
                    },
                ) => {
                    &&& self.comment_fits()
                    &&& !starts_with_drive(self.name@)
                    &&& !has_backslash(self.name@)
                    &&& !self.version_covers_sizes()
                    &&& compressed_size == self.compressed_size
                    &&& uncompressed_size == self.uncompressed_size
                    &&& reader_version == self.reader_version
                },
            },
    {
        if let Some(comment) = &self.comment {
            let length = encoded_length(comment.as_str());
            if length > MAX_COMMENT_BYTES {
                return Err(ValidationError::CommentTooLong { length });
            }
        }
        if let Some(drive) = leading_drive(self.name.as_str()) {
            return Err(ValidationError::NameNotRelative { drive });
        }
        if let Some(position) = first_backslash(self.name.as_str()) {
            return Err(ValidationError::NameUsesBackslash { position });
        }
        if self.requires_zip64() && self.reader_version < ZIP64_READER_VERSION {
            return Err(
                ValidationError::SizeExceedsVersionCapability {
                    compressed_size: self.compressed_size,
                    uncompressed_size: self.uncompressed_size,
                    reader_version: self.reader_version,
                },
            );
        }
        Ok(())
    }
}

} // verus!
