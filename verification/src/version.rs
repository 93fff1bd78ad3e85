//! Version numbers of the zip format.
//!
//! A version field of a header is one 16-bit number made of two bytes with
//! separate meanings: the high byte names the platform that created the
//! entry, the low byte is the version of the zip specification times ten
//! (20 for 2.0, 45 for 4.5). Headers store the packed number, which is what
//! goes on disk; [`VersionBytes`] gives access to the two halves.

use vstd::prelude::*;

verus! {

/// Platform that created an entry: the high byte of a creator version.
#[derive(Debug, Clone, Copy, PartialEq, Eq, Structural)]
pub enum CreatorVersion {
    /// MS-DOS and OS/2, FAT file systems (0).
    FAT,
    /// Unix (3).
    Unix,
    /// Windows NTFS (11).
    NTFS,
    /// VFAT (14).
    VFAT,
    /// macOS (19).
    MacOSX,
}

/// Version of the zip specification: the low byte of a version field.
#[derive(Debug, Clone, Copy, PartialEq, Eq, Structural)]
pub enum ZipVersion {
    /// 2.0, the baseline.
    Version20,
    /// 4.5, the first that reads and writes zip64 archives.
    Version45,
}

impl CreatorVersion {
    /// The byte that stands for this platform.
    pub open spec fn byte(self) -> u8 {
        match self {
            CreatorVersion::FAT => 0,
            CreatorVersion::Unix => 3,
            CreatorVersion::NTFS => 11,
            CreatorVersion::VFAT => 14,
            CreatorVersion::MacOSX => 19,
        }
    }

    /// Returns the byte that stands for this platform.
    pub fn code(self) -> (code: u8)
        ensures
            code == self.byte(),
    {
        match self {
            CreatorVersion::FAT => 0,
            CreatorVersion::Unix => 3,
            CreatorVersion::NTFS => 11,
            CreatorVersion::VFAT => 14,
            CreatorVersion::MacOSX => 19,
        }
    }
}

impl ZipVersion {
    /// The specification version times ten.
    pub open spec fn byte(self) -> u8 {
        match self {
            ZipVersion::Version20 => 20,
            ZipVersion::Version45 => 45,
        }
    }

    /// Returns the specification version times ten.
    pub fn code(self) -> (code: u8)
        ensures
            code == self.byte(),
    {
        match self {
            ZipVersion::Version20 => 20,
            ZipVersion::Version45 => 45,
        }
    }
}

/// The two halves of a packed version field.
#[derive(Debug, Clone, Copy, PartialEq, Eq, Structural)]
pub struct VersionBytes {
    /// Platform byte, the high byte of the packed field.
    pub creator: u8,
    /// Specification version times ten, the low byte of the packed field.
    pub version: u8,
}

impl VersionBytes {
    /// The packed 16-bit field: the creator byte above the version byte.
    pub open spec fn packed(self) -> u16 {
        (self.creator * 256 + self.version) as u16
    }

    /// The two halves of the packed field `packed`.
    pub open spec fn halves(packed: u16) -> VersionBytes {
        VersionBytes { creator: (packed / 256) as u8, version: (packed % 256) as u8 }
    }

    /// Returns the bytes for a platform and a specification version of the
    /// vocabulary.
    pub fn of(creator: CreatorVersion, version: ZipVersion) -> (bytes: VersionBytes)
        ensures
            bytes.creator == creator.byte(),
            bytes.version == version.byte(),
    {
        VersionBytes { creator: creator.code(), version: version.code() }
    }

    /// Packs the two bytes into the 16-bit field that a header stores.
    pub fn pack(self) -> (packed: u16)
        ensures
            packed == self.packed(),
            packed == self.creator * 256 + self.version,
            VersionBytes::halves(packed) == self,
    {
        let creator: u8 = self.creator;
        let version: u8 = self.version;
        let high: u16 = (creator as u16) << 8;
        let low: u16 = version as u16;
        assert((((creator as u16) << 8) | (version as u16)) == (creator as u16) * 256 + (
        version as u16)) by (bit_vector);
        high | low
    }

    /// Splits a packed 16-bit field into its two bytes. Every value is
    /// accepted, also one whose bytes are outside the vocabulary.
    pub fn unpack(packed: u16) -> (bytes: VersionBytes)
        ensures
            bytes == VersionBytes::halves(packed),
            bytes.creator == packed / 256,
            bytes.version == packed % 256,
            bytes.packed() == packed,
    {
        assert((packed >> 8) == packed / 256 && (packed >> 8) < 256) by (bit_vector);
        assert((packed & 0xff) == packed % 256 && (packed & 0xff) < 256) by (bit_vector);
        VersionBytes { creator: (packed >> 8) as u8, version: (packed & 0xff) as u8 }
    }

    /// Packing and unpacking lose nothing: every 16-bit field comes back
    /// unchanged from its two bytes, whatever they mean.
    pub proof fn lemma_unpack_then_pack(packed: u16)
        ensures
            VersionBytes::halves(packed).packed() == packed,
    {
    }

    /// Every pair of bytes comes back unchanged from its packed field.
    pub proof fn lemma_pack_then_unpack(bytes: VersionBytes)
        ensures
            VersionBytes::halves(bytes.packed()) == bytes,
    {
    }
}

} // verus!
