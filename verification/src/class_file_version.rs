use vstd::prelude::*;
use crate::class_reader_error::ClassReaderError;

verus! {

/// The lowest major version this reader accepts.
pub const MIN_SUPPORTED_MAJOR: u16 = 45;

/// The highest major version this reader accepts.
pub const MAX_SUPPORTED_MAJOR: u16 = 51;

/// The version pair of a class file. Only a historical range of major
/// versions is supported; anything newer or older is rejected at decode time.
#[derive(Debug, PartialEq, Eq, Clone, Copy, Structural)]
pub struct ClassFileVersion {
    pub major: u16,
    pub minor: u16,
}

/// Whether a version pair falls in the supported range.
pub open spec fn spec_version_supported(major: u16, minor: u16) -> bool {
    MIN_SUPPORTED_MAJOR <= major <= MAX_SUPPORTED_MAJOR
}

impl ClassFileVersion {
    /// Validates a version pair, keeping both numbers in the distinct
    /// unsupported-version error when the pair is out of range.
    pub fn from(major: u16, minor: u16) -> (r: Result<ClassFileVersion, ClassReaderError>)
        ensures
            spec_version_supported(major, minor) ==> r == Ok::<ClassFileVersion, ClassReaderError>(
                ClassFileVersion { major, minor },
            ),
            !spec_version_supported(major, minor) ==> r == Err::<
                ClassFileVersion,
                ClassReaderError,
            >(ClassReaderError::UnsupportedVersion(major, minor)),
    {
        if MIN_SUPPORTED_MAJOR <= major && major <= MAX_SUPPORTED_MAJOR {
            Ok(ClassFileVersion { major, minor })
        } else {
            Err(ClassReaderError::UnsupportedVersion(major, minor))
        }
    }
}

} // verus!
