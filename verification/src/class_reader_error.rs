use vstd::prelude::*;
use vstd::string::StringExecFns;
use crate::buffer::BufferError;
use crate::constant_pool::spec_index_error_message;
use crate::constant_pool::InvalidConstantPoolIndexError;
use crate::numerals::dec_u64;
use crate::numerals::spec_dec_nat;

verus! {

/// The mathematical shape of a [`ClassReaderError`]: text as character
/// sequences, the offending pool index as a plain number.
#[verifier::ext_equal]
pub ghost enum ClassReaderErrorView {
    InvalidClassData { message: Seq<char>, index: Option<u16> },
    UnsupportedVersion { major: u16, minor: u16 },
    InvalidTypeDescriptor { descriptor: Seq<char> },
}

/// The closed taxonomy of decode failures. Every failure of the reader is
/// one of these; low-level cursor and pool-lookup failures are translated
/// before they cross the reader's boundary.
#[derive(Debug, PartialEq, Eq)]
pub enum ClassReaderError {
    /// The class file is structurally invalid; carries a diagnostic message
    /// and, when the failure came from a constant-pool lookup, the offending
    /// index as structured context.
    InvalidClassData(String, Option<InvalidConstantPoolIndexError>),
    /// The version pair is outside the supported range; carries both numbers.
    UnsupportedVersion(u16, u16),
    /// A field or method type descriptor did not parse; carries the text.
    InvalidTypeDescriptor(String),
}

impl View for ClassReaderError {
    type V = ClassReaderErrorView;

    open spec fn view(&self) -> ClassReaderErrorView {
        match self {
            ClassReaderError::InvalidClassData(message, index) => {
                ClassReaderErrorView::InvalidClassData {
                    message: message@,
                    index: match index {
                        Some(e) => Some(e.index),
                        None => None,
                    },
                }
            },
            ClassReaderError::UnsupportedVersion(major, minor) => {
                ClassReaderErrorView::UnsupportedVersion { major: *major, minor: *minor }
            },
            ClassReaderError::InvalidTypeDescriptor(descriptor) => {
                ClassReaderErrorView::InvalidTypeDescriptor { descriptor: descriptor@ }
            },
        }
    }
}

/// The view of the error that a failed cursor read is translated to.
pub open spec fn spec_buffer_error_view(err: BufferError) -> ClassReaderErrorView {
    ClassReaderErrorView::InvalidClassData {
        message: if err is UnexpectedEndOfData {
            "unexpected end of class file"@
        } else {
            "invalid cesu8 string"@
        },
        index: None,
    }
}

/// The view of the error that a failed pool lookup is translated to.
pub open spec fn spec_index_error_view(index: u16) -> ClassReaderErrorView {
    ClassReaderErrorView::InvalidClassData {
        message: spec_index_error_message(index),
        index: Some(index),
    }
}

/// The diagnostic text of each error kind.
pub open spec fn spec_error_message(v: ClassReaderErrorView) -> Seq<char> {
    match v {
        ClassReaderErrorView::InvalidClassData { message, .. } => "invalid class file: "@ + message,
        ClassReaderErrorView::UnsupportedVersion { major, minor } => {
            "unsupported class file version "@ + spec_dec_nat(major as nat) + "."@ + spec_dec_nat(
                minor as nat,
            )
        },
        ClassReaderErrorView::InvalidTypeDescriptor { descriptor } => {
            "invalid type descriptor: "@ + descriptor
        },
    }
}

impl ClassReaderError {
    /// A structural error with no pool-index context.
    pub fn invalid_class_data(message: String) -> (r: Self)
        ensures
            r@ == (ClassReaderErrorView::InvalidClassData { message: message@, index: None }),
    {
        ClassReaderError::InvalidClassData(message, None)
    }

    /// Translates a cursor failure into the public taxonomy.
    pub(crate) fn from_buffer_error(err: BufferError) -> (r: Self)
        ensures
            r@ == spec_buffer_error_view(err),
    {
        match err {
            BufferError::UnexpectedEndOfData => Self::invalid_class_data(
                String::from_str("unexpected end of class file"),
            ),
            BufferError::InvalidCesu8String => Self::invalid_class_data(
                String::from_str("invalid cesu8 string"),
            ),
        }
    }

    /// Translates a pool-lookup failure into the public taxonomy, keeping the
    /// offending index as structured context.
    pub fn from_index_error(err: InvalidConstantPoolIndexError) -> (r: Self)
        ensures
            r@ == spec_index_error_view(err.index),
    {
        let message = err.message();
        ClassReaderError::InvalidClassData(message, Some(err))
    }

    /// The human-readable rendering of this error.
    pub fn message(&self) -> (r: String)
        ensures
            r@ == spec_error_message(self@),
    {
        match self {
            ClassReaderError::InvalidClassData(details, _) => {
                String::from_str("invalid class file: ").concat(details.as_str())
            },
            ClassReaderError::UnsupportedVersion(major, minor) => {
                String::from_str("unsupported class file version ").concat(
                    dec_u64(*major as u64).as_str(),
                ).concat(".").concat(dec_u64(*minor as u64).as_str())
            },
            ClassReaderError::InvalidTypeDescriptor(descriptor) => {
                String::from_str("invalid type descriptor: ").concat(descriptor.as_str())
            },
        }
    }
}

} // verus!
