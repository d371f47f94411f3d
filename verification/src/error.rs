//! The ways in which a compilation fails.

use vstd::prelude::*;

verus! {

/// Why a compilation stopped. The first failure of any stage ends the whole
/// compilation; nothing is produced beside it.
#[derive(Clone, Copy, Debug, PartialEq, Eq)]
pub enum CompilationError {
    /// The input has the wrong shape: the schema is not a mapping,
    /// `properties` is not a sequence, or a property entry is malformed.
    TypeMismatch,
    /// The document names a format version other than the supported one.
    UnsupportedVersion,
    /// A part of a node could not be decoded: an annotation, a type, an
    /// enumeration or the dynamic key/value schema.
    DeserializationError,
    /// A value has no JSON text.
    SerializationError,
    /// The document is well formed but breaks a rule of the language.
    ValidationError,
}

impl CompilationError {
    /// The sentence that tells a user of the failure.
    pub open spec fn spec_message(self) -> Seq<char> {
        match self {
            CompilationError::TypeMismatch => "the schema has the wrong shape"@,
            CompilationError::UnsupportedVersion => "the version of the schema is not supported"@,
            CompilationError::DeserializationError => "a part of the schema cannot be decoded"@,
            CompilationError::SerializationError => "a value of the schema has no JSON text"@,
            CompilationError::ValidationError => "the schema is not consistent"@,
        }
    }

    /// The sentence that tells a user of the failure.
    pub fn message(&self) -> (r: String)
        ensures
            r@ == self.spec_message(),
    {
        match self {
            CompilationError::TypeMismatch => "the schema has the wrong shape".to_owned(),
            CompilationError::UnsupportedVersion => {
                "the version of the schema is not supported".to_owned()
            },
            CompilationError::DeserializationError => {
                "a part of the schema cannot be decoded".to_owned()
            },
            CompilationError::SerializationError => {
                "a value of the schema has no JSON text".to_owned()
            },
            CompilationError::ValidationError => "the schema is not consistent".to_owned(),
        }
    }
}

} // verus!
