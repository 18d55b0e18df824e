//! The errors of the index pipeline.

use vstd::prelude::*;
use vstd::string::StringExecFns;

verus! {

/// The engine's error, carried as it is.
#[verifier::external_type_specification]
#[verifier::external_body]
pub struct ExTantivyError(tantivy::TantivyError);

/// An I/O error of the standard library, carried as it is.
#[verifier::external_type_specification]
#[verifier::external_body]
pub struct ExIoError(std::io::Error);

/// An error of the JSON library, carried as it is.
#[verifier::external_type_specification]
#[verifier::external_body]
pub struct ExSerdeJsonError(serde_json::Error);

/// A column value that cannot be represented in an index field.
pub struct TantivyValueError {
    pub reason: String,
}

/// What can go wrong while an index is written.
pub enum IndexError {
    /// The engine failed: corrupt data, or a value it could not encode.
    TantivyError(tantivy::TantivyError),
    /// Storage could not be read or written.
    IOError(std::io::Error),
    /// Metadata could not be serialised or read back.
    SerdeJsonError(serde_json::Error),
    /// A column value has no place in its index field.
    TantivyValueError(TantivyValueError),
    /// The key column of a row is null; the name is the column's.
    KeyIdNull(String),
}

impl From<tantivy::TantivyError> for IndexError {
    fn from(error: tantivy::TantivyError) -> (result: Self) {
        IndexError::TantivyError(error)
    }
}

impl vstd::std_specs::convert::FromSpecImpl<tantivy::TantivyError> for IndexError {
    open spec fn obeys_from_spec() -> bool {
        true
    }

    open spec fn from_spec(error: tantivy::TantivyError) -> Self {
        IndexError::TantivyError(error)
    }
}

impl From<std::io::Error> for IndexError {
    fn from(error: std::io::Error) -> (result: Self) {
        IndexError::IOError(error)
    }
}

impl vstd::std_specs::convert::FromSpecImpl<std::io::Error> for IndexError {
    open spec fn obeys_from_spec() -> bool {
        true
    }

    open spec fn from_spec(error: std::io::Error) -> Self {
        IndexError::IOError(error)
    }
}

impl From<serde_json::Error> for IndexError {
    fn from(error: serde_json::Error) -> (result: Self) {
        IndexError::SerdeJsonError(error)
    }
}

impl vstd::std_specs::convert::FromSpecImpl<serde_json::Error> for IndexError {
    open spec fn obeys_from_spec() -> bool {
        true
    }

    open spec fn from_spec(error: serde_json::Error) -> Self {
        IndexError::SerdeJsonError(error)
    }
}

impl From<TantivyValueError> for IndexError {
    fn from(error: TantivyValueError) -> (result: Self) {
        IndexError::TantivyValueError(error)
    }
}

impl vstd::std_specs::convert::FromSpecImpl<TantivyValueError> for IndexError {
    open spec fn obeys_from_spec() -> bool {
        true
    }

    open spec fn from_spec(error: TantivyValueError) -> Self {
        IndexError::TantivyValueError(error)
    }
}

/// Calls `to_string` on the engine's error, which formats it by its
/// `Display`. Nothing is claimed of the text.
#[verifier::external_body]
fn tantivy_error_text(error: &tantivy::TantivyError) -> (text: String) {
    error.to_string()
}

/// Calls `to_string` on an I/O error, which formats it by its `Display`.
/// Nothing is claimed of the text.
#[verifier::external_body]
fn io_error_text(error: &std::io::Error) -> (text: String) {
    error.to_string()
}

/// Calls `to_string` on the JSON library's error, which formats it by its
/// `Display`. Nothing is claimed of the text.
#[verifier::external_body]
fn serde_json_error_text(error: &serde_json::Error) -> (text: String) {
    error.to_string()
}

/// The message for a null key column.
pub open spec fn key_id_null_message(column: Seq<char>) -> Seq<char> {
    "key_field column '"@ + column + "' cannot be NULL"@
}

impl IndexError {
    /// The error's message. An error of the engine, of storage or of the
    /// JSON library speaks for itself, and nothing is said of its text here:
    /// each of the three can carry a failure of the operating system, whose
    /// wording is the system's. A conversion error gives its reason; a null
    /// key names the column.
    pub fn message(&self) -> (text: String)
        ensures
            self matches IndexError::KeyIdNull(column) ==> text@ == key_id_null_message(column@),
            self matches IndexError::TantivyValueError(error) ==> text@ == error.reason@,
    {
        match self {
            IndexError::TantivyError(error) => tantivy_error_text(error),
            IndexError::IOError(error) => io_error_text(error),
            IndexError::SerdeJsonError(error) => serde_json_error_text(error),
            IndexError::TantivyValueError(error) => String::from_str(error.reason.as_str()),
            IndexError::KeyIdNull(column) => {
                let text = String::from_str("key_field column '");
                let text = text.concat(column.as_str());
                text.concat("' cannot be NULL")
            },
        }
    }
}

} // verus!
