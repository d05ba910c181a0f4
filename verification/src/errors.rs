//! Why a stored document could not be read as an element.

use vstd::prelude::*;
use vstd::std_specs::convert::FromSpecImpl;

verus! {

/// The document store's decoding error, carried through and never looked
/// into.
#[verifier::external_type_specification]
#[verifier::external_body]
pub struct ExBsonDeserializationError(mongodb::bson::de::Error);

/// The document store's encoding error, carried through and never looked
/// into.
#[verifier::external_type_specification]
#[verifier::external_body]
pub struct ExBsonSerializationError(mongodb::bson::ser::Error);

/// Why the typed read of one field of a stored document failed.
#[derive(Clone, Copy, Debug, PartialEq, Eq, Structural)]
pub enum AccessError {
    /// The document has no field of that name.
    NotPresent,
    /// The field holds a value of another type.
    UnexpectedType,
    /// The store gave a reason that this library does not know.
    Other,
}

/// Why a stored document is no element.
#[derive(Debug)]
pub enum ParseDocumentError {
    NotPresent,
    UnexpectedType,
    BsonDeserializationError(mongodb::bson::de::Error),
    BsonSerializationError(mongodb::bson::ser::Error),
    Impossible,
}

impl ParseDocumentError {
    /// The error that a failed read of one field stands for.
    pub open spec fn of_access(e: AccessError) -> ParseDocumentError {
        match e {
            AccessError::NotPresent => ParseDocumentError::NotPresent,
            AccessError::UnexpectedType => ParseDocumentError::UnexpectedType,
            AccessError::Other => ParseDocumentError::Impossible,
        }
    }
}

impl From<AccessError> for ParseDocumentError {
    /// A field that is missing or of the wrong type is reported as such; any
    /// other failure of a read is not expected of the store.
    fn from(e: AccessError) -> (r: ParseDocumentError) {
        match e {
            AccessError::NotPresent => ParseDocumentError::NotPresent,
            AccessError::UnexpectedType => ParseDocumentError::UnexpectedType,
            AccessError::Other => ParseDocumentError::Impossible,
        }
    }
}

impl FromSpecImpl<AccessError> for ParseDocumentError {
    open spec fn obeys_from_spec() -> bool {
        true
    }

    open spec fn from_spec(e: AccessError) -> ParseDocumentError {
        ParseDocumentError::of_access(e)
    }
}

impl From<mongodb::bson::de::Error> for ParseDocumentError {
    /// Carries the store's decoding error.
    fn from(e: mongodb::bson::de::Error) -> (r: ParseDocumentError) {
        ParseDocumentError::BsonDeserializationError(e)
    }
}

impl FromSpecImpl<mongodb::bson::de::Error> for ParseDocumentError {
    open spec fn obeys_from_spec() -> bool {
        true
    }

    open spec fn from_spec(e: mongodb::bson::de::Error) -> ParseDocumentError {
        ParseDocumentError::BsonDeserializationError(e)
    }
}

impl From<mongodb::bson::ser::Error> for ParseDocumentError {
    /// Carries the store's encoding error.
    fn from(e: mongodb::bson::ser::Error) -> (r: ParseDocumentError) {
        ParseDocumentError::BsonSerializationError(e)
    }
}

impl FromSpecImpl<mongodb::bson::ser::Error> for ParseDocumentError {
    open spec fn obeys_from_spec() -> bool {
        true
    }

    open spec fn from_spec(e: mongodb::bson::ser::Error) -> ParseDocumentError {
        ParseDocumentError::BsonSerializationError(e)
    }
}

} // verus!
