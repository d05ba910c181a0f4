//! Todo elements: their states, and how a stored document is read as one.
//!
//! The document store is the caller's. What the library sees of a document is
//! what the typed reads of its four fields gave; from that it builds the
//! element or names the first thing that is wrong.

use crate::errors::{AccessError, ParseDocumentError};
use vstd::prelude::*;
use vstd::std_specs::convert::TryFromSpecImpl;

verus! {

/// Where an element stands in its life: open, finished, or in the bin.
#[derive(Clone, Copy, Debug, PartialEq, Eq, Structural)]
pub enum ElementStatus {
    Todo,
    Done,
    Deleted,
}

/// A todo element as the API hands it out. `created` counts milliseconds
/// since the epoch.
#[derive(Debug, PartialEq, Eq)]
pub struct Element {
    pub id: String,
    pub content: String,
    pub status: ElementStatus,
    pub created: i64,
}

/// What reading a stored document gave, field by field: the identifier in
/// hexadecimal, the content, the decoded status where the field is present,
/// and the creation time in milliseconds since the epoch.
#[derive(Debug)]
pub struct ElementDocument {
    pub id: Result<String, AccessError>,
    pub content: Result<String, AccessError>,
    pub status: Option<Result<ElementStatus, mongodb::bson::de::Error>>,
    pub created: Result<i64, AccessError>,
}

/// A new element, ready to be stored for its user.
#[derive(Debug, PartialEq, Eq)]
pub struct Entry {
    pub user: String,
    pub content: String,
    pub status: ElementStatus,
    pub created: i64,
}

impl TryFrom<ElementDocument> for Element {
    type Error = ParseDocumentError;

    /// Reads a stored document as an element. The fields are taken in the
    /// order identifier, content, status, creation time, and the first one
    /// that is missing or of the wrong kind decides the error.
    fn try_from(doc: ElementDocument) -> (r: Result<Element, ParseDocumentError>) {
        let id = match doc.id {
            Ok(id) => id,
            Err(e) => return Err(ParseDocumentError::from(e)),
        };
        let content = match doc.content {
            Ok(content) => content,
            Err(e) => return Err(ParseDocumentError::from(e)),
        };
        let status = match doc.status {
            Some(Ok(status)) => status,
            Some(Err(e)) => return Err(ParseDocumentError::from(e)),
            None => return Err(ParseDocumentError::NotPresent),
        };
        let created = match doc.created {
            Ok(created) => created,
            Err(e) => return Err(ParseDocumentError::from(e)),
        };
        Ok(Element { id, content, status, created })
    }
}

impl TryFromSpecImpl<ElementDocument> for Element {
    open spec fn obeys_try_from_spec() -> bool {
        true
    }

    open spec fn try_from_spec(doc: ElementDocument) -> Result<Element, ParseDocumentError> {
        match doc.id {
            Err(e) => Err(ParseDocumentError::of_access(e)),
            Ok(id) => match doc.content {
                Err(e) => Err(ParseDocumentError::of_access(e)),
                Ok(content) => match doc.status {
                    None => Err(ParseDocumentError::NotPresent),
                    Some(Err(e)) => Err(ParseDocumentError::BsonDeserializationError(e)),
                    Some(Ok(status)) => match doc.created {
                        Err(e) => Err(ParseDocumentError::of_access(e)),
                        Ok(created) => Ok(Element { id, content, status, created }),
                    },
                },
            },
        }
    }
}

} // verus!
