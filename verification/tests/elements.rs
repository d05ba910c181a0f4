use auth_gateway::elements::{Element, ElementDocument, ElementStatus, Entry};
use auth_gateway::errors::{AccessError, ParseDocumentError};
use auth_gateway::inputs::{SingleContent, SingleStatus};
use auth_gateway::to_mongodb_entry;
use chrono::offset::Utc;
use mongodb::bson::oid::ObjectId;
use mongodb::bson::{from_bson, Bson};
use std::convert::TryFrom;

fn stored(id: &str, content: &str, status: ElementStatus, created: i64) -> ElementDocument {
    ElementDocument {
        id: Ok(id.to_string()),
        content: Ok(content.to_string()),
        status: Some(Ok(status)),
        created: Ok(created),
    }
}

fn decoding_error() -> mongodb::bson::de::Error {
    from_bson::<String>(Bson::Int32(7)).unwrap_err()
}

#[test]
fn test_to_mongodb_entry() {
    let c = SingleContent { content: String::from("some content") };
    let user = String::from("some user");
    let created = Utc::now().timestamp_millis();

    let entry = to_mongodb_entry(c, user, created);
    assert_eq!(
        entry,
        Entry {
            user: String::from("some user"),
            content: String::from("some content"),
            status: ElementStatus::Todo,
            created,
        }
    );
}

#[test]
fn test_element_from_mongodb_document() -> Result<(), ParseDocumentError> {
    let id = ObjectId::new().to_hex();
    let created = Utc::now().timestamp_millis();
    let doc = ElementDocument {
        id: Ok(id.clone()),
        content: Ok(String::from("some content")),
        status: Some(Ok(ElementStatus::Todo)),
        created: Ok(created),
    };

    let element = Element::try_from(doc)?;
    assert_eq!(
        element,
        Element {
            id,
            content: String::from("some content"),
            status: ElementStatus::Todo,
            created,
        }
    );
    Ok(())
}

#[test]
fn new_entry_is_open() {
    let entry = to_mongodb_entry(SingleContent { content: String::new() }, String::new(), -1);
    assert_eq!(entry.status, ElementStatus::Todo);
    assert_eq!(entry.created, -1);
}

#[test]
fn element_keeps_every_field() {
    let element = Element::try_from(stored("5f1d7f3e", "walk", ElementStatus::Deleted, 42)).unwrap();
    assert_eq!(element.id, "5f1d7f3e");
    assert_eq!(element.content, "walk");
    assert_eq!(element.status, ElementStatus::Deleted);
    assert_eq!(element.created, 42);
}

#[test]
fn missing_field_is_reported() {
    let mut doc = stored("a", "b", ElementStatus::Todo, 0);
    doc.id = Err(AccessError::NotPresent);
    assert!(matches!(Element::try_from(doc), Err(ParseDocumentError::NotPresent)));
    let mut doc = stored("a", "b", ElementStatus::Todo, 0);
    doc.content = Err(AccessError::NotPresent);
    assert!(matches!(Element::try_from(doc), Err(ParseDocumentError::NotPresent)));
    let mut doc = stored("a", "b", ElementStatus::Todo, 0);
    doc.status = None;
    assert!(matches!(Element::try_from(doc), Err(ParseDocumentError::NotPresent)));
    let mut doc = stored("a", "b", ElementStatus::Todo, 0);
    doc.created = Err(AccessError::NotPresent);
    assert!(matches!(Element::try_from(doc), Err(ParseDocumentError::NotPresent)));
}

#[test]
fn field_of_the_wrong_type_is_reported() {
    let mut doc = stored("a", "b", ElementStatus::Todo, 0);
    doc.id = Err(AccessError::UnexpectedType);
    assert!(matches!(Element::try_from(doc), Err(ParseDocumentError::UnexpectedType)));
    let mut doc = stored("a", "b", ElementStatus::Todo, 0);
    doc.created = Err(AccessError::UnexpectedType);
    assert!(matches!(Element::try_from(doc), Err(ParseDocumentError::UnexpectedType)));
}

#[test]
fn status_that_does_not_decode_is_reported() {
    let mut doc = stored("a", "b", ElementStatus::Todo, 0);
    doc.status = Some(Err(decoding_error()));
    assert!(matches!(
        Element::try_from(doc),
        Err(ParseDocumentError::BsonDeserializationError(_))
    ));
}

#[test]
fn first_bad_field_decides() {
    let doc = ElementDocument {
        id: Err(AccessError::UnexpectedType),
        content: Err(AccessError::NotPresent),
        status: None,
        created: Err(AccessError::Other),
    };
    assert!(matches!(Element::try_from(doc), Err(ParseDocumentError::UnexpectedType)));
    let doc = ElementDocument {
        id: Ok("a".to_string()),
        content: Err(AccessError::Other),
        status: Some(Err(decoding_error())),
        created: Err(AccessError::NotPresent),
    };
    assert!(matches!(Element::try_from(doc), Err(ParseDocumentError::Impossible)));
    let doc = ElementDocument {
        id: Ok("a".to_string()),
        content: Ok("b".to_string()),
        status: Some(Err(decoding_error())),
        created: Err(AccessError::NotPresent),
    };
    assert!(matches!(
        Element::try_from(doc),
        Err(ParseDocumentError::BsonDeserializationError(_))
    ));
}

#[test]
fn read_failures_map_onto_parse_errors() {
    assert!(matches!(
        ParseDocumentError::from(AccessError::NotPresent),
        ParseDocumentError::NotPresent
    ));
    assert!(matches!(
        ParseDocumentError::from(AccessError::UnexpectedType),
        ParseDocumentError::UnexpectedType
    ));
    assert!(matches!(ParseDocumentError::from(AccessError::Other), ParseDocumentError::Impossible));
}

#[test]
fn store_errors_are_carried() {
    assert!(matches!(
        ParseDocumentError::from(decoding_error()),
        ParseDocumentError::BsonDeserializationError(_)
    ));
    let encoding_error = mongodb::bson::to_bson(&u64::MAX).unwrap_err();
    assert!(matches!(
        ParseDocumentError::from(encoding_error),
        ParseDocumentError::BsonSerializationError(_)
    ));
}

#[test]
fn statuses_are_distinct() {
    assert_ne!(ElementStatus::Todo, ElementStatus::Done);
    assert_ne!(ElementStatus::Done, ElementStatus::Deleted);
    assert_ne!(ElementStatus::Deleted, ElementStatus::Todo);
}

#[test]
fn inputs_hold_what_was_submitted() {
    let content = SingleContent { content: String::from("some content") };
    assert_eq!(content.content, "some content");
    let status = SingleStatus { status: ElementStatus::Done };
    assert_eq!(status, SingleStatus { status: ElementStatus::Done });
}
