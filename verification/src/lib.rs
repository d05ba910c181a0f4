//! The core of an authentication gateway in front of an identity provider:
//! the form-encoded credential requests it sends, the service-account
//! credential it keeps fresh, and the authorization check it applies to every
//! inbound request, together with the todo elements that the gateway guards.
//! The library decides and computes; sending, storing, waiting and locking
//! are the caller's.

use crate::elements::{ElementStatus, Entry};
use crate::inputs::SingleContent;
use vstd::prelude::*;

pub mod config;
pub mod elements;
pub mod encoding;
pub mod errors;
pub mod gateway;
pub mod inputs;
pub mod lifecycle;
pub mod registration;

verus! {

/// The entry to store for a new element of `user`: the submitted content, open,
/// created at `created` milliseconds since the epoch.
pub fn to_mongodb_entry(c: SingleContent, user: String, created: i64) -> (r: Entry)
    ensures
        r == (Entry { user, content: c.content, status: ElementStatus::Todo, created }),
{
    Entry { user, content: c.content, status: ElementStatus::Todo, created }
}

} // verus!
