//! What a client submits about a todo element.

use crate::elements::ElementStatus;
use vstd::prelude::*;

verus! {

/// The text of a new element.
#[derive(Debug, PartialEq, Eq)]
pub struct SingleContent {
    pub content: String,
}

/// The status an element is to get.
#[derive(Clone, Copy, Debug, PartialEq, Eq, Structural)]
pub struct SingleStatus {
    pub status: ElementStatus,
}

} // verus!
