//! Change requests: proposed edits of a document awaiting review.
use vstd::prelude::*;

use crate::json::{json_as_str, json_get, Json, JsonValue};

verus! {

/// A change request. Its `id` is whatever the server sends: a plain string,
/// or a record id object whose `id` member holds the string.
#[derive(Debug, PartialEq)]
pub struct ChangeRequest {
    pub id: Option<JsonValue>,
    pub title: Option<String>,
    pub description: Option<String>,
    pub space_id: Option<String>,
    pub document_id: Option<String>,
    pub document_title: Option<String>,
    pub author_id: Option<String>,
    pub reviewer_id: Option<String>,
    pub status: Option<String>,
    pub diff_content: Option<String>,
    pub created_at: Option<String>,
    pub updated_at: Option<String>,
}

/// The body of a request that opens a change request.
#[derive(Debug, Clone, PartialEq)]
pub struct CreateCrRequest {
    pub title: String,
    pub description: Option<String>,
    pub space_id: String,
    pub document_id: String,
    pub document_title: Option<String>,
    pub diff_content: Option<String>,
    pub reviewer_id: Option<String>,
}

/// The identifier of a change request: the string in the `id` member of an
/// id object, else the id itself where it is a string, else the empty text.
pub open spec fn change_request_id(id: Option<Json>) -> Seq<char> {
    match id {
        None => Seq::empty(),
        Some(v) => match json_get(v, "id"@) {
            Some(inner) if json_as_str(inner) is Some => json_as_str(inner)->0,
            _ => match json_as_str(v) {
                Some(s) => s,
                None => Seq::empty(),
            },
        },
    }
}

/// The identifier of a change request, as text.
pub fn extract_id(cr: &ChangeRequest) -> (r: String)
    ensures
        r@ == change_request_id(
            match cr.id {
                Some(v) => Some(v@),
                None => None,
            },
        ),
{
    match &cr.id {
        None => String::new(),
        Some(v) => {
            let nested = match v.get("id") {
                Some(inner) => inner.as_str(),
                None => None,
            };
            match nested {
                Some(s) => s.clone(),
                None => match v.as_str() {
                    Some(s) => s.clone(),
                    None => String::new(),
                },
            }
        },
    }
}

} // verus!
