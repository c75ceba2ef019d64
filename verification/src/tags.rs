//! Tags: their records, how a tag is shown, and the form that creates one.
use vstd::prelude::*;

use crate::documents::opt_text;
use crate::text::{string_of, trim, trim_spec};

verus! {

/// A tag.
#[derive(Debug, Clone, PartialEq)]
pub struct Tag {
    pub id: Option<String>,
    pub name: String,
    pub color: Option<String>,
    pub description: Option<String>,
    pub doc_count: Option<u32>,
    pub space_id: Option<String>,
}

/// A page of tags.
#[derive(Debug, Clone, PartialEq)]
pub struct TagListData {
    pub tags: Option<Vec<Tag>>,
    pub total_count: Option<i64>,
}

/// The body of a request that creates a tag.
#[derive(Debug, Clone, PartialEq)]
pub struct CreateTagRequest {
    pub name: String,
    pub color: Option<String>,
    pub description: Option<String>,
    pub space_id: Option<String>,
}

/// The changes of a tag update.
#[derive(Debug, Clone, PartialEq)]
pub struct UpdateTagRequest {
    pub name: Option<String>,
    pub color: Option<String>,
    pub description: Option<String>,
}

/// The colour a tag without one is drawn in.
pub const DEFAULT_TAG_COLOR: &'static str = "#6366f1";

/// The text of an optional string, or `default` where there is none.
pub open spec fn text_or(o: Option<Seq<char>>, default: Seq<char>) -> Seq<char> {
    match o {
        Some(t) => t,
        None => default,
    }
}

/// A copy of an optional text, or `default` where there is none.
pub fn text_or_default(o: &Option<String>, default: &str) -> (r: String)
    ensures
        r@ == text_or(opt_text(*o), default@),
{
    match o {
        Some(t) => t.clone(),
        None => string_of(default),
    }
}

/// A copy of an optional text, or the empty text where there is none.
pub fn text_or_empty(o: &Option<String>) -> (r: String)
    ensures
        r@ == text_or(opt_text(*o), Seq::empty()),
{
    match o {
        Some(t) => t.clone(),
        None => String::new(),
    }
}

impl Tag {
    /// The colour the tag is drawn in.
    pub fn display_color(&self) -> (r: String)
        ensures
            r@ == text_or(opt_text(self.color), DEFAULT_TAG_COLOR@),
    {
        text_or_default(&self.color, DEFAULT_TAG_COLOR)
    }

    /// The number of documents shown for the tag.
    pub fn display_doc_count(&self) -> (n: u32)
        ensures
            n == match self.doc_count {
                Some(c) => c,
                None => 0,
            },
    {
        match self.doc_count {
            Some(c) => c,
            None => 0,
        }
    }

    /// The tag's id, or the empty text for a tag without one.
    pub fn display_id(&self) -> (r: String)
        ensures
            r@ == text_or(opt_text(self.id), Seq::empty()),
    {
        text_or_empty(&self.id)
    }

    /// The description shown for the tag.
    pub fn display_description(&self) -> (r: String)
        ensures
            r@ == text_or(opt_text(self.description), Seq::empty()),
    {
        text_or_empty(&self.description)
    }
}

/// The request that the tag form sends: the trimmed name, the colour as
/// picked, the trimmed description (even an empty one), no space. A form
/// whose name is blank sends nothing.
pub fn new_tag_request(name: &str, color: &str, description: &str) -> (r: Option<
    CreateTagRequest,
>)
    ensures
        r is None <==> trim_spec(name@).len() == 0,
        r matches Some(req) ==> {
            &&& req.name@ == trim_spec(name@)
            &&& opt_text(req.color) == Some(color@)
            &&& opt_text(req.description) == Some(trim_spec(description@))
            &&& req.space_id is None
        },
{
    let name = trim(name);
    let description = trim(description);
    if name.as_str().unicode_len() == 0 {
        return None;
    }
    Some(
        CreateTagRequest {
            name,
            color: Some(string_of(color)),
            description: Some(description),
            space_id: None,
        },
    )
}

} // verus!
