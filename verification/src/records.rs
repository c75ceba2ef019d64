//! Records exchanged with the server that the client passes on as they are:
//! languages, notifications, search results, publications, versions and the
//! overview counters.
use vstd::prelude::*;

verus! {

/// A language enabled in a space.
#[derive(Debug, Clone, PartialEq)]
pub struct SpaceLanguage {
    pub language_code: Option<String>,
    pub language_name: Option<String>,
    pub is_default: Option<bool>,
    pub enabled: Option<bool>,
}

/// A language version of a document.
#[derive(Debug, Clone, PartialEq)]
pub struct DocLanguage {
    pub language_code: Option<String>,
    pub language_name: Option<String>,
    pub status: Option<String>,
    pub is_default: Option<bool>,
    pub updated_at: Option<String>,
}

/// The body that adds a language to a space: never as its default language.
#[derive(Debug, Clone, PartialEq)]
pub struct AddLanguageRequest {
    pub language_code: String,
    pub is_default: Option<bool>,
}

/// The body that adds the language `code` to a space.
pub fn add_language_request(code: String) -> (r: AddLanguageRequest)
    ensures
        r.language_code == code,
        r.is_default == Some(false),
{
    AddLanguageRequest { language_code: code, is_default: Some(false) }
}


/// The changes of a document's language version.
#[derive(Debug, Clone, PartialEq)]
pub struct UpdateDocLangRequest {
    pub status: Option<String>,
    pub content: Option<String>,
}

/// A notification addressed to the user.
#[derive(Debug, Clone, PartialEq)]
pub struct Notification {
    pub id: Option<String>,
    pub title: Option<String>,
    pub content: Option<String>,
    pub notification_type: Option<String>,
    pub is_read: Option<bool>,
    pub created_at: Option<String>,
}

/// A page of notifications.
#[derive(Debug, Clone, PartialEq)]
pub struct NotificationListData {
    pub notifications: Option<Vec<Notification>>,
    pub total: Option<u64>,
}

/// The unread counter, under its older name `count` or its newer name
/// `unread_count`.
#[derive(Debug, Clone, PartialEq)]
pub struct UnreadCountData {
    pub count: u32,
    pub unread_count: Option<u32>,
}

impl UnreadCountData {
    /// The number of unread notifications: `unread_count` where the server
    /// sends it, `count` otherwise.
    pub fn unread(&self) -> (n: u32)
        ensures
            n == match self.unread_count {
                Some(u) => u,
                None => self.count,
            },
    {
        match self.unread_count {
            Some(u) => u,
            None => self.count,
        }
    }
}

/// One hit of a search.
#[derive(Debug, Clone, PartialEq)]
pub struct SearchResult {
    pub id: Option<String>,
    pub title: Option<String>,
    pub slug: Option<String>,
    pub space_slug: Option<String>,
    pub snippet: Option<String>,
}

/// A page of search hits.
#[derive(Debug, Clone, PartialEq)]
pub struct SearchData {
    pub results: Option<Vec<SearchResult>>,
    pub total: Option<u64>,
}

/// A published site of a space.
#[derive(Debug, PartialEq)]
pub struct Publication {
    pub id: Option<crate::json::JsonValue>,
    pub slug: Option<String>,
    pub name: Option<String>,
    pub description: Option<String>,
    pub status: Option<String>,
    pub domain: Option<String>,
    pub space_id: Option<String>,
    pub created_at: Option<String>,
    pub updated_at: Option<String>,
}

/// A saved version of a document.
#[derive(Debug, Clone, PartialEq)]
pub struct Version {
    pub id: Option<String>,
    pub version_number: Option<i64>,
    pub title: Option<String>,
    pub author_id: Option<String>,
    pub created_at: Option<String>,
}

/// The counters of the home page.
#[derive(Clone, Copy, Debug, Default, PartialEq, Eq, Structural)]
pub struct OverviewStats {
    pub space_count: i64,
    pub document_count: i64,
    pub tag_count: i64,
    pub open_change_requests: i64,
    pub active_ai_tasks: i64,
}

} // verus!
