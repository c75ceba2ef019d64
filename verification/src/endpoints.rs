//! The requests that the client makes: for each operation of the server's
//! HTTP interface, its method and path, and the bodies that the client
//! composes itself.
use vstd::prelude::*;

use crate::json::{Json, JsonValue};
use crate::text::{append_str, decimal, string_of, strip_all_prefixes, trim_start_matches, u64_to_decimal};
use crate::uri::{encode_uri_component, encode_uri_component_spec};

verus! {

/// An HTTP method.
#[derive(Clone, Copy, Debug, PartialEq, Eq, Structural)]
pub enum Method {
    Get,
    Post,
    Put,
    Delete,
}

/// One request of the server's interface: its method and its path, query
/// included.
#[derive(Debug, Clone, PartialEq)]
pub struct Endpoint {
    pub method: Method,
    pub path: String,
}

/// `path`, then `&<name>=<value>` where a value is given.
pub open spec fn with_query(path: Seq<char>, name: Seq<char>, value: Option<Seq<char>>) -> Seq<char> {
    match value {
        Some(v) => path + "&"@ + name + "="@ + v,
        None => path,
    }
}

fn push_query(path: &mut String, name: &str, value: Option<&str>)
    ensures
        final(path)@ == with_query(
            old(path)@,
            name@,
            match value {
                Some(v) => Some(v@),
                None => None,
            },
        ),
{
    match value {
        Some(v) => {
            append_str(path, "&");
            append_str(path, name);
            append_str(path, "=");
            append_str(path, v);
        },
        None => {},
    }
}

/// The text of an optional string slice.
pub open spec fn opt_str(o: Option<&str>) -> Option<Seq<char>> {
    match o {
        Some(v) => Some(v@),
        None => None,
    }
}

// ---------------------------------------------------------------------------
// Queries with optional filters, searches, templates
// ---------------------------------------------------------------------------

/// `GET /api/docs/change-requests?per_page=50`, filtered by status and by
/// space where they are given.
pub fn list_crs(status: Option<&str>, space_id: Option<&str>) -> (r: Endpoint)
    ensures
        r.method == Method::Get,
        r.path@ == with_query(
            with_query("/api/docs/change-requests?per_page=50"@, "status"@, opt_str(status)),
            "space_id"@,
            opt_str(space_id),
        ),
{
    let mut path = string_of("/api/docs/change-requests?per_page=50");
    push_query(&mut path, "status", status);
    push_query(&mut path, "space_id", space_id);
    Endpoint { method: Method::Get, path }
}

/// `GET /api/docs/tags?page={page}&per_page={per_page}`, within one space
/// where it is given.
pub fn list_tags(space_id: Option<&str>, page: u32, per_page: u32) -> (r: Endpoint)
    ensures
        r.method == Method::Get,
        r.path@ == with_query(
            "/api/docs/tags?page="@ + decimal(page as nat) + "&per_page="@ + decimal(
                per_page as nat,
            ),
            "space_id"@,
            opt_str(space_id),
        ),
{
    let mut path = string_of("/api/docs/tags?page=");
    append_str(&mut path, u64_to_decimal(page as u64).as_str());
    append_str(&mut path, "&per_page=");
    append_str(&mut path, u64_to_decimal(per_page as u64).as_str());
    push_query(&mut path, "space_id", space_id);
    Endpoint { method: Method::Get, path }
}

/// `GET /api/docs/tags/popular?limit={limit}`, within one space where it is
/// given.
pub fn get_popular_tags(space_id: Option<&str>, limit: u32) -> (r: Endpoint)
    ensures
        r.method == Method::Get,
        r.path@ == with_query(
            "/api/docs/tags/popular?limit="@ + decimal(limit as nat),
            "space_id"@,
            opt_str(space_id),
        ),
{
    let mut path = string_of("/api/docs/tags/popular?limit=");
    append_str(&mut path, u64_to_decimal(limit as u64).as_str());
    push_query(&mut path, "space_id", space_id);
    Endpoint { method: Method::Get, path }
}

/// `GET /api/docs/search?q={query}&page={page}&per_page={per_page}`, the
/// query percent-encoded.
pub fn search(query: &str, page: u32, per_page: u32) -> (r: Endpoint)
    ensures
        r.method == Method::Get,
        r.path@ == "/api/docs/search?q="@ + encode_uri_component_spec(query@) + "&page="@ + decimal(
            page as nat,
        ) + "&per_page="@ + decimal(per_page as nat),
{
    let mut path = string_of("/api/docs/search?q=");
    append_str(&mut path, urlencoding(query).as_str());
    append_str(&mut path, "&page=");
    append_str(&mut path, u64_to_decimal(page as u64).as_str());
    append_str(&mut path, "&per_page=");
    append_str(&mut path, u64_to_decimal(per_page as u64).as_str());
    Endpoint { method: Method::Get, path }
}

/// `GET /api/docs/search/suggest?q={query}`, the query percent-encoded.
pub fn suggest(query: &str) -> (r: Endpoint)
    ensures
        r.method == Method::Get,
        r.path@ == "/api/docs/search/suggest?q="@ + encode_uri_component_spec(query@),
{
    let mut path = string_of("/api/docs/search/suggest?q=");
    append_str(&mut path, urlencoding(query).as_str());
    Endpoint { method: Method::Get, path }
}

/// A search text percent-encoded for a query string.
pub fn urlencoding(s: &str) -> (r: String)
    ensures
        r@ == encode_uri_component_spec(s@),
{
    encode_uri_component(s)
}

/// `POST /api/docs/templates/{id}/use`, where the id loses any leading
/// `doc_template:` record prefixes.
pub fn use_template(id: &str) -> (r: Endpoint)
    ensures
        r.method == Method::Post,
        r.path@ == "/api/docs/templates/"@ + strip_all_prefixes(id@, "doc_template:"@) + "/use"@,
{
    let raw_id = trim_start_matches(id, "doc_template:");
    let mut path = string_of("/api/docs/templates/");
    append_str(&mut path, raw_id.as_str());
    append_str(&mut path, "/use");
    Endpoint { method: Method::Post, path }
}

// ---------------------------------------------------------------------------
// Bodies
// ---------------------------------------------------------------------------

/// The empty object `{}` that actions without parameters send.
pub fn empty_body() -> (r: JsonValue)
    ensures
        r@ == Json::Object(Seq::empty()),
{
    let members: Vec<(String, JsonValue)> = Vec::new();
    let r = JsonValue::Object(members);
    assert(crate::json::members_view(members@) =~= Seq::empty());
    r
}

/// The body of a publication: `{"version": <version>}`.
pub fn publish_body(version: &str) -> (r: JsonValue)
    ensures
        r@ == Json::Object(seq![("version"@, Json::Str(version@))]),
{
    let mut members: Vec<(String, JsonValue)> = Vec::new();
    members.push((string_of("version"), JsonValue::Str(string_of(version))));
    proof {
        crate::json::lemma_members_view(members@);
    }
    let r = JsonValue::Object(members);
    assert(crate::json::members_view(members@) =~= seq![("version"@, Json::Str(version@))]);
    r
}

// ---------------------------------------------------------------------------
// Accounts
// ---------------------------------------------------------------------------

/// `POST /api/auth/login`.
pub fn login() -> (r: Endpoint)
    ensures
        r.method == Method::Post,
        r.path@ == "/api/auth/login"@,
{
    let path = string_of("/api/auth/login");
    Endpoint { method: Method::Post, path }
}

/// `POST /api/auth/register`.
pub fn register() -> (r: Endpoint)
    ensures
        r.method == Method::Post,
        r.path@ == "/api/auth/register"@,
{
    let path = string_of("/api/auth/register");
    Endpoint { method: Method::Post, path }
}

/// `GET /api/auth/me`.
pub fn me() -> (r: Endpoint)
    ensures
        r.method == Method::Get,
        r.path@ == "/api/auth/me"@,
{
    let path = string_of("/api/auth/me");
    Endpoint { method: Method::Get, path }
}

/// `PUT /api/auth/profile`.
pub fn update_profile() -> (r: Endpoint)
    ensures
        r.method == Method::Put,
        r.path@ == "/api/auth/profile"@,
{
    let path = string_of("/api/auth/profile");
    Endpoint { method: Method::Put, path }
}

/// `POST /api/auth/change-password`.
pub fn change_password() -> (r: Endpoint)
    ensures
        r.method == Method::Post,
        r.path@ == "/api/auth/change-password"@,
{
    let path = string_of("/api/auth/change-password");
    Endpoint { method: Method::Post, path }
}

// ---------------------------------------------------------------------------
// Change requests
// ---------------------------------------------------------------------------

/// `POST /api/docs/change-requests`.
pub fn create_cr() -> (r: Endpoint)
    ensures
        r.method == Method::Post,
        r.path@ == "/api/docs/change-requests"@,
{
    let path = string_of("/api/docs/change-requests");
    Endpoint { method: Method::Post, path }
}

/// `POST /api/docs/change-requests/{id}/approve`.
pub fn approve_cr(id: &str) -> (r: Endpoint)
    ensures
        r.method == Method::Post,
        r.path@ == "/api/docs/change-requests/"@ + id@ + "/approve"@,
{
    let mut path = string_of("/api/docs/change-requests/");
    append_str(&mut path, id);
    append_str(&mut path, "/approve");
    Endpoint { method: Method::Post, path }
}

/// `POST /api/docs/change-requests/{id}/reject`.
pub fn reject_cr(id: &str) -> (r: Endpoint)
    ensures
        r.method == Method::Post,
        r.path@ == "/api/docs/change-requests/"@ + id@ + "/reject"@,
{
    let mut path = string_of("/api/docs/change-requests/");
    append_str(&mut path, id);
    append_str(&mut path, "/reject");
    Endpoint { method: Method::Post, path }
}

/// `DELETE /api/docs/change-requests/{id}`.
pub fn delete_cr(id: &str) -> (r: Endpoint)
    ensures
        r.method == Method::Delete,
        r.path@ == "/api/docs/change-requests/"@ + id@,
{
    let mut path = string_of("/api/docs/change-requests/");
    append_str(&mut path, id);
    Endpoint { method: Method::Delete, path }
}

// ---------------------------------------------------------------------------
// Developer platform
// ---------------------------------------------------------------------------

/// `GET /api/docs/developer/api-keys`.
pub fn list_api_keys() -> (r: Endpoint)
    ensures
        r.method == Method::Get,
        r.path@ == "/api/docs/developer/api-keys"@,
{
    let path = string_of("/api/docs/developer/api-keys");
    Endpoint { method: Method::Get, path }
}

/// `POST /api/docs/developer/api-keys`.
pub fn create_api_key() -> (r: Endpoint)
    ensures
        r.method == Method::Post,
        r.path@ == "/api/docs/developer/api-keys"@,
{
    let path = string_of("/api/docs/developer/api-keys");
    Endpoint { method: Method::Post, path }
}

/// `DELETE /api/docs/developer/api-keys/{id}`.
pub fn delete_api_key(id: &str) -> (r: Endpoint)
    ensures
        r.method == Method::Delete,
        r.path@ == "/api/docs/developer/api-keys/"@ + id@,
{
    let mut path = string_of("/api/docs/developer/api-keys/");
    append_str(&mut path, id);
    Endpoint { method: Method::Delete, path }
}

/// `GET /api/docs/developer/webhooks`.
pub fn list_webhooks() -> (r: Endpoint)
    ensures
        r.method == Method::Get,
        r.path@ == "/api/docs/developer/webhooks"@,
{
    let path = string_of("/api/docs/developer/webhooks");
    Endpoint { method: Method::Get, path }
}

/// `POST /api/docs/developer/webhooks`.
pub fn create_webhook() -> (r: Endpoint)
    ensures
        r.method == Method::Post,
        r.path@ == "/api/docs/developer/webhooks"@,
{
    let path = string_of("/api/docs/developer/webhooks");
    Endpoint { method: Method::Post, path }
}

/// `PUT /api/docs/developer/webhooks/{id}`.
pub fn update_webhook(id: &str) -> (r: Endpoint)
    ensures
        r.method == Method::Put,
        r.path@ == "/api/docs/developer/webhooks/"@ + id@,
{
    let mut path = string_of("/api/docs/developer/webhooks/");
    append_str(&mut path, id);
    Endpoint { method: Method::Put, path }
}

/// `DELETE /api/docs/developer/webhooks/{id}`.
pub fn delete_webhook(id: &str) -> (r: Endpoint)
    ensures
        r.method == Method::Delete,
        r.path@ == "/api/docs/developer/webhooks/"@ + id@,
{
    let mut path = string_of("/api/docs/developer/webhooks/");
    append_str(&mut path, id);
    Endpoint { method: Method::Delete, path }
}

/// `POST /api/docs/developer/webhooks/{id}/test`.
pub fn test_webhook(id: &str) -> (r: Endpoint)
    ensures
        r.method == Method::Post,
        r.path@ == "/api/docs/developer/webhooks/"@ + id@ + "/test"@,
{
    let mut path = string_of("/api/docs/developer/webhooks/");
    append_str(&mut path, id);
    append_str(&mut path, "/test");
    Endpoint { method: Method::Post, path }
}

/// `GET /api/docs/developer/ai-users`.
pub fn list_ai_users() -> (r: Endpoint)
    ensures
        r.method == Method::Get,
        r.path@ == "/api/docs/developer/ai-users"@,
{
    let path = string_of("/api/docs/developer/ai-users");
    Endpoint { method: Method::Get, path }
}

/// `GET /api/docs/developer/manifest`.
pub fn get_manifest() -> (r: Endpoint)
    ensures
        r.method == Method::Get,
        r.path@ == "/api/docs/developer/manifest"@,
{
    let path = string_of("/api/docs/developer/manifest");
    Endpoint { method: Method::Get, path }
}

// ---------------------------------------------------------------------------
// Documents
// ---------------------------------------------------------------------------

/// `GET /api/docs/documents/{space_slug}?page={page}&limit={page_size}`.
pub fn list_documents(space_slug: &str, page: u32, page_size: u32) -> (r: Endpoint)
    ensures
        r.method == Method::Get,
        r.path@ == "/api/docs/documents/"@ + space_slug@ + "?page="@ + decimal(page as nat) + "&limit="@ + decimal(page_size as nat),
{
    let mut path = string_of("/api/docs/documents/");
    append_str(&mut path, space_slug);
    append_str(&mut path, "?page=");
    append_str(&mut path, u64_to_decimal(page as u64).as_str());
    append_str(&mut path, "&limit=");
    append_str(&mut path, u64_to_decimal(page_size as u64).as_str());
    Endpoint { method: Method::Get, path }
}

/// `GET /api/docs/documents/{space_slug}/tree`.
pub fn get_document_tree(space_slug: &str) -> (r: Endpoint)
    ensures
        r.method == Method::Get,
        r.path@ == "/api/docs/documents/"@ + space_slug@ + "/tree"@,
{
    let mut path = string_of("/api/docs/documents/");
    append_str(&mut path, space_slug);
    append_str(&mut path, "/tree");
    Endpoint { method: Method::Get, path }
}

/// `POST /api/docs/documents/{space_slug}`.
pub fn create_document(space_slug: &str) -> (r: Endpoint)
    ensures
        r.method == Method::Post,
        r.path@ == "/api/docs/documents/"@ + space_slug@,
{
    let mut path = string_of("/api/docs/documents/");
    append_str(&mut path, space_slug);
    Endpoint { method: Method::Post, path }
}

/// `GET /api/docs/documents/{space_slug}/{doc_slug}`.
pub fn get_document(space_slug: &str, doc_slug: &str) -> (r: Endpoint)
    ensures
        r.method == Method::Get,
        r.path@ == "/api/docs/documents/"@ + space_slug@ + "/"@ + doc_slug@,
{
    let mut path = string_of("/api/docs/documents/");
    append_str(&mut path, space_slug);
    append_str(&mut path, "/");
    append_str(&mut path, doc_slug);
    Endpoint { method: Method::Get, path }
}

/// `PUT /api/docs/documents/{space_slug}/{doc_slug}`.
pub fn update_document(space_slug: &str, doc_slug: &str) -> (r: Endpoint)
    ensures
        r.method == Method::Put,
        r.path@ == "/api/docs/documents/"@ + space_slug@ + "/"@ + doc_slug@,
{
    let mut path = string_of("/api/docs/documents/");
    append_str(&mut path, space_slug);
    append_str(&mut path, "/");
    append_str(&mut path, doc_slug);
    Endpoint { method: Method::Put, path }
}

/// `DELETE /api/docs/documents/{space_slug}/{doc_slug}`.
pub fn delete_document(space_slug: &str, doc_slug: &str) -> (r: Endpoint)
    ensures
        r.method == Method::Delete,
        r.path@ == "/api/docs/documents/"@ + space_slug@ + "/"@ + doc_slug@,
{
    let mut path = string_of("/api/docs/documents/");
    append_str(&mut path, space_slug);
    append_str(&mut path, "/");
    append_str(&mut path, doc_slug);
    Endpoint { method: Method::Delete, path }
}

// ---------------------------------------------------------------------------
// Files
// ---------------------------------------------------------------------------

/// `GET /api/docs/files?space_id={space_id}&per_page=50`.
pub fn list_files(space_id: &str) -> (r: Endpoint)
    ensures
        r.method == Method::Get,
        r.path@ == "/api/docs/files?space_id="@ + space_id@ + "&per_page=50"@,
{
    let mut path = string_of("/api/docs/files?space_id=");
    append_str(&mut path, space_id);
    append_str(&mut path, "&per_page=50");
    Endpoint { method: Method::Get, path }
}

/// `DELETE /api/docs/files/{file_id}`.
pub fn delete_file(file_id: &str) -> (r: Endpoint)
    ensures
        r.method == Method::Delete,
        r.path@ == "/api/docs/files/"@ + file_id@,
{
    let mut path = string_of("/api/docs/files/");
    append_str(&mut path, file_id);
    Endpoint { method: Method::Delete, path }
}

// ---------------------------------------------------------------------------
// Git synchronisation
// ---------------------------------------------------------------------------

/// `GET /api/docs/git-sync/repositories`.
pub fn list_repos() -> (r: Endpoint)
    ensures
        r.method == Method::Get,
        r.path@ == "/api/docs/git-sync/repositories"@,
{
    let path = string_of("/api/docs/git-sync/repositories");
    Endpoint { method: Method::Get, path }
}

/// `POST /api/docs/git-sync/repositories`.
pub fn create_repo() -> (r: Endpoint)
    ensures
        r.method == Method::Post,
        r.path@ == "/api/docs/git-sync/repositories"@,
{
    let path = string_of("/api/docs/git-sync/repositories");
    Endpoint { method: Method::Post, path }
}

/// `PUT /api/docs/git-sync/repositories/{id}`.
pub fn update_repo(id: &str) -> (r: Endpoint)
    ensures
        r.method == Method::Put,
        r.path@ == "/api/docs/git-sync/repositories/"@ + id@,
{
    let mut path = string_of("/api/docs/git-sync/repositories/");
    append_str(&mut path, id);
    Endpoint { method: Method::Put, path }
}

/// `DELETE /api/docs/git-sync/repositories/{id}`.
pub fn delete_repo(id: &str) -> (r: Endpoint)
    ensures
        r.method == Method::Delete,
        r.path@ == "/api/docs/git-sync/repositories/"@ + id@,
{
    let mut path = string_of("/api/docs/git-sync/repositories/");
    append_str(&mut path, id);
    Endpoint { method: Method::Delete, path }
}

/// `POST /api/docs/git-sync/repositories/{id}/sync`.
pub fn trigger_sync(id: &str) -> (r: Endpoint)
    ensures
        r.method == Method::Post,
        r.path@ == "/api/docs/git-sync/repositories/"@ + id@ + "/sync"@,
{
    let mut path = string_of("/api/docs/git-sync/repositories/");
    append_str(&mut path, id);
    append_str(&mut path, "/sync");
    Endpoint { method: Method::Post, path }
}

/// `GET /api/docs/git-sync/repositories/{id}/logs`.
pub fn sync_logs(id: &str) -> (r: Endpoint)
    ensures
        r.method == Method::Get,
        r.path@ == "/api/docs/git-sync/repositories/"@ + id@ + "/logs"@,
{
    let mut path = string_of("/api/docs/git-sync/repositories/");
    append_str(&mut path, id);
    append_str(&mut path, "/logs");
    Endpoint { method: Method::Get, path }
}

// ---------------------------------------------------------------------------
// Languages
// ---------------------------------------------------------------------------

/// `GET /api/docs/language/spaces/{space_slug}/languages`.
pub fn list_space_languages(space_slug: &str) -> (r: Endpoint)
    ensures
        r.method == Method::Get,
        r.path@ == "/api/docs/language/spaces/"@ + space_slug@ + "/languages"@,
{
    let mut path = string_of("/api/docs/language/spaces/");
    append_str(&mut path, space_slug);
    append_str(&mut path, "/languages");
    Endpoint { method: Method::Get, path }
}

/// `POST /api/docs/language/spaces/{space_slug}/languages`.
pub fn add_space_language(space_slug: &str) -> (r: Endpoint)
    ensures
        r.method == Method::Post,
        r.path@ == "/api/docs/language/spaces/"@ + space_slug@ + "/languages"@,
{
    let mut path = string_of("/api/docs/language/spaces/");
    append_str(&mut path, space_slug);
    append_str(&mut path, "/languages");
    Endpoint { method: Method::Post, path }
}

/// `GET /api/docs/language/documents/{space_slug}/{doc_slug}/languages`.
pub fn list_doc_languages(space_slug: &str, doc_slug: &str) -> (r: Endpoint)
    ensures
        r.method == Method::Get,
        r.path@ == "/api/docs/language/documents/"@ + space_slug@ + "/"@ + doc_slug@ + "/languages"@,
{
    let mut path = string_of("/api/docs/language/documents/");
    append_str(&mut path, space_slug);
    append_str(&mut path, "/");
    append_str(&mut path, doc_slug);
    append_str(&mut path, "/languages");
    Endpoint { method: Method::Get, path }
}

/// `PUT /api/docs/language/documents/{space_slug}/{doc_slug}/languages/{code}`.
pub fn update_doc_language(space_slug: &str, doc_slug: &str, code: &str) -> (r: Endpoint)
    ensures
        r.method == Method::Put,
        r.path@ == "/api/docs/language/documents/"@ + space_slug@ + "/"@ + doc_slug@ + "/languages/"@ + code@,
{
    let mut path = string_of("/api/docs/language/documents/");
    append_str(&mut path, space_slug);
    append_str(&mut path, "/");
    append_str(&mut path, doc_slug);
    append_str(&mut path, "/languages/");
    append_str(&mut path, code);
    Endpoint { method: Method::Put, path }
}

/// `POST /api/docs/language/documents/{space_slug}/{doc_slug}/languages/{code}/translate`.
pub fn request_translation(space_slug: &str, doc_slug: &str, code: &str) -> (r: Endpoint)
    ensures
        r.method == Method::Post,
        r.path@ == "/api/docs/language/documents/"@ + space_slug@ + "/"@ + doc_slug@ + "/languages/"@ + code@ + "/translate"@,
{
    let mut path = string_of("/api/docs/language/documents/");
    append_str(&mut path, space_slug);
    append_str(&mut path, "/");
    append_str(&mut path, doc_slug);
    append_str(&mut path, "/languages/");
    append_str(&mut path, code);
    append_str(&mut path, "/translate");
    Endpoint { method: Method::Post, path }
}

// ---------------------------------------------------------------------------
// Notifications
// ---------------------------------------------------------------------------

/// `GET /api/docs/notifications?page={page}&limit={page_size}`.
pub fn list_notifications(page: u32, page_size: u32) -> (r: Endpoint)
    ensures
        r.method == Method::Get,
        r.path@ == "/api/docs/notifications?page="@ + decimal(page as nat) + "&limit="@ + decimal(page_size as nat),
{
    let mut path = string_of("/api/docs/notifications?page=");
    append_str(&mut path, u64_to_decimal(page as u64).as_str());
    append_str(&mut path, "&limit=");
    append_str(&mut path, u64_to_decimal(page_size as u64).as_str());
    Endpoint { method: Method::Get, path }
}

/// `GET /api/docs/notifications/unread-count`.
pub fn get_unread_count() -> (r: Endpoint)
    ensures
        r.method == Method::Get,
        r.path@ == "/api/docs/notifications/unread-count"@,
{
    let path = string_of("/api/docs/notifications/unread-count");
    Endpoint { method: Method::Get, path }
}

/// `PUT /api/docs/notifications/{notification_id}`.
pub fn mark_as_read(notification_id: &str) -> (r: Endpoint)
    ensures
        r.method == Method::Put,
        r.path@ == "/api/docs/notifications/"@ + notification_id@,
{
    let mut path = string_of("/api/docs/notifications/");
    append_str(&mut path, notification_id);
    Endpoint { method: Method::Put, path }
}

/// `POST /api/docs/notifications/mark-all-read`.
pub fn mark_all_read() -> (r: Endpoint)
    ensures
        r.method == Method::Post,
        r.path@ == "/api/docs/notifications/mark-all-read"@,
{
    let path = string_of("/api/docs/notifications/mark-all-read");
    Endpoint { method: Method::Post, path }
}

/// `DELETE /api/docs/notifications/{notification_id}`.
pub fn delete_notification(notification_id: &str) -> (r: Endpoint)
    ensures
        r.method == Method::Delete,
        r.path@ == "/api/docs/notifications/"@ + notification_id@,
{
    let mut path = string_of("/api/docs/notifications/");
    append_str(&mut path, notification_id);
    Endpoint { method: Method::Delete, path }
}

// ---------------------------------------------------------------------------
// Publications
// ---------------------------------------------------------------------------

/// `GET /api/docs/publications/spaces/{space_id}/publications`.
pub fn list_publications(space_id: &str) -> (r: Endpoint)
    ensures
        r.method == Method::Get,
        r.path@ == "/api/docs/publications/spaces/"@ + space_id@ + "/publications"@,
{
    let mut path = string_of("/api/docs/publications/spaces/");
    append_str(&mut path, space_id);
    append_str(&mut path, "/publications");
    Endpoint { method: Method::Get, path }
}

// ---------------------------------------------------------------------------
// Publishing
// ---------------------------------------------------------------------------

/// `GET /api/docs/publish/seo/{space_slug}`.
pub fn get_seo_metadata(space_slug: &str) -> (r: Endpoint)
    ensures
        r.method == Method::Get,
        r.path@ == "/api/docs/publish/seo/"@ + space_slug@,
{
    let mut path = string_of("/api/docs/publish/seo/");
    append_str(&mut path, space_slug);
    Endpoint { method: Method::Get, path }
}

/// `PUT /api/docs/publish/seo/{space_slug}`.
pub fn update_seo_metadata(space_slug: &str) -> (r: Endpoint)
    ensures
        r.method == Method::Put,
        r.path@ == "/api/docs/publish/seo/"@ + space_slug@,
{
    let mut path = string_of("/api/docs/publish/seo/");
    append_str(&mut path, space_slug);
    Endpoint { method: Method::Put, path }
}

/// `POST /api/docs/publish/seo/{space_slug}/analyze`.
pub fn ai_analyze_seo(space_slug: &str) -> (r: Endpoint)
    ensures
        r.method == Method::Post,
        r.path@ == "/api/docs/publish/seo/"@ + space_slug@ + "/analyze"@,
{
    let mut path = string_of("/api/docs/publish/seo/");
    append_str(&mut path, space_slug);
    append_str(&mut path, "/analyze");
    Endpoint { method: Method::Post, path }
}

/// `GET /api/docs/publish/targets`.
pub fn list_publish_targets() -> (r: Endpoint)
    ensures
        r.method == Method::Get,
        r.path@ == "/api/docs/publish/targets"@,
{
    let path = string_of("/api/docs/publish/targets");
    Endpoint { method: Method::Get, path }
}

/// `POST /api/docs/publish/targets/{target_id}/publish`.
pub fn trigger_publish(target_id: &str) -> (r: Endpoint)
    ensures
        r.method == Method::Post,
        r.path@ == "/api/docs/publish/targets/"@ + target_id@ + "/publish"@,
{
    let mut path = string_of("/api/docs/publish/targets/");
    append_str(&mut path, target_id);
    append_str(&mut path, "/publish");
    Endpoint { method: Method::Post, path }
}

/// `GET /api/docs/publish/history`.
pub fn list_release_history() -> (r: Endpoint)
    ensures
        r.method == Method::Get,
        r.path@ == "/api/docs/publish/history"@,
{
    let path = string_of("/api/docs/publish/history");
    Endpoint { method: Method::Get, path }
}

// ---------------------------------------------------------------------------
// Settings
// ---------------------------------------------------------------------------

/// `GET /api/docs/settings`.
pub fn get_settings() -> (r: Endpoint)
    ensures
        r.method == Method::Get,
        r.path@ == "/api/docs/settings"@,
{
    let path = string_of("/api/docs/settings");
    Endpoint { method: Method::Get, path }
}

/// `PUT /api/docs/settings/general`.
pub fn update_general() -> (r: Endpoint)
    ensures
        r.method == Method::Put,
        r.path@ == "/api/docs/settings/general"@,
{
    let path = string_of("/api/docs/settings/general");
    Endpoint { method: Method::Put, path }
}

/// `PUT /api/docs/settings/ai`.
pub fn update_ai() -> (r: Endpoint)
    ensures
        r.method == Method::Put,
        r.path@ == "/api/docs/settings/ai"@,
{
    let path = string_of("/api/docs/settings/ai");
    Endpoint { method: Method::Put, path }
}

/// `PUT /api/docs/settings/notifications`.
pub fn update_notifications() -> (r: Endpoint)
    ensures
        r.method == Method::Put,
        r.path@ == "/api/docs/settings/notifications"@,
{
    let path = string_of("/api/docs/settings/notifications");
    Endpoint { method: Method::Put, path }
}

/// `PUT /api/docs/settings/security`.
pub fn update_security() -> (r: Endpoint)
    ensures
        r.method == Method::Put,
        r.path@ == "/api/docs/settings/security"@,
{
    let path = string_of("/api/docs/settings/security");
    Endpoint { method: Method::Put, path }
}

/// `PUT /api/docs/settings/appearance`.
pub fn update_appearance() -> (r: Endpoint)
    ensures
        r.method == Method::Put,
        r.path@ == "/api/docs/settings/appearance"@,
{
    let path = string_of("/api/docs/settings/appearance");
    Endpoint { method: Method::Put, path }
}

// ---------------------------------------------------------------------------
// Spaces
// ---------------------------------------------------------------------------

/// `GET /api/docs/spaces?page={page}&limit={page_size}`.
pub fn list_spaces(page: u32, page_size: u32) -> (r: Endpoint)
    ensures
        r.method == Method::Get,
        r.path@ == "/api/docs/spaces?page="@ + decimal(page as nat) + "&limit="@ + decimal(page_size as nat),
{
    let mut path = string_of("/api/docs/spaces?page=");
    append_str(&mut path, u64_to_decimal(page as u64).as_str());
    append_str(&mut path, "&limit=");
    append_str(&mut path, u64_to_decimal(page_size as u64).as_str());
    Endpoint { method: Method::Get, path }
}

/// `POST /api/docs/spaces`.
pub fn create_space() -> (r: Endpoint)
    ensures
        r.method == Method::Post,
        r.path@ == "/api/docs/spaces"@,
{
    let path = string_of("/api/docs/spaces");
    Endpoint { method: Method::Post, path }
}

/// `GET /api/docs/spaces/{slug}`.
pub fn get_space(slug: &str) -> (r: Endpoint)
    ensures
        r.method == Method::Get,
        r.path@ == "/api/docs/spaces/"@ + slug@,
{
    let mut path = string_of("/api/docs/spaces/");
    append_str(&mut path, slug);
    Endpoint { method: Method::Get, path }
}

/// `PUT /api/docs/spaces/{slug}`.
pub fn update_space(slug: &str) -> (r: Endpoint)
    ensures
        r.method == Method::Put,
        r.path@ == "/api/docs/spaces/"@ + slug@,
{
    let mut path = string_of("/api/docs/spaces/");
    append_str(&mut path, slug);
    Endpoint { method: Method::Put, path }
}

/// `DELETE /api/docs/spaces/{slug}`.
pub fn delete_space(slug: &str) -> (r: Endpoint)
    ensures
        r.method == Method::Delete,
        r.path@ == "/api/docs/spaces/"@ + slug@,
{
    let mut path = string_of("/api/docs/spaces/");
    append_str(&mut path, slug);
    Endpoint { method: Method::Delete, path }
}

/// `GET /api/docs/spaces/{slug}/stats`.
pub fn get_space_stats(slug: &str) -> (r: Endpoint)
    ensures
        r.method == Method::Get,
        r.path@ == "/api/docs/spaces/"@ + slug@ + "/stats"@,
{
    let mut path = string_of("/api/docs/spaces/");
    append_str(&mut path, slug);
    append_str(&mut path, "/stats");
    Endpoint { method: Method::Get, path }
}

/// `GET /api/docs/spaces/{space_slug}/members`.
pub fn list_members(space_slug: &str) -> (r: Endpoint)
    ensures
        r.method == Method::Get,
        r.path@ == "/api/docs/spaces/"@ + space_slug@ + "/members"@,
{
    let mut path = string_of("/api/docs/spaces/");
    append_str(&mut path, space_slug);
    append_str(&mut path, "/members");
    Endpoint { method: Method::Get, path }
}

/// `POST /api/docs/spaces/{space_slug}/members`.
pub fn invite_member(space_slug: &str) -> (r: Endpoint)
    ensures
        r.method == Method::Post,
        r.path@ == "/api/docs/spaces/"@ + space_slug@ + "/members"@,
{
    let mut path = string_of("/api/docs/spaces/");
    append_str(&mut path, space_slug);
    append_str(&mut path, "/members");
    Endpoint { method: Method::Post, path }
}

// ---------------------------------------------------------------------------
// Statistics
// ---------------------------------------------------------------------------

/// `GET /api/docs/stats/overview`.
pub fn get_overview() -> (r: Endpoint)
    ensures
        r.method == Method::Get,
        r.path@ == "/api/docs/stats/overview"@,
{
    let path = string_of("/api/docs/stats/overview");
    Endpoint { method: Method::Get, path }
}

// ---------------------------------------------------------------------------
// Tags
// ---------------------------------------------------------------------------

/// `POST /api/docs/tags`.
pub fn create_tag() -> (r: Endpoint)
    ensures
        r.method == Method::Post,
        r.path@ == "/api/docs/tags"@,
{
    let path = string_of("/api/docs/tags");
    Endpoint { method: Method::Post, path }
}

/// `PUT /api/docs/tags/{tag_id}`.
pub fn update_tag(tag_id: &str) -> (r: Endpoint)
    ensures
        r.method == Method::Put,
        r.path@ == "/api/docs/tags/"@ + tag_id@,
{
    let mut path = string_of("/api/docs/tags/");
    append_str(&mut path, tag_id);
    Endpoint { method: Method::Put, path }
}

/// `DELETE /api/docs/tags/{tag_id}`.
pub fn delete_tag(tag_id: &str) -> (r: Endpoint)
    ensures
        r.method == Method::Delete,
        r.path@ == "/api/docs/tags/"@ + tag_id@,
{
    let mut path = string_of("/api/docs/tags/");
    append_str(&mut path, tag_id);
    Endpoint { method: Method::Delete, path }
}

// ---------------------------------------------------------------------------
// Templates
// ---------------------------------------------------------------------------

/// `GET /api/docs/templates`.
pub fn list_templates() -> (r: Endpoint)
    ensures
        r.method == Method::Get,
        r.path@ == "/api/docs/templates"@,
{
    let path = string_of("/api/docs/templates");
    Endpoint { method: Method::Get, path }
}

/// `GET /api/docs/templates/{id}`.
pub fn get_template(id: &str) -> (r: Endpoint)
    ensures
        r.method == Method::Get,
        r.path@ == "/api/docs/templates/"@ + id@,
{
    let mut path = string_of("/api/docs/templates/");
    append_str(&mut path, id);
    Endpoint { method: Method::Get, path }
}

/// `POST /api/docs/templates`.
pub fn create_template() -> (r: Endpoint)
    ensures
        r.method == Method::Post,
        r.path@ == "/api/docs/templates"@,
{
    let path = string_of("/api/docs/templates");
    Endpoint { method: Method::Post, path }
}

/// `PUT /api/docs/templates/{id}`.
pub fn update_template(id: &str) -> (r: Endpoint)
    ensures
        r.method == Method::Put,
        r.path@ == "/api/docs/templates/"@ + id@,
{
    let mut path = string_of("/api/docs/templates/");
    append_str(&mut path, id);
    Endpoint { method: Method::Put, path }
}

/// `DELETE /api/docs/templates/{id}`.
pub fn delete_template(id: &str) -> (r: Endpoint)
    ensures
        r.method == Method::Delete,
        r.path@ == "/api/docs/templates/"@ + id@,
{
    let mut path = string_of("/api/docs/templates/");
    append_str(&mut path, id);
    Endpoint { method: Method::Delete, path }
}

// ---------------------------------------------------------------------------
// Tool configurations
// ---------------------------------------------------------------------------

/// `GET /api/docs/tool-configs`.
pub fn list_tool_configs() -> (r: Endpoint)
    ensures
        r.method == Method::Get,
        r.path@ == "/api/docs/tool-configs"@,
{
    let path = string_of("/api/docs/tool-configs");
    Endpoint { method: Method::Get, path }
}

/// `PUT /api/docs/tool-configs/{id}`.
pub fn update_tool_config(id: &str) -> (r: Endpoint)
    ensures
        r.method == Method::Put,
        r.path@ == "/api/docs/tool-configs/"@ + id@,
{
    let mut path = string_of("/api/docs/tool-configs/");
    append_str(&mut path, id);
    Endpoint { method: Method::Put, path }
}

/// `POST /api/docs/tool-configs/{id}/test`.
pub fn test_tool_config(id: &str) -> (r: Endpoint)
    ensures
        r.method == Method::Post,
        r.path@ == "/api/docs/tool-configs/"@ + id@ + "/test"@,
{
    let mut path = string_of("/api/docs/tool-configs/");
    append_str(&mut path, id);
    append_str(&mut path, "/test");
    Endpoint { method: Method::Post, path }
}

// ---------------------------------------------------------------------------
// Versions
// ---------------------------------------------------------------------------

/// `GET /api/docs/versions/{document_id}/versions?page={page}&per_page={per_page}`.
pub fn list_versions(document_id: &str, page: u32, per_page: u32) -> (r: Endpoint)
    ensures
        r.method == Method::Get,
        r.path@ == "/api/docs/versions/"@ + document_id@ + "/versions?page="@ + decimal(page as nat) + "&per_page="@ + decimal(per_page as nat),
{
    let mut path = string_of("/api/docs/versions/");
    append_str(&mut path, document_id);
    append_str(&mut path, "/versions?page=");
    append_str(&mut path, u64_to_decimal(page as u64).as_str());
    append_str(&mut path, "&per_page=");
    append_str(&mut path, u64_to_decimal(per_page as u64).as_str());
    Endpoint { method: Method::Get, path }
}
} // verus!
