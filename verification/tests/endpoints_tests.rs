use soulbook::endpoints::{self, empty_body, publish_body, Method};
use soulbook::json::JsonValue;

fn check(e: endpoints::Endpoint, m: Method, p: &str) {
    assert_eq!(e.method, m);
    assert_eq!(e.path, p);
}

#[test]
fn account_endpoints() {
    check(endpoints::login(), Method::Post, "/api/auth/login");
    check(endpoints::register(), Method::Post, "/api/auth/register");
    check(endpoints::me(), Method::Get, "/api/auth/me");
    check(endpoints::update_profile(), Method::Put, "/api/auth/profile");
    check(endpoints::change_password(), Method::Post, "/api/auth/change-password");
}

#[test]
fn document_endpoints() {
    check(endpoints::list_documents("kb", 1, 20), Method::Get, "/api/docs/documents/kb?page=1&limit=20");
    check(endpoints::get_document_tree("kb"), Method::Get, "/api/docs/documents/kb/tree");
    check(endpoints::create_document("kb"), Method::Post, "/api/docs/documents/kb");
    check(endpoints::get_document("kb", "intro"), Method::Get, "/api/docs/documents/kb/intro");
    check(endpoints::update_document("kb", "intro"), Method::Put, "/api/docs/documents/kb/intro");
    check(endpoints::delete_document("kb", "intro"), Method::Delete, "/api/docs/documents/kb/intro");
}

#[test]
fn change_request_endpoints() {
    check(endpoints::list_crs(None, None), Method::Get, "/api/docs/change-requests?per_page=50");
    check(endpoints::list_crs(Some("open"), None), Method::Get, "/api/docs/change-requests?per_page=50&status=open");
    check(endpoints::list_crs(Some("open"), Some("s1")), Method::Get, "/api/docs/change-requests?per_page=50&status=open&space_id=s1");
    check(endpoints::list_crs(None, Some("s1")), Method::Get, "/api/docs/change-requests?per_page=50&space_id=s1");
    check(endpoints::create_cr(), Method::Post, "/api/docs/change-requests");
    check(endpoints::approve_cr("c1"), Method::Post, "/api/docs/change-requests/c1/approve");
    check(endpoints::reject_cr("c1"), Method::Post, "/api/docs/change-requests/c1/reject");
    check(endpoints::delete_cr("c1"), Method::Delete, "/api/docs/change-requests/c1");
}

#[test]
fn developer_and_sync_endpoints() {
    check(endpoints::list_api_keys(), Method::Get, "/api/docs/developer/api-keys");
    check(endpoints::create_api_key(), Method::Post, "/api/docs/developer/api-keys");
    check(endpoints::delete_api_key("k"), Method::Delete, "/api/docs/developer/api-keys/k");
    check(endpoints::list_webhooks(), Method::Get, "/api/docs/developer/webhooks");
    check(endpoints::create_webhook(), Method::Post, "/api/docs/developer/webhooks");
    check(endpoints::update_webhook("w"), Method::Put, "/api/docs/developer/webhooks/w");
    check(endpoints::delete_webhook("w"), Method::Delete, "/api/docs/developer/webhooks/w");
    check(endpoints::test_webhook("w"), Method::Post, "/api/docs/developer/webhooks/w/test");
    check(endpoints::list_ai_users(), Method::Get, "/api/docs/developer/ai-users");
    check(endpoints::get_manifest(), Method::Get, "/api/docs/developer/manifest");
    check(endpoints::list_repos(), Method::Get, "/api/docs/git-sync/repositories");
    check(endpoints::create_repo(), Method::Post, "/api/docs/git-sync/repositories");
    check(endpoints::update_repo("r"), Method::Put, "/api/docs/git-sync/repositories/r");
    check(endpoints::delete_repo("r"), Method::Delete, "/api/docs/git-sync/repositories/r");
    check(endpoints::trigger_sync("r"), Method::Post, "/api/docs/git-sync/repositories/r/sync");
    check(endpoints::sync_logs("r"), Method::Get, "/api/docs/git-sync/repositories/r/logs");
}

#[test]
fn file_language_notification_endpoints() {
    check(endpoints::list_files("s1"), Method::Get, "/api/docs/files?space_id=s1&per_page=50");
    check(endpoints::delete_file("f1"), Method::Delete, "/api/docs/files/f1");
    check(endpoints::list_space_languages("kb"), Method::Get, "/api/docs/language/spaces/kb/languages");
    check(endpoints::add_space_language("kb"), Method::Post, "/api/docs/language/spaces/kb/languages");
    check(endpoints::list_doc_languages("kb", "d"), Method::Get, "/api/docs/language/documents/kb/d/languages");
    check(endpoints::update_doc_language("kb", "d", "en"), Method::Put, "/api/docs/language/documents/kb/d/languages/en");
    check(endpoints::request_translation("kb", "d", "en"), Method::Post, "/api/docs/language/documents/kb/d/languages/en/translate");
    check(endpoints::list_notifications(2, 10), Method::Get, "/api/docs/notifications?page=2&limit=10");
    check(endpoints::get_unread_count(), Method::Get, "/api/docs/notifications/unread-count");
    check(endpoints::mark_as_read("n"), Method::Put, "/api/docs/notifications/n");
    check(endpoints::mark_all_read(), Method::Post, "/api/docs/notifications/mark-all-read");
    check(endpoints::delete_notification("n"), Method::Delete, "/api/docs/notifications/n");
    check(endpoints::list_publications("s1"), Method::Get, "/api/docs/publications/spaces/s1/publications");
}

#[test]
fn publish_settings_space_endpoints() {
    check(endpoints::get_seo_metadata("kb"), Method::Get, "/api/docs/publish/seo/kb");
    check(endpoints::update_seo_metadata("kb"), Method::Put, "/api/docs/publish/seo/kb");
    check(endpoints::ai_analyze_seo("kb"), Method::Post, "/api/docs/publish/seo/kb/analyze");
    check(endpoints::list_publish_targets(), Method::Get, "/api/docs/publish/targets");
    check(endpoints::trigger_publish("t"), Method::Post, "/api/docs/publish/targets/t/publish");
    check(endpoints::list_release_history(), Method::Get, "/api/docs/publish/history");
    check(endpoints::get_settings(), Method::Get, "/api/docs/settings");
    check(endpoints::update_general(), Method::Put, "/api/docs/settings/general");
    check(endpoints::update_ai(), Method::Put, "/api/docs/settings/ai");
    check(endpoints::update_notifications(), Method::Put, "/api/docs/settings/notifications");
    check(endpoints::update_security(), Method::Put, "/api/docs/settings/security");
    check(endpoints::update_appearance(), Method::Put, "/api/docs/settings/appearance");
    check(endpoints::list_spaces(1, 50), Method::Get, "/api/docs/spaces?page=1&limit=50");
    check(endpoints::create_space(), Method::Post, "/api/docs/spaces");
    check(endpoints::get_space("kb"), Method::Get, "/api/docs/spaces/kb");
    check(endpoints::update_space("kb"), Method::Put, "/api/docs/spaces/kb");
    check(endpoints::delete_space("kb"), Method::Delete, "/api/docs/spaces/kb");
    check(endpoints::get_space_stats("kb"), Method::Get, "/api/docs/spaces/kb/stats");
    check(endpoints::get_overview(), Method::Get, "/api/docs/stats/overview");
}

#[test]
fn tag_template_tool_version_endpoints() {
    check(endpoints::list_tags(None, 1, 100), Method::Get, "/api/docs/tags?page=1&per_page=100");
    check(endpoints::list_tags(Some("s1"), 3, 5), Method::Get, "/api/docs/tags?page=3&per_page=5&space_id=s1");
    check(endpoints::create_tag(), Method::Post, "/api/docs/tags");
    check(endpoints::update_tag("t"), Method::Put, "/api/docs/tags/t");
    check(endpoints::delete_tag("t"), Method::Delete, "/api/docs/tags/t");
    check(endpoints::get_popular_tags(None, 10), Method::Get, "/api/docs/tags/popular?limit=10");
    check(endpoints::get_popular_tags(Some("s"), 10), Method::Get, "/api/docs/tags/popular?limit=10&space_id=s");
    check(endpoints::list_templates(), Method::Get, "/api/docs/templates");
    check(endpoints::get_template("x"), Method::Get, "/api/docs/templates/x");
    check(endpoints::create_template(), Method::Post, "/api/docs/templates");
    check(endpoints::update_template("x"), Method::Put, "/api/docs/templates/x");
    check(endpoints::delete_template("x"), Method::Delete, "/api/docs/templates/x");
    check(endpoints::use_template("doc_template:abc"), Method::Post, "/api/docs/templates/abc/use");
    check(endpoints::use_template("doc_template:doc_template:abc"), Method::Post, "/api/docs/templates/abc/use");
    check(endpoints::use_template("abc"), Method::Post, "/api/docs/templates/abc/use");
    check(endpoints::list_tool_configs(), Method::Get, "/api/docs/tool-configs");
    check(endpoints::update_tool_config("c"), Method::Put, "/api/docs/tool-configs/c");
    check(endpoints::test_tool_config("c"), Method::Post, "/api/docs/tool-configs/c/test");
    check(endpoints::list_versions("d1", 1, 20), Method::Get, "/api/docs/versions/d1/versions?page=1&per_page=20");
}

#[test]
fn search_endpoints_encode_the_query() {
    check(endpoints::search("a b&c", 1, 10), Method::Get, "/api/docs/search?q=a%20b%26c&page=1&per_page=10");
    check(endpoints::suggest("文档"), Method::Get, "/api/docs/search/suggest?q=%E6%96%87%E6%A1%A3");
}

#[test]
fn composed_bodies() {
    assert_eq!(empty_body(), JsonValue::Object(vec![]));
    assert_eq!(
        publish_body("1.2.0"),
        JsonValue::Object(vec![("version".to_string(), JsonValue::Str("1.2.0".into()))])
    );
}
