use soulbook::account::{login_result, user_from_data, UserData};
use soulbook::change_requests::{extract_id, ChangeRequest};
use soulbook::json::JsonValue;
use soulbook::pages::{
    avatar_initial, first_space, invite_request, new_document_request, should_log_out,
    space_key, status_badge, tree_badge, upload_script,
};
use soulbook::pages::{
    can_delete_tag, can_use_files, should_load_document, should_load_members, should_load_tree,
    Member,
};
use soulbook::records::{add_language_request, UnreadCountData};
use soulbook::spaces::{Space, SpaceListData};
use soulbook::tags::{new_tag_request, Tag};

fn space(id: Option<&str>, slug: &str) -> Space {
    Space {
        id: id.map(String::from),
        slug: slug.into(),
        name: slug.to_uppercase(),
        description: None,
        is_public: None,
        doc_count: None,
        member_count: None,
        tag_count: None,
        stats: None,
    }
}

fn list(spaces: Option<Vec<Space>>, items: Option<Vec<Space>>) -> SpaceListData {
    SpaceListData { spaces, items, total: None, page: None, page_size: None, limit: None }
}

#[test]
fn session_ends_only_on_refusal() {
    assert!(should_log_out("HTTP 401 Unauthorized"));
    assert!(should_log_out("403"));
    assert!(!should_log_out("network error: failed to fetch"));
    assert!(!should_log_out("500 Internal Server Error"));
}

#[test]
fn first_listed_space_is_selected() {
    let d = list(Some(vec![space(None, "a"), space(None, "b")]), Some(vec![space(None, "c")]));
    assert_eq!(first_space(&d).map(|s| s.slug.clone()), Some("a".to_string()));
    let e = list(None, Some(vec![space(None, "c")]));
    assert_eq!(first_space(&e).map(|s| s.slug.clone()), Some("c".to_string()));
    assert!(first_space(&list(Some(vec![]), Some(vec![space(None, "c")]))).is_none());
    assert!(first_space(&list(None, None)).is_none());
}

#[test]
fn file_page_keys_spaces_by_id_then_slug() {
    assert_eq!(space_key(&space(Some("space:1"), "kb")), "space:1");
    assert_eq!(space_key(&space(None, "kb")), "kb");
}

#[test]
fn status_badges() {
    assert_eq!(status_badge(Some("published")), ("badge badge-success", "已发布"));
    assert_eq!(status_badge(Some("review")), ("badge badge-warning", "审核中"));
    assert_eq!(status_badge(Some("draft")), ("badge badge-gray", "草稿"));
    assert_eq!(status_badge(None), ("badge badge-gray", "草稿"));
    assert_eq!(tree_badge(Some("published")), "已发布");
    assert_eq!(tree_badge(Some("review")), "审核中");
    assert_eq!(tree_badge(Some("archived")), "");
    assert_eq!(tree_badge(None), "");
}

#[test]
fn new_document_form() {
    let r = new_document_request("kb", "  Intro  ", " intro ").unwrap();
    assert_eq!((r.title.as_str(), r.slug.as_str()), ("Intro", "intro"));
    assert_eq!(r.status.as_deref(), Some("draft"));
    assert!(r.content.is_none() && r.parent_id.is_none());
    assert!(new_document_request("", "T", "t").is_none());
    assert!(new_document_request("kb", "   ", "t").is_none());
    assert!(new_document_request("kb", "T", "\t").is_none());
}

#[test]
fn invite_form() {
    let r = invite_request("kb", " a@b.c ", "editor").unwrap();
    assert_eq!(r.email.as_deref(), Some("a@b.c"));
    assert_eq!(r.role, "editor");
    assert!(r.message.is_none());
    assert!(invite_request("kb", "  ", "viewer").is_none());
    assert!(invite_request("", "a@b.c", "viewer").is_none());
}

#[test]
fn avatar_letters() {
    assert_eq!(avatar_initial(Some("alice"), Some("x@y")), "A");
    assert_eq!(avatar_initial(None, Some("bob@x")), "B");
    assert_eq!(avatar_initial(None, None), "?");
    assert_eq!(avatar_initial(Some(""), Some("z")), "?");
    assert_eq!(avatar_initial(Some("ßen"), None), "SS");
    assert_eq!(avatar_initial(Some("张三"), None), "张");
    assert_eq!(avatar_initial(Some("1a"), None), "1");
}

#[test]
fn upload_script_carries_space_and_token() {
    let js = upload_script("space:9", "SECRET-REDACTED");
    assert!(js.starts_with("(function(){"));
    assert!(js.ends_with("})();"));
    assert!(js.contains("form.append('space_id', 'space:9');"));
    assert!(js.contains("'Authorization': 'Bearer SECRET-REDACTED'"));
    assert!(js.contains("dioxus.send('done:'+ok+':'+fail);"));
}

#[test]
fn tag_form_and_display() {
    let r = new_tag_request("  docs ", "#ff0000", "  about docs ").unwrap();
    assert_eq!(r.name, "docs");
    assert_eq!(r.color.as_deref(), Some("#ff0000"));
    assert_eq!(r.description.as_deref(), Some("about docs"));
    assert!(r.space_id.is_none());
    let blank = new_tag_request("x", "#000000", "   ").unwrap();
    assert_eq!(blank.description.as_deref(), Some(""));
    assert!(new_tag_request("  ", "#000000", "d").is_none());
    let t = Tag { id: None, name: "n".into(), color: None, description: None, doc_count: None, space_id: None };
    assert_eq!(t.display_color(), "#6366f1");
    assert_eq!(t.display_doc_count(), 0);
    assert_eq!(t.display_id(), "");
    assert_eq!(t.display_description(), "");
    let u = Tag { id: Some("t1".into()), name: "n".into(), color: Some("#123456".into()), description: Some("d".into()), doc_count: Some(4), space_id: None };
    assert_eq!((u.display_color(), u.display_doc_count(), u.display_id(), u.display_description()), ("#123456".to_string(), 4, "t1".to_string(), "d".to_string()));
}

#[test]
fn change_request_ids() {
    let mut cr = ChangeRequest {
        id: Some(JsonValue::Str("cr1".into())),
        title: None, description: None, space_id: None, document_id: None, document_title: None,
        author_id: None, reviewer_id: None, status: None, diff_content: None, created_at: None, updated_at: None,
    };
    assert_eq!(extract_id(&cr), "cr1");
    cr.id = Some(JsonValue::Object(vec![
        ("tb".to_string(), JsonValue::Str("change_request".into())),
        ("id".to_string(), JsonValue::Str("abc".into())),
    ]));
    assert_eq!(extract_id(&cr), "abc");
    cr.id = Some(JsonValue::Object(vec![("id".to_string(), JsonValue::Number("7".into()))]));
    assert_eq!(extract_id(&cr), "");
    cr.id = Some(JsonValue::Number("7".into()));
    assert_eq!(extract_id(&cr), "");
    cr.id = None;
    assert_eq!(extract_id(&cr), "");
}

#[test]
fn account_records() {
    let data = UserData { id: "u1".into(), email: "a@b.c".into(), username: Some("ann".into()), avatar_url: None };
    let r = login_result("tok".into(), data.clone());
    assert_eq!(r.token, "tok");
    assert_eq!(r.user.id, "u1");
    assert_eq!(r.user.username.as_deref(), Some("ann"));
    assert!(r.user.display_name.is_none());
    let u = user_from_data(data);
    assert_eq!(u.email, "a@b.c");
}

#[test]
fn unread_counter_prefers_new_name() {
    assert_eq!(UnreadCountData { count: 3, unread_count: Some(5) }.unread(), 5);
    assert_eq!(UnreadCountData { count: 3, unread_count: None }.unread(), 3);
    let req = add_language_request("fr".into());
    assert_eq!(req.language_code, "fr");
    assert_eq!(req.is_default, Some(false));
}

#[test]
fn member_rows_and_guards() {
    let bare = Member { user_id: None, username: None, email: None, role: None, status: None, joined_at: None };
    assert_eq!(bare.display_username(), "-");
    assert_eq!(bare.display_email(), "-");
    assert_eq!(bare.display_role(), "-");
    assert_eq!(bare.display_status(), "active");
    assert_eq!(bare.display_joined_at(), "-");
    assert_eq!(bare.avatar(), "?");
    let full = Member {
        user_id: Some("u".into()),
        username: Some("zoe".into()),
        email: Some("z@x".into()),
        role: Some("admin".into()),
        status: Some("invited".into()),
        joined_at: Some("2024-01-01".into()),
    };
    assert_eq!(full.display_username(), "zoe");
    assert_eq!(full.display_email(), "z@x");
    assert_eq!(full.display_role(), "admin");
    assert_eq!(full.display_status(), "invited");
    assert_eq!(full.display_joined_at(), "2024-01-01");
    assert_eq!(full.avatar(), "Z");
    let empty_name = Member { username: Some(String::new()), ..full.clone() };
    assert_eq!(empty_name.avatar(), "?");
    assert!(should_load_tree("kb") && !should_load_tree(""));
    assert!(should_load_document("kb", "d") && !should_load_document("kb", "") && !should_load_document("", "d"));
    assert!(should_load_members("kb") && !should_load_members(""));
    assert!(can_delete_tag("t1") && !can_delete_tag(""));
    assert!(can_use_files("s1") && !can_use_files(""));
}
