use soulbook::documents::{
    normalize_document, normalize_document_list, Document, DocumentListData, DocumentMetadata,
    UpdateDocumentRequest,
};
use soulbook::json::JsonValue;

fn doc(status: Option<&str>, is_public: Option<bool>, tags: Option<Vec<&str>>, meta: Option<Vec<&str>>) -> Document {
    Document {
        id: Some("d1".into()),
        title: "Title".into(),
        slug: "title".into(),
        content: None,
        status: status.map(|s| s.to_string()),
        is_public,
        tags: tags.map(|t| t.into_iter().map(String::from).collect()),
        metadata: meta.map(|t| DocumentMetadata { tags: t.into_iter().map(String::from).collect() }),
        updated_at: None,
    }
}

#[test]
fn missing_status_follows_visibility() {
    assert_eq!(normalize_document(doc(None, Some(true), None, None)).status.as_deref(), Some("published"));
    assert_eq!(normalize_document(doc(None, Some(false), None, None)).status.as_deref(), Some("draft"));
    assert_eq!(normalize_document(doc(None, None, None, None)).status.as_deref(), Some("draft"));
}

#[test]
fn sent_status_and_tags_are_kept() {
    let d = normalize_document(doc(Some("review"), Some(true), Some(vec!["a"]), Some(vec!["b"])));
    assert_eq!(d.status.as_deref(), Some("review"));
    assert_eq!(d.tags, Some(vec!["a".to_string()]));
}

#[test]
fn missing_tags_come_from_metadata() {
    let d = normalize_document(doc(None, None, None, Some(vec!["x", "y"])));
    assert_eq!(d.tags, Some(vec!["x".to_string(), "y".to_string()]));
    let e = normalize_document(doc(None, None, None, None));
    assert_eq!(e.tags, None);
}

#[test]
fn normalizing_document_twice_is_once() {
    let once = normalize_document(doc(None, Some(true), None, Some(vec!["t"])));
    let twice = normalize_document(once.clone());
    assert_eq!(once, twice);
}

#[test]
fn list_is_normalized_under_both_names() {
    let data = DocumentListData {
        documents: Some(vec![doc(None, Some(true), None, None), doc(Some("review"), None, None, None)]),
        items: Some(vec![doc(None, None, None, Some(vec!["m"]))]),
        total: Some(3),
    };
    let r = normalize_document_list(data);
    let docs = r.documents.unwrap();
    assert_eq!(docs.len(), 2);
    assert_eq!(docs[0].status.as_deref(), Some("published"));
    assert_eq!(docs[1].status.as_deref(), Some("review"));
    let items = r.items.unwrap();
    assert_eq!(items[0].tags, Some(vec!["m".to_string()]));
    assert_eq!(r.total, Some(3));
    let empty = normalize_document_list(DocumentListData { documents: None, items: None, total: None });
    assert!(empty.documents.is_none() && empty.items.is_none());
}

fn member(k: &str, v: JsonValue) -> (String, JsonValue) {
    (k.to_string(), v)
}

#[test]
fn update_body_has_only_present_fields() {
    let req = UpdateDocumentRequest {
        title: Some("T".into()),
        content: None,
        status: Some("published".into()),
        tags: Some(vec!["a".into(), "b".into()]),
    };
    let body = req.to_json();
    let expected = JsonValue::Object(vec![
        member("title", JsonValue::Str("T".into())),
        member("is_public", JsonValue::Bool(true)),
        member("status", JsonValue::Str("published".into())),
        member(
            "metadata",
            JsonValue::Object(vec![member(
                "tags",
                JsonValue::Array(vec![JsonValue::Str("a".into()), JsonValue::Str("b".into())]),
            )]),
        ),
    ]);
    assert_eq!(body, expected);
    assert_eq!(req.field_count(), 4);
}

#[test]
fn draft_update_is_not_public() {
    let req = UpdateDocumentRequest { title: None, content: Some("body".into()), status: Some("draft".into()), tags: None };
    let body = req.to_json();
    assert_eq!(body.get("is_public"), Some(&JsonValue::Bool(false)));
    assert_eq!(body.get("content"), Some(&JsonValue::Str("body".into())));
    assert_eq!(req.field_count(), 3);
    let none = UpdateDocumentRequest { title: None, content: None, status: None, tags: None };
    assert_eq!(none.to_json(), JsonValue::Object(vec![]));
    assert_eq!(none.field_count(), 0);
}
