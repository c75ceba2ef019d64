//! Documents: the records that the server returns, how the client fills in
//! what an older server leaves out, and the body of a document update.
use vstd::prelude::*;

use crate::json::{Json, JsonValue};
use crate::text::{str_equal, string_of};

verus! {

/// The text of an optional string.
pub open spec fn opt_text(o: Option<String>) -> Option<Seq<char>> {
    match o {
        Some(s) => Some(s@),
        None => None,
    }
}

/// The texts of an optional list of strings.
pub open spec fn opt_texts(o: Option<Vec<String>>) -> Option<Seq<Seq<char>>> {
    match o {
        Some(v) => Some(v.deep_view()),
        None => None,
    }
}

/// The `metadata` member of a document.
#[derive(Debug, Clone, PartialEq)]
pub struct DocumentMetadata {
    pub tags: Vec<String>,
}

/// A document as the server describes it.
#[derive(Debug, Clone, PartialEq)]
pub struct Document {
    pub id: Option<String>,
    pub title: String,
    pub slug: String,
    pub content: Option<String>,
    pub status: Option<String>,
    pub is_public: Option<bool>,
    pub tags: Option<Vec<String>>,
    pub metadata: Option<DocumentMetadata>,
    pub updated_at: Option<String>,
}

/// The content of a [`Document`].
pub ghost struct DocumentModel {
    pub id: Option<Seq<char>>,
    pub title: Seq<char>,
    pub slug: Seq<char>,
    pub content: Option<Seq<char>>,
    pub status: Option<Seq<char>>,
    pub is_public: Option<bool>,
    pub tags: Option<Seq<Seq<char>>>,
    pub metadata_tags: Option<Seq<Seq<char>>>,
    pub updated_at: Option<Seq<char>>,
}

impl View for Document {
    type V = DocumentModel;

    open spec fn view(&self) -> DocumentModel {
        DocumentModel {
            id: opt_text(self.id),
            title: self.title@,
            slug: self.slug@,
            content: opt_text(self.content),
            status: opt_text(self.status),
            is_public: self.is_public,
            tags: opt_texts(self.tags),
            metadata_tags: match self.metadata {
                Some(m) => Some(m.tags.deep_view()),
                None => None,
            },
            updated_at: opt_text(self.updated_at),
        }
    }
}

/// The status that a document without one is shown with: `published` when
/// it is public, `draft` otherwise.
pub open spec fn default_status(is_public: Option<bool>) -> Seq<char> {
    if is_public == Some(true) {
        "published"@
    } else {
        "draft"@
    }
}

/// A document with its status and tags filled in: a missing status follows
/// `is_public`, and missing tags are taken from the metadata when it has any.
pub open spec fn normalized_document(d: DocumentModel) -> DocumentModel {
    DocumentModel {
        status: match d.status {
            Some(s) => Some(s),
            None => Some(default_status(d.is_public)),
        },
        tags: match d.tags {
            Some(t) => Some(t),
            None => d.metadata_tags,
        },
        ..d
    }
}

/// Fills in a document's status and tags where the server left them out.
pub fn normalize_document(doc: Document) -> (r: Document)
    ensures
        r@ == normalized_document(doc@),
        doc@.tags is None ==> r@.tags == doc@.metadata_tags,
        doc@.tags is Some ==> r@.tags == doc@.tags,
        doc@.status is Some ==> r@.status == doc@.status,
        doc@.status is None && doc@.is_public == Some(true) ==> r@.status == Some("published"@),
        doc@.status is None && doc@.is_public != Some(true) ==> r@.status == Some("draft"@),
        r@.id == doc@.id && r@.title == doc@.title && r@.slug == doc@.slug && r@.content
            == doc@.content && r@.is_public == doc@.is_public && r@.metadata_tags
            == doc@.metadata_tags && r@.updated_at == doc@.updated_at,
{
    let mut doc = doc;
    if doc.status.is_none() {
        let public = match doc.is_public {
            Some(b) => b,
            None => false,
        };
        doc.status = Some(
            if public {
                string_of("published")
            } else {
                string_of("draft")
            },
        );
    }
    if doc.tags.is_none() {
        match &doc.metadata {
            Some(metadata) => {
                let tags = metadata.tags.clone();
                proof {
                    vstd::std_specs::vec::vec_clone_deep_view_proof(metadata.tags, tags);
                }
                doc.tags = Some(tags);
            },
            None => {},
        }
    }
    doc
}

/// What normalizing fills in: tags the server left out are the metadata's
/// tags, whatever the status; a missing status is `published` for a public
/// document and `draft` otherwise; everything else is kept as sent.
pub proof fn lemma_normalize_document_fills_gaps(d: DocumentModel)
    ensures
        d.tags is None ==> normalized_document(d).tags == d.metadata_tags,
        d.tags is None && d.metadata_tags is Some ==> normalized_document(d).tags is Some,
        d.status is None && d.is_public == Some(true) ==> normalized_document(d).status == Some(
            "published"@,
        ),
        d.status is None && d.is_public != Some(true) ==> normalized_document(d).status == Some(
            "draft"@,
        ),
        normalized_document(d).id == d.id && normalized_document(d).content == d.content
            && normalized_document(d).is_public == d.is_public
            && normalized_document(d).metadata_tags == d.metadata_tags
            && normalized_document(d).updated_at == d.updated_at,
{
}

/// Normalizing a document twice is normalizing it once.
pub proof fn lemma_normalize_document_idempotent(d: DocumentModel)
    ensures
        normalized_document(normalized_document(d)) == normalized_document(d),
{
}

/// Normalizing never changes a status or tags that the server sent, and
/// always leaves a status.
pub proof fn lemma_normalize_document_keeps_sent(d: DocumentModel)
    ensures
        d.status is Some ==> normalized_document(d).status == d.status,
        d.tags is Some ==> normalized_document(d).tags == d.tags,
        normalized_document(d).status is Some,
        normalized_document(d).title == d.title && normalized_document(d).slug == d.slug,
{
}

/// The contents of a list of documents.
pub open spec fn documents_view(docs: Seq<Document>) -> Seq<DocumentModel> {
    docs.map_values(|d: Document| d@)
}

/// Each document of a list, normalized.
pub open spec fn normalized_documents(docs: Seq<DocumentModel>) -> Seq<DocumentModel> {
    docs.map_values(|d: DocumentModel| normalized_document(d))
}

/// Normalizes every document of a list, keeping their order.
pub fn normalize_documents(docs: Vec<Document>) -> (r: Vec<Document>)
    ensures
        documents_view(r@) == normalized_documents(documents_view(docs@)),
{
    let ghost input = docs@;
    let mut out: Vec<Document> = Vec::new();
    for d in it: docs.into_iter()
        invariant
            it.seq() == input,
            out.len() == it.index(),
            forall|i: int| 0 <= i < out.len() ==> #[trigger] out[i]@ == normalized_document(
                input[i]@,
            ),
    {
        out.push(normalize_document(d));
    }
    assert(documents_view(out@) =~= normalized_documents(documents_view(input)));
    out
}

/// Normalizing a list of documents twice is normalizing it once.
pub proof fn lemma_normalize_documents_idempotent(docs: Seq<DocumentModel>)
    ensures
        normalized_documents(normalized_documents(docs)) == normalized_documents(docs),
{
    assert(normalized_documents(normalized_documents(docs)) =~= normalized_documents(docs));
}

/// A page of documents. Servers name the list either `documents` or `items`.
#[derive(Debug, Clone, PartialEq)]
pub struct DocumentListData {
    pub documents: Option<Vec<Document>>,
    pub items: Option<Vec<Document>>,
    pub total: Option<u64>,
}

/// The contents of an optional list of documents.
pub open spec fn opt_documents(o: Option<Vec<Document>>) -> Option<Seq<DocumentModel>> {
    match o {
        Some(v) => Some(documents_view(v@)),
        None => None,
    }
}

/// The contents of an optional list of documents, each normalized.
pub open spec fn opt_normalized(o: Option<Seq<DocumentModel>>) -> Option<Seq<DocumentModel>> {
    match o {
        Some(v) => Some(normalized_documents(v)),
        None => None,
    }
}

/// Normalizes every document of a page, under either name of the list.
pub fn normalize_document_list(data: DocumentListData) -> (r: DocumentListData)
    ensures
        opt_documents(r.documents) == opt_normalized(opt_documents(data.documents)),
        opt_documents(r.items) == opt_normalized(opt_documents(data.items)),
        r.total == data.total,
{
    let mut data = data;
    let documents = data.documents.take();
    match documents {
        Some(documents) => {
            data.documents = Some(normalize_documents(documents));
        },
        None => {},
    }
    let items = data.items.take();
    match items {
        Some(items) => {
            data.items = Some(normalize_documents(items));
        },
        None => {},
    }
    data
}

/// A node of a space's document tree.
#[derive(Debug, PartialEq)]
pub struct DocumentTreeNode {
    pub id: Option<String>,
    pub title: String,
    pub slug: String,
    pub status: Option<String>,
    pub children: Option<Vec<DocumentTreeNode>>,
}

/// The body of a request that creates a document.
#[derive(Debug, Clone, PartialEq)]
pub struct CreateDocumentRequest {
    pub title: String,
    pub slug: String,
    pub content: Option<String>,
    pub parent_id: Option<String>,
    pub status: Option<String>,
}

/// The changes of a document update; only the fields that are present are
/// sent.
#[derive(Debug, Clone, PartialEq)]
pub struct UpdateDocumentRequest {
    pub title: Option<String>,
    pub content: Option<String>,
    pub status: Option<String>,
    pub tags: Option<Vec<String>>,
}

/// A list of strings as a JSON array.
pub open spec fn json_texts(v: Seq<Seq<char>>) -> Seq<Json>
    decreases v.len(),
{
    if v.len() == 0 {
        Seq::empty()
    } else {
        json_texts(v.drop_last()).push(Json::Str(v.last()))
    }
}

/// The members of the JSON body of an update, in order: `title`, `content`,
/// then `is_public` (whether the status is `published`) and `status`, then
/// `metadata` holding the tags; each only where its field is present.
pub open spec fn update_members(
    title: Option<Seq<char>>,
    content: Option<Seq<char>>,
    status: Option<Seq<char>>,
    tags: Option<Seq<Seq<char>>>,
) -> Seq<(Seq<char>, Json)> {
    let a: Seq<(Seq<char>, Json)> = match title {
        Some(t) => seq![("title"@, Json::Str(t))],
        None => Seq::empty(),
    };
    let b: Seq<(Seq<char>, Json)> = match content {
        Some(c) => seq![("content"@, Json::Str(c))],
        None => Seq::empty(),
    };
    let c: Seq<(Seq<char>, Json)> = match status {
        Some(s) => seq![("is_public"@, Json::Bool(s == "published"@)), ("status"@, Json::Str(s))],
        None => Seq::empty(),
    };
    let d: Seq<(Seq<char>, Json)> = match tags {
        Some(t) => seq![("metadata"@, Json::Object(seq![("tags"@, Json::Array(json_texts(t)))]))],
        None => Seq::empty(),
    };
    a + b + c + d
}

/// The number of members that the body of an update has.
pub open spec fn update_field_count(
    title: Option<Seq<char>>,
    content: Option<Seq<char>>,
    status: Option<Seq<char>>,
    tags: Option<Seq<Seq<char>>>,
) -> nat {
    (if title is Some { 1nat } else { 0nat }) + (if content is Some { 1nat } else { 0nat }) + (
    if status is Some {
        2nat
    } else {
        0nat
    }) + (if tags is Some { 1nat } else { 0nat })
}

fn json_string_array(v: &Vec<String>) -> (r: JsonValue)
    ensures
        r@ == Json::Array(json_texts(v.deep_view())),
{
    let mut out: Vec<JsonValue> = Vec::new();
    let mut k: usize = 0;
    while k < v.len()
        invariant
            k <= v.len(),
            crate::json::items_view(out@) == json_texts(v.deep_view().subrange(0, k as int)),
        decreases v.len() - k,
    {
        let ghost before = out@;
        out.push(JsonValue::Str(v[k].clone()));
        assert(out@.drop_last() =~= before);
        assert(out@.last()@ == Json::Str(v[k as int]@));
        assert(crate::json::items_view(out@) == crate::json::items_view(before).push(
            Json::Str(v[k as int]@),
        ));
        let ghost next = v.deep_view().subrange(0, k + 1);
        assert(next.drop_last() =~= v.deep_view().subrange(0, k as int));
        assert(next.last() == v[k as int]@);
        k = k + 1;
    }
    assert(v.deep_view().subrange(0, v.len() as int) =~= v.deep_view());
    JsonValue::Array(out)
}

fn member(key: &str, value: JsonValue) -> (r: (String, JsonValue))
    ensures
        r.0@ == key@,
        r.1@ == value@,
{
    (string_of(key), value)
}

fn push_member(members: &mut Vec<(String, JsonValue)>, m: (String, JsonValue))
    ensures
        crate::json::members_view(final(members)@) == crate::json::members_view(old(members)@)
            + seq![(m.0@, m.1@)],
{
    let ghost before = members@;
    members.push(m);
    assert(members@.drop_last() =~= before);
    assert(crate::json::members_view(before) + seq![(m.0@, m.1@)] =~= crate::json::members_view(
        before,
    ).push((m.0@, m.1@)));
}

impl UpdateDocumentRequest {
    /// The number of members of this update's JSON body.
    pub fn field_count(&self) -> (n: usize)
        ensures
            n == update_field_count(
                opt_text(self.title),
                opt_text(self.content),
                opt_text(self.status),
                opt_texts(self.tags),
            ),
    {
        let mut n: usize = 0;
        if self.title.is_some() {
            n = n + 1;
        }
        if self.content.is_some() {
            n = n + 1;
        }
        if self.status.is_some() {
            n = n + 2;
        }
        if self.tags.is_some() {
            n = n + 1;
        }
        n
    }

    /// The JSON body of this update.
    pub fn to_json(&self) -> (r: JsonValue)
        ensures
            r@ == Json::Object(
                update_members(
                    opt_text(self.title),
                    opt_text(self.content),
                    opt_text(self.status),
                    opt_texts(self.tags),
                ),
            ),
            match opt_text(self.status) {
                Some(st) => crate::json::json_get(r@, "status"@) == Some(Json::Str(st))
                    && crate::json::json_get(r@, "is_public"@) == Some(
                    Json::Bool(st == "published"@),
                ),
                None => crate::json::json_get(r@, "status"@) is None && crate::json::json_get(
                    r@,
                    "is_public"@,
                ) is None,
            },
            match opt_text(self.title) {
                Some(t) => crate::json::json_get(r@, "title"@) == Some(Json::Str(t)),
                None => crate::json::json_get(r@, "title"@) is None,
            },
            match opt_text(self.content) {
                Some(c) => crate::json::json_get(r@, "content"@) == Some(Json::Str(c)),
                None => crate::json::json_get(r@, "content"@) is None,
            },
            match opt_texts(self.tags) {
                Some(t) => crate::json::json_get(r@, "metadata"@) == Some(
                    Json::Object(seq![("tags"@, Json::Array(json_texts(t)))]),
                ),
                None => crate::json::json_get(r@, "metadata"@) is None,
            },
    {
        proof {
            lemma_update_body_members(
                opt_text(self.title),
                opt_text(self.content),
                opt_text(self.status),
                opt_texts(self.tags),
            );
        }
        let mut members: Vec<(String, JsonValue)> = Vec::new();
        let ghost title = opt_text(self.title);
        let ghost content = opt_text(self.content);
        let ghost status = opt_text(self.status);
        let ghost tags = opt_texts(self.tags);
        let ghost expected: Seq<(Seq<char>, Json)> = Seq::empty();
        assert(crate::json::members_view(members@) =~= expected);
        match &self.title {
            Some(t) => {
                push_member(&mut members, member("title", JsonValue::Str(t.clone())));
                proof {
                    expected = expected + seq![("title"@, Json::Str(t@))];
                }
            },
            None => {},
        }
        match &self.content {
            Some(c) => {
                push_member(&mut members, member("content", JsonValue::Str(c.clone())));
                proof {
                    expected = expected + seq![("content"@, Json::Str(c@))];
                }
            },
            None => {},
        }
        match &self.status {
            Some(s) => {
                let published = str_equal(s.as_str(), "published");
                push_member(&mut members, member("is_public", JsonValue::Bool(published)));
                push_member(&mut members, member("status", JsonValue::Str(s.clone())));
                proof {
                    expected = expected + seq![
                        ("is_public"@, Json::Bool(s@ == "published"@)),
                        ("status"@, Json::Str(s@)),
                    ];
                }
            },
            None => {},
        }
        match &self.tags {
            Some(t) => {
                let mut inner: Vec<(String, JsonValue)> = Vec::new();
                assert(crate::json::members_view(inner@) =~= Seq::<(Seq<char>, Json)>::empty());
                push_member(&mut inner, member("tags", json_string_array(t)));
                let metadata = JsonValue::Object(inner);
                assert(metadata@ == Json::Object(
                    seq![("tags"@, Json::Array(json_texts(t.deep_view())))],
                ));
                push_member(&mut members, member("metadata", metadata));
                proof {
                    expected = expected + seq![
                        ("metadata"@, Json::Object(
                            seq![("tags"@, Json::Array(json_texts(t.deep_view())))],
                        )),
                    ];
                }
            },
            None => {},
        }
        assert(expected =~= update_members(title, content, status, tags));
        assert(crate::json::members_view(members@) == expected);
        let r = JsonValue::Object(members);
        assert(r@ == Json::Object(crate::json::members_view(members@)));
        r
    }
}

/// The body of an update has exactly as many members as it announces, and it
/// says the document is public exactly when its status is `published`.
pub proof fn lemma_update_body_shape(
    title: Option<Seq<char>>,
    content: Option<Seq<char>>,
    status: Option<Seq<char>>,
    tags: Option<Seq<Seq<char>>>,
)
    ensures
        update_members(title, content, status, tags).len() == update_field_count(
            title,
            content,
            status,
            tags,
        ),
        crate::json::lookup(update_members(title, content, status, tags), "is_public"@) == match status {
            Some(s) => Some(Json::Bool(s == "published"@)),
            None => None::<Json>,
        },
{
    reveal_strlit("title");
    reveal_strlit("content");
    reveal_strlit("is_public");
    reveal_strlit("metadata");
    let key = "is_public"@;
    assert("title"@ != key) by {
        assert("title"@.len() != key.len());
    }
    assert("content"@ != key) by {
        assert("content"@.len() != key.len());
    }
    assert("metadata"@ != key) by {
        assert("metadata"@.len() != key.len());
    }
    let a: Seq<(Seq<char>, Json)> = match title {
        Some(t) => seq![("title"@, Json::Str(t))],
        None => Seq::empty(),
    };
    let b: Seq<(Seq<char>, Json)> = match content {
        Some(c) => seq![("content"@, Json::Str(c))],
        None => Seq::empty(),
    };
    let c: Seq<(Seq<char>, Json)> = match status {
        Some(s) => seq![("is_public"@, Json::Bool(s == "published"@)), ("status"@, Json::Str(s))],
        None => Seq::empty(),
    };
    let d: Seq<(Seq<char>, Json)> = match tags {
        Some(t) => seq![("metadata"@, Json::Object(seq![("tags"@, Json::Array(json_texts(t)))]))],
        None => Seq::empty(),
    };
    assert(update_members(title, content, status, tags) =~= a + (b + (c + d)));
    lemma_lookup_skip(a, b + (c + d), key);
    lemma_lookup_skip(b, c + d, key);
    match status {
        Some(s) => {
            assert((c + d)[0] == ("is_public"@, Json::Bool(s == "published"@)));
        },
        None => {
            assert(c + d =~= d);
            lemma_lookup_skip(d, Seq::empty(), key);
            assert(d + Seq::<(Seq<char>, Json)>::empty() =~= d);
        },
    }
}

/// Looking a name up in two lists of members one after the other.
pub proof fn lemma_lookup_concat(x: Seq<(Seq<char>, Json)>, y: Seq<(Seq<char>, Json)>, key: Seq<char>)
    ensures
        crate::json::lookup(x + y, key) == match crate::json::lookup(x, key) {
            Some(v) => Some(v),
            None => crate::json::lookup(y, key),
        },
    decreases x.len(),
{
    if x.len() == 0 {
        assert(x + y =~= y);
    } else {
        assert((x + y)[0] == x[0]);
        assert((x + y).drop_first() =~= x.drop_first() + y);
        lemma_lookup_concat(x.drop_first(), y, key);
    }
}

/// Each field of an update is sent under its own name, unchanged: the title
/// as `title`, the content as `content`, the status as `status` together with
/// `is_public` (true exactly for `published`), the tags under
/// `metadata.tags`; a field that is absent is not sent.
pub proof fn lemma_update_body_members(
    title: Option<Seq<char>>,
    content: Option<Seq<char>>,
    status: Option<Seq<char>>,
    tags: Option<Seq<Seq<char>>>,
)
    ensures
        ({
            let m = update_members(title, content, status, tags);
            &&& crate::json::lookup(m, "title"@) == match title {
                Some(t) => Some(Json::Str(t)),
                None => None::<Json>,
            }
            &&& crate::json::lookup(m, "content"@) == match content {
                Some(c) => Some(Json::Str(c)),
                None => None::<Json>,
            }
            &&& crate::json::lookup(m, "status"@) == match status {
                Some(s) => Some(Json::Str(s)),
                None => None::<Json>,
            }
            &&& crate::json::lookup(m, "is_public"@) == match status {
                Some(s) => Some(Json::Bool(s == "published"@)),
                None => None::<Json>,
            }
            &&& crate::json::lookup(m, "metadata"@) == match tags {
                Some(t) => Some(Json::Object(seq![("tags"@, Json::Array(json_texts(t)))])),
                None => None::<Json>,
            }
        }),
{
    reveal_strlit("title");
    reveal_strlit("content");
    reveal_strlit("is_public");
    reveal_strlit("status");
    reveal_strlit("metadata");
    let keys = seq!["title"@, "content"@, "is_public"@, "status"@, "metadata"@];
    assert forall|i: int, j: int| 0 <= i < 5 && 0 <= j < 5 && i != j implies keys[i] != keys[j] by {
        assert(keys[i].len() != keys[j].len());
    }
    let a: Seq<(Seq<char>, Json)> = match title {
        Some(t) => seq![("title"@, Json::Str(t))],
        None => Seq::empty(),
    };
    let b: Seq<(Seq<char>, Json)> = match content {
        Some(c) => seq![("content"@, Json::Str(c))],
        None => Seq::empty(),
    };
    let c: Seq<(Seq<char>, Json)> = match status {
        Some(s) => seq![("is_public"@, Json::Bool(s == "published"@)), ("status"@, Json::Str(s))],
        None => Seq::empty(),
    };
    let d: Seq<(Seq<char>, Json)> = match tags {
        Some(t) => seq![("metadata"@, Json::Object(seq![("tags"@, Json::Array(json_texts(t)))]))],
        None => Seq::empty(),
    };
    assert(update_members(title, content, status, tags) =~= a + (b + (c + d)));
    assert(keys[0] == "title"@ && keys[1] == "content"@ && keys[2] == "is_public"@ && keys[3]
        == "status"@ && keys[4] == "metadata"@);
    lemma_lookup_concat(a, b + (c + d), "title"@);
    lemma_lookup_concat(b, c + d, "title"@);
    lemma_lookup_concat(c, d, "title"@);
    lemma_lookup_concat(a, b + (c + d), "content"@);
    lemma_lookup_concat(b, c + d, "content"@);
    lemma_lookup_concat(c, d, "content"@);
    lemma_lookup_concat(a, b + (c + d), "is_public"@);
    lemma_lookup_concat(b, c + d, "is_public"@);
    lemma_lookup_concat(c, d, "is_public"@);
    lemma_lookup_concat(a, b + (c + d), "status"@);
    lemma_lookup_concat(b, c + d, "status"@);
    lemma_lookup_concat(c, d, "status"@);
    lemma_lookup_concat(a, b + (c + d), "metadata"@);
    lemma_lookup_concat(b, c + d, "metadata"@);
    lemma_lookup_concat(c, d, "metadata"@);
    lemma_small_lookups(a, "title"@);
    lemma_small_lookups(a, "content"@);
    lemma_small_lookups(a, "is_public"@);
    lemma_small_lookups(a, "status"@);
    lemma_small_lookups(a, "metadata"@);
    lemma_small_lookups(b, "title"@);
    lemma_small_lookups(b, "content"@);
    lemma_small_lookups(b, "is_public"@);
    lemma_small_lookups(b, "status"@);
    lemma_small_lookups(b, "metadata"@);
    lemma_small_lookups(c, "title"@);
    lemma_small_lookups(c, "content"@);
    lemma_small_lookups(c, "is_public"@);
    lemma_small_lookups(c, "status"@);
    lemma_small_lookups(c, "metadata"@);
    lemma_small_lookups(d, "title"@);
    lemma_small_lookups(d, "content"@);
    lemma_small_lookups(d, "is_public"@);
    lemma_small_lookups(d, "status"@);
    lemma_small_lookups(d, "metadata"@);
}

proof fn lemma_small_lookups(m: Seq<(Seq<char>, Json)>, key: Seq<char>)
    requires
        m.len() <= 2,
    ensures
        crate::json::lookup(m, key) == if m.len() > 0 && m[0].0 == key {
            Some(m[0].1)
        } else if m.len() > 1 && m[1].0 == key {
            Some(m[1].1)
        } else {
            None::<Json>
        },
{
    let r1 = m.drop_first();
    let r2 = r1.drop_first();
    if m.len() > 1 {
        assert(r1[0] == m[1]);
        assert(r2.len() == 0);
        assert(crate::json::lookup(r2, key) is None);
        assert(crate::json::lookup(r1, key) == if r1[0].0 == key {
            Some(r1[0].1)
        } else {
            crate::json::lookup(r2, key)
        });
    } else if m.len() == 1 {
        assert(r1.len() == 0);
        assert(crate::json::lookup(r1, key) is None);
    }
}

proof fn lemma_lookup_skip(front: Seq<(Seq<char>, Json)>, rest: Seq<(Seq<char>, Json)>, key: Seq<char>)
    requires
        forall|i: int| 0 <= i < front.len() ==> (#[trigger] front[i]).0 != key,
    ensures
        crate::json::lookup(front + rest, key) == crate::json::lookup(rest, key),
    decreases front.len(),
{
    if front.len() > 0 {
        assert((front + rest)[0] == front[0]);
        assert((front + rest).drop_first() =~= front.drop_first() + rest);
        lemma_lookup_skip(front.drop_first(), rest, key);
    } else {
        assert(front + rest =~= rest);
    }
}

} // verus!
