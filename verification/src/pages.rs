//! The decisions that the pages make: which space is selected first, what a
//! status is shown as, when a form may be sent and what it sends, and what
//! the upload script is.
use vstd::prelude::*;

use crate::documents::{opt_text, CreateDocumentRequest};
use crate::tags::text_or;
use crate::spaces::{Space, SpaceListData, SpaceModel};
use crate::text::{append_str, contains, contains_spec, push_char, string_of, trim, trim_spec};

verus! {

// ---------------------------------------------------------------------------
// Session
// ---------------------------------------------------------------------------

/// Whether a failed profile request means that the session has ended: only
/// a refusal (401 or 403) signs the user out; an unreachable server does not.
pub fn should_log_out(error: &str) -> (r: bool)
    ensures
        r == (contains_spec(error@, "401"@) || contains_spec(error@, "403"@)),
{
    contains(error, "401") || contains(error, "403")
}

// ---------------------------------------------------------------------------
// Space selection
// ---------------------------------------------------------------------------

/// The spaces that a page lists: `spaces`, else `items`, else none.
pub open spec fn listed_spaces(data: SpaceListData) -> Seq<Space> {
    match data.spaces {
        Some(s) => s@,
        None => match data.items {
            Some(i) => i@,
            None => Seq::empty(),
        },
    }
}

/// The spaces that a page lists.
pub fn listed(data: &SpaceListData) -> (r: &[Space])
    ensures
        r@ == listed_spaces(*data),
{
    match &data.spaces {
        Some(s) => s.as_slice(),
        None => match &data.items {
            Some(i) => i.as_slice(),
            None => &[],
        },
    }
}

/// The space a page selects when nothing is selected yet: the first listed.
pub fn first_space(data: &SpaceListData) -> (r: Option<&Space>)
    ensures
        match r {
            Some(s) => listed_spaces(*data).len() > 0 && *s == listed_spaces(*data)[0],
            None => listed_spaces(*data).len() == 0,
        },
{
    let spaces = listed(data);
    if spaces.len() == 0 {
        None
    } else {
        Some(&spaces[0])
    }
}

/// The key by which the file page addresses a space: its id, else its slug.
pub open spec fn space_key_spec(s: SpaceModel) -> Seq<char> {
    match s.id {
        Some(id) => id,
        None => s.slug,
    }
}

/// The key by which the file page addresses a space: its id, else its slug.
pub fn space_key(space: &Space) -> (r: String)
    ensures
        r@ == space_key_spec(space@),
{
    match &space.id {
        Some(id) => id.clone(),
        None => space.slug.clone(),
    }
}

// ---------------------------------------------------------------------------
// Statuses
// ---------------------------------------------------------------------------

/// The badge class and label of a document status; a missing or unknown
/// status shows as a draft.
pub open spec fn status_badge_spec(status: Option<Seq<char>>) -> (Seq<char>, Seq<char>) {
    if status == Some("published"@) {
        ("badge badge-success"@, "已发布"@)
    } else if status == Some("review"@) {
        ("badge badge-warning"@, "审核中"@)
    } else {
        ("badge badge-gray"@, "草稿"@)
    }
}

/// The badge class and label of a document status.
pub fn status_badge(status: Option<&str>) -> (r: (&'static str, &'static str))
    ensures
        (r.0@, r.1@) == status_badge_spec(crate::endpoints::opt_str(status)),
{
    match status {
        Some(s) => {
            if crate::text::str_equal(s, "published") {
                ("badge badge-success", "已发布")
            } else if crate::text::str_equal(s, "review") {
                ("badge badge-warning", "审核中")
            } else {
                ("badge badge-gray", "草稿")
            }
        },
        None => ("badge badge-gray", "草稿"),
    }
}

/// The label that the document tree shows beside a node: only published and
/// reviewed documents are marked.
pub open spec fn tree_badge_spec(status: Option<Seq<char>>) -> Seq<char> {
    if status == Some("published"@) {
        "已发布"@
    } else if status == Some("review"@) {
        "审核中"@
    } else {
        ""@
    }
}

/// The label that the document tree shows beside a node.
pub fn tree_badge(status: Option<&str>) -> (r: &'static str)
    ensures
        r@ == tree_badge_spec(crate::endpoints::opt_str(status)),
{
    match status {
        Some(s) => {
            if crate::text::str_equal(s, "published") {
                "已发布"
            } else if crate::text::str_equal(s, "review") {
                "审核中"
            } else {
                ""
            }
        },
        None => "",
    }
}

// ---------------------------------------------------------------------------
// Forms
// ---------------------------------------------------------------------------

/// The request that the new-document form sends: the trimmed title and slug,
/// no content and no parent, as a draft. Nothing is sent without a selected
/// space, a title and a slug.
pub fn new_document_request(space: &str, title: &str, slug: &str) -> (r: Option<
    CreateDocumentRequest,
>)
    ensures
        r is None <==> (space@.len() == 0 || trim_spec(title@).len() == 0 || trim_spec(
            slug@,
        ).len() == 0),
        r matches Some(req) ==> {
            &&& req.title@ == trim_spec(title@)
            &&& req.slug@ == trim_spec(slug@)
            &&& req.content is None
            &&& req.parent_id is None
            &&& opt_text(req.status) == Some("draft"@)
        },
{
    let title = trim(title);
    let slug = trim(slug);
    if space.unicode_len() == 0 || title.as_str().unicode_len() == 0
        || slug.as_str().unicode_len() == 0 {
        return None;
    }
    Some(
        CreateDocumentRequest {
            title,
            slug,
            content: None,
            parent_id: None,
            status: Some(string_of("draft")),
        },
    )
}

/// A member of a space.
#[derive(Debug, Clone, PartialEq)]
pub struct Member {
    pub user_id: Option<String>,
    pub username: Option<String>,
    pub email: Option<String>,
    pub role: Option<String>,
    pub status: Option<String>,
    pub joined_at: Option<String>,
}

/// The body of an invitation to a space.
#[derive(Debug, Clone, PartialEq)]
pub struct InviteRequest {
    pub email: Option<String>,
    pub role: String,
    pub message: Option<String>,
}

/// The invitation that the invite form sends: the trimmed address with the
/// chosen role and no message. Nothing is sent without a selected space and
/// an address.
pub fn invite_request(space: &str, email: &str, role: &str) -> (r: Option<InviteRequest>)
    ensures
        r is None <==> (space@.len() == 0 || trim_spec(email@).len() == 0),
        r matches Some(req) ==> {
            &&& opt_text(req.email) == Some(trim_spec(email@))
            &&& req.role@ == role@
            &&& req.message is None
        },
{
    let email = trim(email);
    if space.unicode_len() == 0 || email.as_str().unicode_len() == 0 {
        return None;
    }
    Some(InviteRequest { email: Some(email), role: string_of(role), message: None })
}

/// Names what `char::to_uppercase` yields for a character: its upper-case
/// mapping in the Unicode character database (one to three characters).
pub uninterp spec fn unicode_uppercase(c: char) -> Seq<char>;

/// The upper-case form of an ASCII character.
pub open spec fn ascii_upper(c: char) -> char {
    if 'a' <= c && c <= 'z' {
        ((c as u32) - 32) as char
    } else {
        c
    }
}

/// Calls `char::to_uppercase` and collects what it yields. Its contract
/// claims the named Unicode mapping, and for ASCII characters only that a
/// lower-case letter becomes its capital and every other character stays.
#[verifier::external_body]
fn uppercase(c: char) -> (r: String)
    ensures
        r@ == unicode_uppercase(c),
        (c as u32) < 128 ==> r@ == seq![ascii_upper(c)],
{
    c.to_uppercase().collect::<String>()
}

/// The character that a member's avatar is made from: the first character
/// of the user name where there is one, else of the address; `?` where the
/// chosen text is empty or neither is given.
pub open spec fn avatar_char(username: Option<Seq<char>>, email: Option<Seq<char>>) -> char {
    let name = match username {
        Some(u) => Some(u),
        None => email,
    };
    match name {
        Some(n) => if n.len() > 0 {
            n[0]
        } else {
            '?'
        },
        None => '?',
    }
}

/// The letter shown in a member's avatar: the chosen character in upper case.
pub open spec fn avatar_initial_spec(username: Option<Seq<char>>, email: Option<Seq<char>>) -> Seq<
    char,
> {
    unicode_uppercase(avatar_char(username, email))
}

/// The letter shown in a member's avatar.
pub fn avatar_initial(username: Option<&str>, email: Option<&str>) -> (r: String)
    ensures
        r@ == avatar_initial_spec(
            crate::endpoints::opt_str(username),
            crate::endpoints::opt_str(email),
        ),
        (avatar_char(crate::endpoints::opt_str(username), crate::endpoints::opt_str(email)) as u32)
            < 128 ==> r@ == seq![
            ascii_upper(
                avatar_char(crate::endpoints::opt_str(username), crate::endpoints::opt_str(email)),
            ),
        ],
        avatar_char(crate::endpoints::opt_str(username), crate::endpoints::opt_str(email)) == '?'
            ==> r@ == seq!['?'],
{
    let name: Option<&str> = match username {
        Some(u) => Some(u),
        None => email,
    };
    let first = match name {
        Some(n) => if n.unicode_len() > 0 {
            n.get_char(0)
        } else {
            '?'
        },
        None => '?',
    };
    uppercase(first)
}

impl Member {
    /// The user name shown in the member list, `-` where there is none.
    pub fn display_username(&self) -> (r: String)
        ensures
            r@ == text_or(opt_text(self.username), "-"@),
    {
        crate::tags::text_or_default(&self.username, "-")
    }

    /// The address shown in the member list, `-` where there is none.
    pub fn display_email(&self) -> (r: String)
        ensures
            r@ == text_or(opt_text(self.email), "-"@),
    {
        crate::tags::text_or_default(&self.email, "-")
    }

    /// The role shown in the member list, `-` where there is none.
    pub fn display_role(&self) -> (r: String)
        ensures
            r@ == text_or(opt_text(self.role), "-"@),
    {
        crate::tags::text_or_default(&self.role, "-")
    }

    /// The status shown in the member list, `active` where there is none.
    pub fn display_status(&self) -> (r: String)
        ensures
            r@ == text_or(opt_text(self.status), "active"@),
    {
        crate::tags::text_or_default(&self.status, "active")
    }

    /// The joining date shown in the member list, `-` where there is none.
    pub fn display_joined_at(&self) -> (r: String)
        ensures
            r@ == text_or(opt_text(self.joined_at), "-"@),
    {
        crate::tags::text_or_default(&self.joined_at, "-")
    }

    /// The letter shown in this member's avatar.
    pub fn avatar(&self) -> (r: String)
        ensures
            r@ == avatar_initial_spec(opt_text(self.username), opt_text(self.email)),
            (avatar_char(opt_text(self.username), opt_text(self.email)) as u32) < 128 ==> r@
                == seq![ascii_upper(avatar_char(opt_text(self.username), opt_text(self.email)))],
            avatar_char(opt_text(self.username), opt_text(self.email)) == '?' ==> r@ == seq![
                '?',
            ],
    {
        let username: Option<&str> = match &self.username {
            Some(u) => Some(u.as_str()),
            None => None,
        };
        let email: Option<&str> = match &self.email {
            Some(e) => Some(e.as_str()),
            None => None,
        };
        avatar_initial(username, email)
    }
}

// ---------------------------------------------------------------------------
// Guards
// ---------------------------------------------------------------------------

/// Whether the document tree of the selected space is fetched: only once a
/// space is selected.
pub fn should_load_tree(space: &str) -> (r: bool)
    ensures
        r == (space@.len() > 0),
{
    space.unicode_len() > 0
}

/// Whether a document is fetched: only once both a space and a document are
/// selected.
pub fn should_load_document(space: &str, doc: &str) -> (r: bool)
    ensures
        r == (space@.len() > 0 && doc@.len() > 0),
{
    space.unicode_len() > 0 && doc.unicode_len() > 0
}

/// Whether the members of the selected space are fetched: only once a space
/// is selected; otherwise the page asks for one without a request.
pub fn should_load_members(space: &str) -> (r: bool)
    ensures
        r == (space@.len() > 0),
{
    space.unicode_len() > 0
}

/// Whether a tag may be deleted: only one that has an id.
pub fn can_delete_tag(id: &str) -> (r: bool)
    ensures
        r == (id@.len() > 0),
{
    id.unicode_len() > 0
}

/// Whether files can be listed or uploaded: only once a space is selected.
pub fn can_use_files(space_id: &str) -> (r: bool)
    ensures
        r == (space_id@.len() > 0),
{
    space_id.unicode_len() > 0
}

// ---------------------------------------------------------------------------
// Uploads
// ---------------------------------------------------------------------------

/// The upload script up to the space id.
pub const UPLOAD_SCRIPT_HEAD: &'static str = "(function(){\n  var inp = document.createElement('input');\n  inp.type = 'file';\n  inp.multiple = true;\n  inp.style.display = 'none';\n  document.body.appendChild(inp);\n  inp.onchange = async function() {\n    var files = inp.files;\n    if (!files || !files.length) { dioxus.send('cancel'); document.body.removeChild(inp); return; }\n    var ok = 0, fail = 0;\n    for (var i = 0; i < files.length; i++) {\n      var form = new FormData();\n      form.append('file', files[i]);\n      form.append('space_id', '";

/// The upload script between the space id and the session token.
pub const UPLOAD_SCRIPT_MIDDLE: &'static str = "');\n      try {\n        var r = await fetch('http://localhost:3001/api/docs/files', {\n          method: 'POST',\n          headers: {'Authorization': 'Bearer ";

/// The upload script after the session token.
pub const UPLOAD_SCRIPT_TAIL: &'static str = "'},\n          body: form\n        });\n        if (r.ok) ok++; else fail++;\n      } catch(e) { fail++; }\n    }\n    document.body.removeChild(inp);\n    dioxus.send('done:'+ok+':'+fail);\n  };\n  inp.addEventListener('cancel', function() { dioxus.send('cancel'); document.body.removeChild(inp); });\n  inp.click();\n})();";

/// The script that lets the user pick files and sends each to the space,
/// then reports `done:<ok>:<fail>` (or `cancel`) back to the page.
pub fn upload_script(space_id: &str, token: &str) -> (r: String)
    ensures
        r@ == UPLOAD_SCRIPT_HEAD@ + space_id@ + UPLOAD_SCRIPT_MIDDLE@ + token@ + UPLOAD_SCRIPT_TAIL@,
{
    let mut s = string_of(UPLOAD_SCRIPT_HEAD);
    append_str(&mut s, space_id);
    append_str(&mut s, UPLOAD_SCRIPT_MIDDLE);
    append_str(&mut s, token);
    append_str(&mut s, UPLOAD_SCRIPT_TAIL);
    s
}

} // verus!
