//! Knowledge spaces: the records that the server returns and how the client
//! fills in their counters from the nested statistics.
use vstd::prelude::*;

use crate::documents::opt_text;

verus! {

/// The statistics that a space record may carry.
#[derive(Debug, Clone, PartialEq)]
pub struct SpaceCounts {
    pub document_count: Option<u32>,
    pub member_count: Option<u32>,
    pub tag_count: Option<u32>,
}

/// A knowledge space as the server describes it.
#[derive(Debug, Clone, PartialEq)]
pub struct Space {
    pub id: Option<String>,
    pub slug: String,
    pub name: String,
    pub description: Option<String>,
    pub is_public: Option<bool>,
    pub doc_count: Option<u32>,
    pub member_count: Option<u32>,
    pub tag_count: Option<u32>,
    pub stats: Option<SpaceCounts>,
}

/// The counters of a space's statistics.
pub ghost struct CountsModel {
    pub document_count: Option<u32>,
    pub member_count: Option<u32>,
    pub tag_count: Option<u32>,
}

/// The content of a [`Space`].
pub ghost struct SpaceModel {
    pub id: Option<Seq<char>>,
    pub slug: Seq<char>,
    pub name: Seq<char>,
    pub description: Option<Seq<char>>,
    pub is_public: Option<bool>,
    pub doc_count: Option<u32>,
    pub member_count: Option<u32>,
    pub tag_count: Option<u32>,
    pub stats: Option<CountsModel>,
}

impl View for Space {
    type V = SpaceModel;

    open spec fn view(&self) -> SpaceModel {
        SpaceModel {
            id: opt_text(self.id),
            slug: self.slug@,
            name: self.name@,
            description: opt_text(self.description),
            is_public: self.is_public,
            doc_count: self.doc_count,
            member_count: self.member_count,
            tag_count: self.tag_count,
            stats: match self.stats {
                Some(c) => Some(
                    CountsModel {
                        document_count: c.document_count,
                        member_count: c.member_count,
                        tag_count: c.tag_count,
                    },
                ),
                None => None,
            },
        }
    }
}

/// `a`, or `b` where `a` is missing.
pub open spec fn or_else(a: Option<u32>, b: Option<u32>) -> Option<u32> {
    match a {
        Some(x) => Some(x),
        None => b,
    }
}

/// A space with each missing counter taken from its statistics, where it
/// has them.
pub open spec fn normalized_space(s: SpaceModel) -> SpaceModel {
    match s.stats {
        Some(c) => SpaceModel {
            doc_count: or_else(s.doc_count, c.document_count),
            member_count: or_else(s.member_count, c.member_count),
            tag_count: or_else(s.tag_count, c.tag_count),
            ..s
        },
        None => s,
    }
}

/// Fills in a space's missing counters from its statistics.
pub fn normalize_space(space: Space) -> (r: Space)
    ensures
        r@ == normalized_space(space@),
        space@.stats matches Some(c) ==> {
            &&& space@.doc_count is None ==> r@.doc_count == c.document_count
            &&& space@.member_count is None ==> r@.member_count == c.member_count
            &&& space@.tag_count is None ==> r@.tag_count == c.tag_count
        },
        space@.doc_count is Some ==> r@.doc_count == space@.doc_count,
        space@.member_count is Some ==> r@.member_count == space@.member_count,
        space@.tag_count is Some ==> r@.tag_count == space@.tag_count,
        space@.stats is None ==> r@ == space@,
{
    let mut space = space;
    let mut doc_count = space.doc_count;
    let mut member_count = space.member_count;
    let mut tag_count = space.tag_count;
    match &space.stats {
        Some(stats) => {
            if doc_count.is_none() {
                doc_count = stats.document_count;
            }
            if member_count.is_none() {
                member_count = stats.member_count;
            }
            if tag_count.is_none() {
                tag_count = stats.tag_count;
            }
        },
        None => {},
    }
    space.doc_count = doc_count;
    space.member_count = member_count;
    space.tag_count = tag_count;
    space
}

/// What normalizing fills in: each counter that the server left out (the
/// document, member and tag counters alike) is the matching counter of the
/// statistics, where the space has statistics; nothing else changes.
pub proof fn lemma_normalize_space_fills_gaps(s: SpaceModel)
    ensures
        s.stats matches Some(c) ==> {
            &&& s.doc_count is None ==> normalized_space(s).doc_count == c.document_count
            &&& s.member_count is None ==> normalized_space(s).member_count == c.member_count
            &&& s.tag_count is None ==> normalized_space(s).tag_count == c.tag_count
        },
        s.stats is None ==> normalized_space(s) == s,
        normalized_space(s).description == s.description && normalized_space(s).is_public
            == s.is_public,
{
}

/// Normalizing a space twice is normalizing it once.
pub proof fn lemma_normalize_space_idempotent(s: SpaceModel)
    ensures
        normalized_space(normalized_space(s)) == normalized_space(s),
{
}

/// Normalizing never overwrites a counter that the server sent, and keeps
/// the space's identity.
pub proof fn lemma_normalize_space_keeps_sent(s: SpaceModel)
    ensures
        s.doc_count is Some ==> normalized_space(s).doc_count == s.doc_count,
        s.member_count is Some ==> normalized_space(s).member_count == s.member_count,
        s.tag_count is Some ==> normalized_space(s).tag_count == s.tag_count,
        normalized_space(s).id == s.id && normalized_space(s).slug == s.slug
            && normalized_space(s).name == s.name && normalized_space(s).stats == s.stats,
{
}

/// The contents of a list of spaces.
pub open spec fn spaces_view(spaces: Seq<Space>) -> Seq<SpaceModel> {
    spaces.map_values(|s: Space| s@)
}

/// Each space of a list, normalized.
pub open spec fn normalized_spaces(spaces: Seq<SpaceModel>) -> Seq<SpaceModel> {
    spaces.map_values(|s: SpaceModel| normalized_space(s))
}

/// Normalizes every space of a list, keeping their order.
pub fn normalize_spaces(spaces: Vec<Space>) -> (r: Vec<Space>)
    ensures
        spaces_view(r@) == normalized_spaces(spaces_view(spaces@)),
{
    let ghost input = spaces@;
    let mut out: Vec<Space> = Vec::new();
    for s in it: spaces.into_iter()
        invariant
            it.seq() == input,
            out.len() == it.index(),
            forall|i: int| 0 <= i < out.len() ==> #[trigger] out[i]@ == normalized_space(
                input[i]@,
            ),
    {
        out.push(normalize_space(s));
    }
    assert(spaces_view(out@) =~= normalized_spaces(spaces_view(input)));
    out
}

/// Normalizing a list of spaces twice is normalizing it once.
pub proof fn lemma_normalize_spaces_idempotent(spaces: Seq<SpaceModel>)
    ensures
        normalized_spaces(normalized_spaces(spaces)) == normalized_spaces(spaces),
{
    assert(normalized_spaces(normalized_spaces(spaces)) =~= normalized_spaces(spaces));
}

/// A page of spaces. Servers name the list either `spaces` or `items`.
#[derive(Debug, Clone, PartialEq)]
pub struct SpaceListData {
    pub spaces: Option<Vec<Space>>,
    pub items: Option<Vec<Space>>,
    pub total: Option<u64>,
    pub page: Option<u32>,
    pub page_size: Option<u32>,
    pub limit: Option<u32>,
}

/// The contents of an optional list of spaces.
pub open spec fn opt_spaces(o: Option<Vec<Space>>) -> Option<Seq<SpaceModel>> {
    match o {
        Some(v) => Some(spaces_view(v@)),
        None => None,
    }
}

/// The contents of an optional list of spaces, each normalized.
pub open spec fn opt_normalized_spaces(o: Option<Seq<SpaceModel>>) -> Option<Seq<SpaceModel>> {
    match o {
        Some(v) => Some(normalized_spaces(v)),
        None => None,
    }
}

/// Normalizes every space of a page, under either name of the list.
pub fn normalize_space_list(data: SpaceListData) -> (r: SpaceListData)
    ensures
        opt_spaces(r.spaces) == opt_normalized_spaces(opt_spaces(data.spaces)),
        opt_spaces(r.items) == opt_normalized_spaces(opt_spaces(data.items)),
        r.total == data.total,
        r.page == data.page,
        r.page_size == data.page_size,
        r.limit == data.limit,
{
    let mut data = data;
    let spaces = data.spaces.take();
    match spaces {
        Some(spaces) => {
            data.spaces = Some(normalize_spaces(spaces));
        },
        None => {},
    }
    let items = data.items.take();
    match items {
        Some(items) => {
            data.items = Some(normalize_spaces(items));
        },
        None => {},
    }
    data
}

/// The statistics of one space (`document_count` is also accepted for
/// `doc_count` when the reply is read).
#[derive(Debug, Clone, PartialEq)]
pub struct SpaceStats {
    pub doc_count: Option<u32>,
    pub member_count: Option<u32>,
    pub tag_count: Option<u32>,
    pub public_document_count: Option<u32>,
    pub comment_count: Option<u32>,
    pub view_count: Option<u32>,
}

/// The body of a request that creates a space.
#[derive(Debug, Clone, PartialEq)]
pub struct CreateSpaceRequest {
    pub name: String,
    pub slug: String,
    pub description: Option<String>,
    pub is_public: Option<bool>,
}

/// The changes of a space update.
#[derive(Debug, Clone, PartialEq)]
pub struct UpdateSpaceRequest {
    pub name: Option<String>,
    pub description: Option<String>,
    pub is_public: Option<bool>,
}

} // verus!
