use soulbook::spaces::{normalize_space, normalize_space_list, Space, SpaceCounts, SpaceListData};

fn space(doc: Option<u32>, member: Option<u32>, tag: Option<u32>, stats: Option<(Option<u32>, Option<u32>, Option<u32>)>) -> Space {
    Space {
        id: None,
        slug: "kb".into(),
        name: "KB".into(),
        description: None,
        is_public: None,
        doc_count: doc,
        member_count: member,
        tag_count: tag,
        stats: stats.map(|(d, m, t)| SpaceCounts { document_count: d, member_count: m, tag_count: t }),
    }
}

#[test]
fn counters_come_from_stats() {
    let s = normalize_space(space(None, None, None, Some((Some(5), Some(2), None))));
    assert_eq!((s.doc_count, s.member_count, s.tag_count), (Some(5), Some(2), None));
}

#[test]
fn sent_counters_are_kept() {
    let s = normalize_space(space(Some(1), None, Some(7), Some((Some(5), Some(2), Some(3)))));
    assert_eq!((s.doc_count, s.member_count, s.tag_count), (Some(1), Some(2), Some(7)));
    let t = normalize_space(space(None, None, None, None));
    assert_eq!((t.doc_count, t.member_count, t.tag_count), (None, None, None));
}

#[test]
fn normalizing_space_twice_is_once() {
    let once = normalize_space(space(None, Some(4), None, Some((Some(9), None, Some(1)))));
    assert_eq!(normalize_space(once.clone()), once);
}

#[test]
fn space_list_is_normalized() {
    let data = SpaceListData {
        spaces: None,
        items: Some(vec![space(None, None, None, Some((Some(8), None, None)))]),
        total: Some(1),
        page: Some(1),
        page_size: Some(50),
        limit: None,
    };
    let r = normalize_space_list(data);
    assert!(r.spaces.is_none());
    assert_eq!(r.items.unwrap()[0].doc_count, Some(8));
    assert_eq!((r.total, r.page, r.page_size, r.limit), (Some(1), Some(1), Some(50), None));
}
