use reinfer_client::comment::{Comment, CommentsIterPage, Continuation, Id, Uid};
use reinfer_client::pagination::{advance_cursor, collect_pages, page_request, CommentsIterCursor};
use reinfer_client::property::PropertyMap;
use reinfer_client::time::Timestamp;

fn comment(id: &str, at: i64) -> Comment {
    Comment {
        id: Id(String::from(id)),
        uid: Uid(format!("src.{id}")),
        thread_id: None,
        timestamp: Timestamp(at),
        messages: Vec::new(),
        user_properties: PropertyMap::new(),
        attachments: Vec::new(),
        created_at: Timestamp(at),
        has_annotations: false,
    }
}

fn page(ids: &[&str], continuation: Option<&str>) -> CommentsIterPage {
    CommentsIterPage {
        comments: ids.iter().enumerate().map(|(i, id)| comment(id, i as i64)).collect(),
        continuation: continuation.map(|c| Continuation(String::from(c))),
    }
}

#[test]
fn concatenating_all_pages_preserves_order() {
    let pages = vec![
        page(&["a", "b"], Some("c1")),
        page(&["c"], Some("c2")),
        page(&["d", "e"], None),
    ];
    let out = collect_pages(pages);
    let ids: Vec<&str> = out.iter().map(|c| c.id.0.as_str()).collect();
    assert_eq!(ids, vec!["a", "b", "c", "d", "e"]);
}

#[test]
fn page_without_continuation_terminates_iteration() {
    // The second page answers with no continuation: its items are
    // yielded and the remaining pages are never requested.
    let pages = vec![
        page(&["a"], Some("c1")),
        page(&["b"], None),
        page(&["z1", "z2"], None),
    ];
    let out = collect_pages(pages);
    let ids: Vec<&str> = out.iter().map(|c| c.id.0.as_str()).collect();
    assert_eq!(ids, vec!["a", "b"]);
}

#[test]
fn single_page_listing() {
    let pages = vec![page(&["only"], None)];
    let out = collect_pages(pages);
    assert_eq!(out.len(), 1);
    assert_eq!(out[0].id.0, "only");
}

#[test]
fn empty_pages_yield_nothing() {
    let pages = vec![page(&[], Some("c1")), page(&[], None)];
    let out = collect_pages(pages);
    assert!(out.is_empty());
}

#[test]
fn first_request_carries_the_start_timestamp() {
    let cursor = CommentsIterCursor::Start(Some(Timestamp(1700000000000)));
    let request = page_request(&cursor);
    assert!(matches!(request.from_timestamp, Some(Timestamp(1700000000000))));
    assert!(request.after.is_none());
}

#[test]
fn later_requests_carry_only_the_token() {
    let cursor = CommentsIterCursor::Next(Continuation(String::from("tok")));
    let request = page_request(&cursor);
    assert!(request.from_timestamp.is_none());
    assert_eq!(request.after.expect("token expected").0, "tok");
}

#[test]
fn cursor_advances_by_token_and_stops_on_none() {
    let mut cursor = CommentsIterCursor::Start(None);
    advance_cursor(&mut cursor, Some(Continuation(String::from("t1"))));
    match &cursor {
        CommentsIterCursor::Next(c) => assert_eq!(c.0, "t1"),
        _ => panic!("expected a token cursor"),
    }
    advance_cursor(&mut cursor, None);
    assert!(matches!(cursor, CommentsIterCursor::Done));
}
