use spike_mastodon::timeline::{
    AdvanceOutcome, FetchError, FetchOutcome, PageResponse, StatusItem, TimelineCursor,
};
use spike_mastodon::Direction;

fn item(uri: &str) -> StatusItem {
    StatusItem { uri: String::from(uri) }
}

fn items(uris: &[&str]) -> Vec<StatusItem> {
    uris.iter().map(|u| item(u)).collect()
}

fn uris(c: &TimelineCursor) -> Vec<String> {
    c.items.iter().map(|it| it.uri.clone()).collect()
}

fn initial_page() -> TimelineCursor {
    let fetched = FetchOutcome::Success(PageResponse {
        items: Some(items(&["A", "B", "C"])),
        next: Some(String::from("tok1")),
        prev: None,
    });
    TimelineCursor::from_initial_fetch(fetched).unwrap()
}

#[test]
fn initial_fetch_builds_cursor() {
    let c = initial_page();
    assert_eq!(uris(&c), vec!["A", "B", "C"]);
    assert_eq!(c.next, Some(String::from("tok1")));
    assert_eq!(c.prev, None);
}

#[test]
fn initial_fetch_failure_is_error() {
    let r = TimelineCursor::from_initial_fetch(FetchOutcome::TransportFailure);
    assert!(matches!(r, Err(FetchError::Transport)));
}

#[test]
fn prev_at_first_page_is_noop() {
    // the newest page: a prev locator is absent, so no fetch is issued and
    // nothing changes — and that is a success, not an error
    let mut c = initial_page();
    assert_eq!(c.advance_target(Direction::Prev), None);
    let r = c.advance(Direction::Prev, None);
    assert_eq!(r, Ok(AdvanceOutcome::Boundary));
    assert_eq!(uris(&c), vec!["A", "B", "C"]);
    assert_eq!(c.next, Some(String::from("tok1")));
    assert_eq!(c.prev, None);
}

#[test]
fn next_at_last_page_is_noop() {
    let fetched = FetchOutcome::Success(PageResponse {
        items: Some(items(&["X"])),
        next: None,
        prev: Some(String::from("tok9")),
    });
    let mut c = TimelineCursor::from_initial_fetch(fetched).unwrap();
    assert_eq!(c.advance_target(Direction::Next), None);
    let r = c.advance(Direction::Next, None);
    assert_eq!(r, Ok(AdvanceOutcome::Boundary));
    assert_eq!(uris(&c), vec!["X"]);
    assert_eq!(c.next, None);
    assert_eq!(c.prev, Some(String::from("tok9")));
}

#[test]
fn advance_replaces_items_and_both_locators() {
    // the concrete scenario: [A,B,C]/next=tok1/prev=None, a boundary no-op,
    // then a forward step onto [D,E]/next=tok2/prev=tok0
    let mut c = initial_page();
    let r = c.advance(Direction::Prev, None);
    assert_eq!(r, Ok(AdvanceOutcome::Boundary));
    assert_eq!(uris(&c), vec!["A", "B", "C"]);
    assert_eq!(c.next, Some(String::from("tok1")));
    assert_eq!(c.prev, None);

    assert_eq!(c.advance_target(Direction::Next), Some(String::from("tok1")));
    let fetched = FetchOutcome::Success(PageResponse {
        items: Some(items(&["D", "E"])),
        next: Some(String::from("tok2")),
        prev: Some(String::from("tok0")),
    });
    let r = c.advance(Direction::Next, Some(fetched));
    assert_eq!(r, Ok(AdvanceOutcome::Advanced));
    assert_eq!(uris(&c), vec!["D", "E"]);
    assert_eq!(c.next, Some(String::from("tok2")));
    assert_eq!(c.prev, Some(String::from("tok0")));
}

#[test]
fn forward_then_back_restores_initial_items() {
    // stationary feed: the backward fetch returns the starting page
    let mut c = initial_page();
    let forward = FetchOutcome::Success(PageResponse {
        items: Some(items(&["D", "E"])),
        next: Some(String::from("tok2")),
        prev: Some(String::from("tok0")),
    });
    assert_eq!(c.advance(Direction::Next, Some(forward)), Ok(AdvanceOutcome::Advanced));
    assert_eq!(c.advance_target(Direction::Prev), Some(String::from("tok0")));
    let back = FetchOutcome::Success(PageResponse {
        items: Some(items(&["A", "B", "C"])),
        next: Some(String::from("tok1")),
        prev: None,
    });
    assert_eq!(c.advance(Direction::Prev, Some(back)), Ok(AdvanceOutcome::Advanced));
    assert_eq!(uris(&c), vec!["A", "B", "C"]);
}

#[test]
fn second_advance_uses_fresh_locator() {
    // after one forward step the cursor must ask for the locator the server
    // just returned, not the one it started with
    let mut c = initial_page();
    let first = FetchOutcome::Success(PageResponse {
        items: Some(items(&["D", "E"])),
        next: Some(String::from("tok2")),
        prev: Some(String::from("tok0")),
    });
    assert_eq!(c.advance(Direction::Next, Some(first)), Ok(AdvanceOutcome::Advanced));
    assert_eq!(c.advance_target(Direction::Next), Some(String::from("tok2")));
    let second = FetchOutcome::Success(PageResponse {
        items: Some(items(&["F"])),
        next: Some(String::from("tok3")),
        prev: Some(String::from("tok1"))
    });
    assert_eq!(c.advance(Direction::Next, Some(second)), Ok(AdvanceOutcome::Advanced));
    assert_eq!(uris(&c), vec!["F"]);
    assert_ne!(uris(&c), vec!["D", "E"]);
}

#[test]
fn failed_fetch_leaves_state_intact() {
    let mut c = initial_page();
    let r = c.advance(Direction::Next, Some(FetchOutcome::TransportFailure));
    assert_eq!(r, Err(FetchError::Transport));
    assert_eq!(uris(&c), vec!["A", "B", "C"]);
    assert_eq!(c.next, Some(String::from("tok1")));
    assert_eq!(c.prev, None);
}

#[test]
fn empty_page_updates_locators_but_surfaces_no_items() {
    let mut c = initial_page();
    let fetched = FetchOutcome::Success(PageResponse {
        items: None,
        next: Some(String::from("tok2")),
        prev: Some(String::from("tok0")),
    });
    let r = c.advance(Direction::Next, Some(fetched));
    assert_eq!(r, Ok(AdvanceOutcome::AdvancedEmpty));
    assert!(c.items.is_empty());
    assert_eq!(c.next, Some(String::from("tok2")));
    assert_eq!(c.prev, Some(String::from("tok0")));
}
