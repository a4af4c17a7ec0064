use repo_mirror::errors::{ErrorKind, Reply};
use repo_mirror::github::{
    user_repos, Edge, Enumeration, ListError, Listing, Page, Payload, Repositories,
};

fn edge(cursor: &str, name: &str) -> Option<Edge> {
    Some(Edge { cursor: cursor.to_string(), node: Some(name.to_string()) })
}

fn page(
    owned: Vec<Option<Edge>>,
    starred: Vec<Option<Edge>>,
    watched: Vec<Option<Edge>>,
    gists: Vec<Option<Edge>>,
) -> Page {
    Page { owned: Some(owned), starred: Some(starred), watched: Some(watched), gists: Some(gists) }
}

fn ok(page: Page) -> Reply<Payload> {
    Reply::Answered { status: 200, body: Some(Payload::Page(page)) }
}

fn names(list: &[&str]) -> Vec<String> {
    list.iter().map(|s| s.to_string()).collect()
}

#[test]
fn enumeration_begins_without_cursors() {
    let listing = Listing::new();
    assert_eq!(listing.owned_after, None);
    assert_eq!(listing.starred_after, None);
    assert_eq!(listing.watched_after, None);
    assert_eq!(listing.gists_after, None);
    assert_eq!(
        listing.found,
        Repositories { owned: vec![], starred: vec![], watched: vec![], gists: vec![] }
    );
}

#[test]
fn pagination_ends_with_the_first_empty_round() {
    let rounds = vec![
        ok(page(vec![edge("c1", "me/one"), edge("c2", "me/two")], vec![], vec![], vec![])),
        ok(page(vec![edge("c3", "me/three")], vec![], vec![], vec![])),
        ok(page(vec![], vec![], vec![], vec![])),
        ok(page(vec![edge("c4", "me/never")], vec![], vec![], vec![])),
    ];
    let mut asked = 0;
    let mut listing = Listing::new();
    let found = loop {
        let reply = rounds[asked].clone();
        asked += 1;
        match user_repos(listing, reply) {
            Enumeration::More(next) => listing = next,
            Enumeration::Done(found) => break found,
            Enumeration::Failed(error) => panic!("failed: {:?}", error),
        }
    };
    assert_eq!(asked, 3);
    assert_eq!(found.owned, names(&["me/one", "me/two", "me/three"]));
    assert_eq!(found.starred, names(&[]));
    assert_eq!(found.watched, names(&[]));
    assert_eq!(found.gists, names(&[]));
}

#[test]
fn cursor_moves_behind_the_last_entry_of_each_category() {
    let first = ok(page(
        vec![edge("o1", "me/a"), edge("o2", "me/b")],
        vec![edge("s1", "you/c")],
        vec![],
        vec![edge("g1", "abc123")],
    ));
    let listing = match user_repos(Listing::new(), first) {
        Enumeration::More(listing) => listing,
        other => panic!("unexpected: {:?}", other),
    };
    assert_eq!(listing.owned_after, Some("o2".to_string()));
    assert_eq!(listing.starred_after, Some("s1".to_string()));
    assert_eq!(listing.watched_after, None);
    assert_eq!(listing.gists_after, Some("g1".to_string()));
    assert_eq!(listing.found.owned, names(&["me/a", "me/b"]));
    assert_eq!(listing.found.starred, names(&["you/c"]));
    assert_eq!(listing.found.gists, names(&["abc123"]));
}

#[test]
fn exhausted_category_keeps_its_cursor() {
    let first = ok(page(vec![edge("o1", "me/a")], vec![edge("s1", "you/c")], vec![], vec![]));
    let second = ok(page(vec![], vec![edge("s2", "you/d")], vec![edge("w1", "we/e")], vec![]));
    let listing = match user_repos(Listing::new(), first) {
        Enumeration::More(listing) => listing,
        other => panic!("unexpected: {:?}", other),
    };
    let listing = match user_repos(listing, second) {
        Enumeration::More(listing) => listing,
        other => panic!("unexpected: {:?}", other),
    };
    assert_eq!(listing.owned_after, Some("o1".to_string()));
    assert_eq!(listing.starred_after, Some("s2".to_string()));
    assert_eq!(listing.watched_after, Some("w1".to_string()));
    assert_eq!(listing.found.owned, names(&["me/a"]));
    assert_eq!(listing.found.starred, names(&["you/c", "you/d"]));
    assert_eq!(listing.found.watched, names(&["we/e"]));
    let done = user_repos(listing, ok(page(vec![], vec![], vec![], vec![])));
    assert_eq!(
        done,
        Enumeration::Done(Repositories {
            owned: names(&["me/a"]),
            starred: names(&["you/c", "you/d"]),
            watched: names(&["we/e"]),
            gists: names(&[]),
        })
    );
}

#[test]
fn unreachable_service_is_a_transport_failure() {
    assert_eq!(
        user_repos(Listing::new(), Reply::Unreachable),
        Enumeration::Failed(ListError::Transport)
    );
}

#[test]
fn rejected_credentials_are_an_auth_failure() {
    for status in [401, 403] {
        let reply = Reply::Answered { status, body: Some(Payload::NoData) };
        assert_eq!(user_repos(Listing::new(), reply), Enumeration::Failed(ListError::Auth));
    }
}

#[test]
fn other_statuses_fail_the_exchange() {
    for status in [199, 300, 404, 500, 502] {
        let reply = Reply::Answered {
            status,
            body: Some(Payload::Page(page(vec![edge("c", "a/b")], vec![], vec![], vec![]))),
        };
        assert_eq!(user_repos(Listing::new(), reply), Enumeration::Failed(ListError::Transport));
    }
}

#[test]
fn undecodable_body_is_malformed() {
    let reply = Reply::Answered { status: 200, body: None };
    assert_eq!(user_repos(Listing::new(), reply), Enumeration::Failed(ListError::Malformed));
}

#[test]
fn missing_data_or_account_is_an_empty_payload() {
    for payload in [Payload::NoData, Payload::NoUser] {
        let reply = Reply::Answered { status: 200, body: Some(payload) };
        assert_eq!(user_repos(Listing::new(), reply), Enumeration::Failed(ListError::EmptyPayload));
    }
}

#[test]
fn missing_list_entry_or_item_is_malformed() {
    let no_list = Page { owned: Some(vec![]), starred: None, watched: Some(vec![]), gists: Some(vec![]) };
    assert_eq!(user_repos(Listing::new(), ok(no_list)), Enumeration::Failed(ListError::Malformed));
    let no_entry = page(vec![edge("c1", "me/a"), None], vec![], vec![], vec![]);
    assert_eq!(user_repos(Listing::new(), ok(no_entry)), Enumeration::Failed(ListError::Malformed));
    let no_item = page(
        vec![],
        vec![],
        vec![],
        vec![Some(Edge { cursor: "g1".to_string(), node: None })],
    );
    assert_eq!(user_repos(Listing::new(), ok(no_item)), Enumeration::Failed(ListError::Malformed));
}

#[test]
fn failure_hands_out_nothing_of_what_was_found() {
    let first = ok(page(vec![edge("o1", "me/a")], vec![], vec![], vec![]));
    let listing = match user_repos(Listing::new(), first) {
        Enumeration::More(listing) => listing,
        other => panic!("unexpected: {:?}", other),
    };
    assert_eq!(user_repos(listing, Reply::Unreachable), Enumeration::Failed(ListError::Transport));
}

#[test]
fn list_errors_belong_to_kinds() {
    assert_eq!(ListError::Transport.kind(), ErrorKind::Transport);
    assert_eq!(ListError::Auth.kind(), ErrorKind::Auth);
    assert_eq!(ListError::Malformed.kind(), ErrorKind::Protocol);
    assert_eq!(ListError::EmptyPayload.kind(), ErrorKind::Protocol);
}
