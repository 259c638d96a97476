//! Feed store and peer directory behavior on concrete values.

use zeta_node::feed::FeedStore;
use zeta_node::directory::PeerDirectory;
use zeta_node::types::{ChangeEvent, PeerInfo, Post};
use zeta_node::state::NetworkState;

fn post(id: &str, content: &str) -> Post {
    Post {
        id: id.to_string(),
        author: "peer-a".to_string(),
        author_name: "Alice".to_string(),
        content: content.to_string(),
        timestamp: 7,
    }
}

fn peer(id: &str) -> PeerInfo {
    PeerInfo {
        peer_id: id.to_string(),
        address: String::new(),
        name: None,
        is_browser: false,
    }
}

#[test]
fn add_stores_newest_first() {
    let mut feed = FeedStore::new(10);
    assert!(feed.add(post("a", "first")));
    assert!(feed.add(post("b", "second")));
    let snap = feed.snapshot();
    assert_eq!(snap.len(), 2);
    assert_eq!(snap[0].id, "b");
    assert_eq!(snap[1].id, "a");
}

#[test]
fn add_twice_keeps_one_copy() {
    let mut feed = FeedStore::new(10);
    assert!(feed.add(post("a", "first")));
    assert!(!feed.add(post("a", "first")));
    let snap = feed.snapshot();
    assert_eq!(snap.len(), 1);
    assert_eq!(snap[0].id, "a");
}

#[test]
fn duplicate_id_with_different_body_is_still_dropped() {
    let mut feed = FeedStore::new(10);
    assert!(feed.add(post("a", "first")));
    assert!(!feed.add(post("a", "changed")));
    let snap = feed.snapshot();
    assert_eq!(snap.len(), 1);
    assert_eq!(snap[0].content, "first");
}

#[test]
fn overflow_evicts_oldest_first() {
    let mut feed = FeedStore::new(3);
    for (i, id) in ["a", "b", "c", "d", "e"].iter().enumerate() {
        assert!(feed.add(post(id, &format!("post {}", i))));
    }
    let snap = feed.snapshot();
    assert_eq!(snap.len(), 3);
    assert_eq!(snap[0].id, "e");
    assert_eq!(snap[1].id, "d");
    assert_eq!(snap[2].id, "c");
}

#[test]
fn contains_id_tracks_membership() {
    let mut feed = FeedStore::new(2);
    assert!(!feed.contains_id("a"));
    feed.add(post("a", "x"));
    assert!(feed.contains_id("a"));
    feed.add(post("b", "y"));
    feed.add(post("c", "z"));
    assert!(!feed.contains_id("a"));
    assert!(feed.contains_id("b"));
    assert!(feed.contains_id("c"));
}

#[test]
fn upsert_joins_only_once() {
    let mut dir = PeerDirectory::new();
    assert!(dir.upsert(peer("p1")));
    assert!(!dir.upsert(peer("p1")));
    assert!(!dir.upsert(peer("p1")));
    assert_eq!(dir.len(), 1);
}

#[test]
fn upsert_overwrites_metadata_last_write_wins() {
    let mut dir = PeerDirectory::new();
    dir.upsert(peer("p1"));
    let mut renamed = peer("p1");
    renamed.name = Some("New Name".to_string());
    assert!(!dir.upsert(renamed));
    let listed = dir.list();
    assert_eq!(listed.len(), 1);
    assert_eq!(listed[0].name.as_deref(), Some("New Name"));
}

#[test]
fn remove_absent_is_silent() {
    let mut dir = PeerDirectory::new();
    assert!(!dir.remove("ghost"));
    dir.upsert(peer("p1"));
    assert!(dir.remove("p1"));
    assert!(!dir.remove("p1"));
    assert_eq!(dir.len(), 0);
}

#[test]
fn state_add_post_emits_one_event_per_insert() {
    let mut state = NetworkState::new(100, "local".to_string(), "Local".to_string());
    let first = state.add_post(post("a", "x"));
    match first {
        Some(ChangeEvent::NewPost { post: p }) => assert_eq!(p.id, "a"),
        other => panic!("expected NewPost, got {:?}", other),
    }
    let second = state.add_post(post("a", "x"));
    assert!(second.is_none());
}

#[test]
fn state_peer_events_are_edge_triggered() {
    let mut state = NetworkState::new(100, "local".to_string(), "Local".to_string());
    let joined = state.add_peer(peer("p1"));
    assert!(matches!(joined, Some(ChangeEvent::PeerJoined { .. })));
    assert!(state.add_peer(peer("p1")).is_none());
    let left = state.remove_peer("p1");
    assert!(matches!(left, Some(ChangeEvent::PeerLeft { .. })));
    assert!(state.remove_peer("p1").is_none());
}

#[test]
fn snapshot_is_a_copy() {
    let mut state = NetworkState::new(100, "local".to_string(), "Local".to_string());
    state.add_post(post("a", "x"));
    let snap = state.get_snapshot();
    state.add_post(post("b", "y"));
    assert_eq!(snap.posts.len(), 1);
    assert_eq!(state.get_snapshot().posts.len(), 2);
}
