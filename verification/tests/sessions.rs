//! The session bridge: open, frame handling, close, and the new-session
//! snapshot.

use zeta_node::fresh::create_post;
use zeta_node::session::{ClientFrame, FrameAction, SessionBridge};
use zeta_node::state::NetworkState;
use zeta_node::types::{ChangeEvent, PeerInfo, Post};

fn post(id: &str) -> Post {
    Post {
        id: id.to_string(),
        author: "peer-a".to_string(),
        author_name: "Alice".to_string(),
        content: "hello".to_string(),
        timestamp: 7,
    }
}

fn peer(id: &str) -> PeerInfo {
    PeerInfo {
        peer_id: id.to_string(),
        address: String::new(),
        name: None,
        is_browser: false,
    }
}

fn frame(tag: &str, content: Option<&str>, author_name: Option<&str>) -> ClientFrame {
    ClientFrame {
        msg_type: tag.to_string(),
        content: content.map(|s| s.to_string()),
        author_name: author_name.map(|s| s.to_string()),
    }
}

#[test]
fn new_session_gets_one_full_snapshot() {
    let mut state = NetworkState::new(1000, "local".to_string(), "Local".to_string());
    for id in ["a", "b", "c"] {
        assert!(state.add_post(post(id)).is_some());
    }
    for id in ["p1", "p2"] {
        assert!(state.add_peer(peer(id)).is_some());
    }
    let start = SessionBridge::open(&mut state);
    assert!(start.bridge.active);
    assert!(start.joined.is_some());
    match start.init {
        ChangeEvent::Init { peer_id, peers, posts } => {
            assert_eq!(peer_id, start.bridge.peer_id);
            assert_eq!(posts.len(), 3);
            assert_eq!(posts[0].id, "c");
            assert_eq!(posts[1].id, "b");
            assert_eq!(posts[2].id, "a");
            // The two prior peers plus the session's own synthetic entry.
            assert_eq!(peers.len(), 3);
            assert!(peers.iter().any(|p| p.peer_id == "p1"));
            assert!(peers.iter().any(|p| p.peer_id == "p2"));
            assert!(peers.iter().any(|p| p.peer_id == start.bridge.peer_id));
        }
        other => panic!("expected Init, got {:?}", other),
    }
}

#[test]
fn session_peer_id_is_namespaced() {
    let mut state = NetworkState::new(10, "local".to_string(), "Local".to_string());
    let start = SessionBridge::open(&mut state);
    assert_eq!(start.bridge.peer_id.len(), 16);
    assert!(start.bridge.peer_id.starts_with("browser-"));
    match start.joined {
        Some(ChangeEvent::PeerJoined { peer_id }) => {
            assert_eq!(peer_id, start.bridge.peer_id)
        }
        other => panic!("expected PeerJoined, got {:?}", other),
    }
    let listed = state.get_snapshot().peers;
    assert_eq!(listed.len(), 1);
    assert!(listed[0].is_browser);
    assert_eq!(listed[0].address, "websocket");
    assert_eq!(listed[0].name.as_deref(), Some("Navigateur"));
}

#[test]
fn close_removes_the_session_peer_once() {
    let mut state = NetworkState::new(10, "local".to_string(), "Local".to_string());
    let start = SessionBridge::open(&mut state);
    let mut bridge = start.bridge;
    let left = bridge.close(&mut state);
    assert!(!bridge.active);
    assert!(matches!(left, Some(ChangeEvent::PeerLeft { .. })));
    assert_eq!(state.get_snapshot().peers.len(), 0);
    let again = bridge.close(&mut state);
    assert!(again.is_none());
}

#[test]
fn post_frame_builds_a_fresh_post() {
    let bridge = SessionBridge { peer_id: "browser-0a1b2c3d".to_string(), active: true };
    let action = bridge.handle_frame(frame("post", Some("hi there"), Some("Bea")));
    match action {
        FrameAction::Submit(p) => {
            assert_eq!(p.id.len(), 36);
            assert_eq!(p.author, "browser-0a1b2c3d");
            assert_eq!(p.author_name, "Bea");
            assert_eq!(p.content, "hi there");
        }
        other => panic!("expected Submit, got {:?}", other),
    }
}

#[test]
fn incomplete_post_frame_is_ignored() {
    let bridge = SessionBridge { peer_id: "browser-0a1b2c3d".to_string(), active: true };
    assert!(matches!(
        bridge.handle_frame(frame("post", Some("hi"), None)),
        FrameAction::Ignore
    ));
    assert!(matches!(
        bridge.handle_frame(frame("post", None, Some("Bea"))),
        FrameAction::Ignore
    ));
}

#[test]
fn ping_frame_is_answered_and_unknown_tags_ignored() {
    let bridge = SessionBridge { peer_id: "browser-0a1b2c3d".to_string(), active: true };
    assert!(matches!(bridge.handle_frame(frame("ping", None, None)), FrameAction::Pong));
    assert!(matches!(
        bridge.handle_frame(frame("subscribe", None, None)),
        FrameAction::Ignore
    ));
    assert!(matches!(bridge.handle_frame(frame("", None, None)), FrameAction::Ignore));
}

#[test]
fn created_posts_carry_fresh_unique_ids() {
    let a = create_post("peer-x", "Ann".to_string(), "one".to_string());
    let b = create_post("peer-x", "Ann".to_string(), "two".to_string());
    assert_eq!(a.id.len(), 36);
    assert_eq!(b.id.len(), 36);
    assert!(a.id.is_ascii());
    assert_ne!(a.id, b.id);
    assert_eq!(a.author, "peer-x");
    assert_eq!(a.author_name, "Ann");
    assert_eq!(a.content, "one");
}
