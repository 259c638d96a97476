//! The event router's decision loop on concrete scenarios.

use zeta_node::router::{EventRouter, LifecycleEvent, RouterInput};
use zeta_node::state::NetworkState;
use zeta_node::supervisor::ReconnectSupervisor;
use zeta_node::types::{ChangeEvent, NetworkMessage, Post};

fn post(id: &str, content: &str) -> Post {
    Post {
        id: id.to_string(),
        author: "peer-a".to_string(),
        author_name: "Alice".to_string(),
        content: content.to_string(),
        timestamp: 7,
    }
}

fn router() -> EventRouter {
    EventRouter::new(
        NetworkState::new(1000, "local".to_string(), "Local".to_string()),
        ReconnectSupervisor::new(Vec::new(), None),
    )
}

#[test]
fn end_to_end_overlay_then_local_then_duplicate() {
    let mut r = router();
    let ev_a = r.handle_inbound(Some(NetworkMessage::Post(post("a", "from overlay"))));
    assert!(matches!(ev_a, Some(ChangeEvent::NewPost { .. })));
    let ev_b = r.handle_local_post(post("b", "local"), true);
    assert!(matches!(ev_b, Some(ChangeEvent::NewPost { .. })));

    let snap = r.state.get_snapshot();
    assert_eq!(snap.posts.len(), 2);
    assert_eq!(snap.posts[0].id, "b");
    assert_eq!(snap.posts[1].id, "a");

    let replay = r.handle_inbound(Some(NetworkMessage::Post(post("a", "from overlay"))));
    assert!(replay.is_none());
    let snap2 = r.state.get_snapshot();
    assert_eq!(snap2.posts.len(), 2);
    assert_eq!(snap2.posts[0].id, "b");
    assert_eq!(snap2.posts[1].id, "a");
}

#[test]
fn publish_failure_does_not_block_local_acceptance() {
    let mut r = router();
    let ev = r.handle_local_post(post("p", "mine"), false);
    assert!(matches!(ev, Some(ChangeEvent::NewPost { .. })));
    let snap = r.state.get_snapshot();
    assert_eq!(snap.posts.len(), 1);
    assert_eq!(snap.posts[0].id, "p");
}

#[test]
fn malformed_and_foreign_inbound_are_dropped() {
    let mut r = router();
    assert!(r.handle_inbound(None).is_none());
    assert!(r.handle_inbound(Some(NetworkMessage::Heartbeat)).is_none());
    assert!(r
        .handle_inbound(Some(NetworkMessage::PeerJoined {
            peer_id: "p".to_string(),
            name: "N".to_string(),
        }))
        .is_none());
    assert_eq!(r.state.get_snapshot().posts.len(), 0);
    assert_eq!(r.state.get_snapshot().peers.len(), 0);
}

#[test]
fn lifecycle_maps_onto_directory() {
    let mut r = router();
    let ev = r.handle_lifecycle(LifecycleEvent::Discovered {
        peer_id: "p1".to_string(),
        address: "/ip4/10.0.0.9/tcp/4001".to_string(),
    });
    assert!(matches!(ev, Some(ChangeEvent::PeerJoined { .. })));
    let again = r.handle_lifecycle(LifecycleEvent::Established {
        peer_id: "p1".to_string(),
        address: "/ip4/10.0.0.9/tcp/4001".to_string(),
    });
    assert!(again.is_none());
    let still_connected = r.handle_lifecycle(LifecycleEvent::Closed {
        peer_id: "p1".to_string(),
        remaining: 2,
    });
    assert!(still_connected.is_none());
    assert_eq!(r.state.get_snapshot().peers.len(), 1);
    let gone = r.handle_lifecycle(LifecycleEvent::Closed {
        peer_id: "p1".to_string(),
        remaining: 0,
    });
    assert!(matches!(gone, Some(ChangeEvent::PeerLeft { .. })));
    assert_eq!(r.state.get_snapshot().peers.len(), 0);
}

#[test]
fn expiry_removes_only_present_peers() {
    let mut r = router();
    assert!(r
        .handle_lifecycle(LifecycleEvent::Expired { peer_id: "ghost".to_string() })
        .is_none());
    r.handle_lifecycle(LifecycleEvent::Discovered {
        peer_id: "p1".to_string(),
        address: String::new(),
    });
    let ev = r.handle_lifecycle(LifecycleEvent::Expired { peer_id: "p1".to_string() });
    assert!(matches!(ev, Some(ChangeEvent::PeerLeft { .. })));
}

#[test]
fn route_dispatches_all_four_classes() {
    let mut r = EventRouter::new(
        NetworkState::new(1000, "local".to_string(), "Local".to_string()),
        ReconnectSupervisor::new(
            vec!["/ip4/1.2.3.4/tcp/4001".to_string()],
            None,
        ),
    );
    let out = r.route(RouterInput::Inbound {
        decoded: Some(NetworkMessage::Post(post("a", "x"))),
    });
    assert!(out.event.is_some());
    assert!(out.dials.is_empty());

    let out = r.route(RouterInput::LocalPost { post: post("b", "y"), published: false });
    assert!(out.event.is_some());
    assert!(out.dials.is_empty());

    let out = r.route(RouterInput::Lifecycle {
        event: LifecycleEvent::Discovered {
            peer_id: "p1".to_string(),
            address: String::new(),
        },
    });
    assert!(out.event.is_some());
    assert!(out.dials.is_empty());

    let out = r.route(RouterInput::ReconnectTick);
    assert!(out.event.is_none());
    assert_eq!(out.dials, vec!["/ip4/1.2.3.4/tcp/4001".to_string()]);
}
