//! The event router: the single decision loop of the node. It owns the
//! shared state and the dial plan, and services four input classes —
//! overlay inbound messages, locally submitted posts, overlay connection
//! lifecycle events, and reconnection timer ticks. Every per-event failure
//! (malformed payload, failed publish, failed dial) is absorbed: no input
//! ever terminates the loop, and only the adapter around it performs I/O.

use vstd::prelude::*;
use crate::types::{ChangeEvent, NetworkMessage, PeerInfo, Post};
use crate::feed::{feed_after_add, feed_has_id};
use crate::state::NetworkState;
use crate::supervisor::ReconnectSupervisor;

verus! {

/// A connection lifecycle event from the overlay, mapped 1:1 onto the
/// peer directory. A peer may hold several simultaneous transport-level
/// connections; only the edges to and from zero are directory-visible,
/// which `remaining` reports for closures.
pub enum LifecycleEvent {
    Discovered { peer_id: String, address: String },
    Expired { peer_id: String },
    Established { peer_id: String, address: String },
    Closed { peer_id: String, remaining: u64 },
}

/// One input for the router's decision loop. `Inbound` carries the decoded
/// overlay payload, or nothing when the bytes were malformed or foreign.
/// `LocalPost` carries a post submitted by a local session together with
/// the outcome of the overlay publish attempt that preceded it.
pub enum RouterInput {
    Inbound { decoded: Option<NetworkMessage> },
    LocalPost { post: Post, published: bool },
    Lifecycle { event: LifecycleEvent },
    ReconnectTick,
}

/// What one routing step decided: at most one change event to fan out to
/// session subscribers, and the addresses to dial on the overlay.
pub struct RouterOutput {
    pub event: Option<ChangeEvent>,
    pub dials: Vec<String>,
}

/// The directory transition of an upsert driven by a lifecycle event:
/// insert `peer`, last write wins, and emit `PeerJoined` exactly on the
/// absent-to-present edge. Nothing else changes.
pub open spec fn dir_insert_step(
    pre: NetworkState,
    post: NetworkState,
    peer: PeerInfo,
    ev: Option<ChangeEvent>,
) -> bool {
    &&& pre.only_directory_changed(post)
    &&& post.directory@ == pre.directory@.insert(peer.peer_id@, peer)
    &&& ev == (if pre.directory@.dom().contains(peer.peer_id@) {
        Option::<ChangeEvent>::None
    } else {
        Option::Some(ChangeEvent::PeerJoined { peer_id: peer.peer_id })
    })
}

/// The directory transition of a removal: delete the entry for `id` if
/// present and emit `PeerLeft` exactly on the present-to-absent edge;
/// removing an absent id changes nothing. Nothing else changes.
pub open spec fn dir_remove_step(
    pre: NetworkState,
    post: NetworkState,
    id: Seq<char>,
    ev: Option<ChangeEvent>,
) -> bool {
    &&& pre.only_directory_changed(post)
    &&& post.directory@ == pre.directory@.remove(id)
    &&& pre.directory@.dom().contains(id) ==> (ev matches Option::Some(ChangeEvent::PeerLeft {
        peer_id: p,
    }) && p@ == id)
    &&& !pre.directory@.dom().contains(id) ==> ev is None
}

/// The feed transition of one post arrival on either path: deduplicated,
/// bounded insertion, with exactly one `NewPost` event when the post was
/// actually inserted. Nothing else changes.
pub open spec fn feed_add_step(
    pre: NetworkState,
    post_state: NetworkState,
    p: Post,
    ev: Option<ChangeEvent>,
) -> bool {
    &&& pre.only_feed_changed(post_state)
    &&& post_state.feed.cap() == pre.feed.cap()
    &&& post_state.feed@ == feed_after_add(pre.feed@, pre.feed.cap(), p)
    &&& ev == (if feed_has_id(pre.feed@, p.id@) {
        Option::<ChangeEvent>::None
    } else {
        Option::Some(ChangeEvent::NewPost { post: p })
    })
}

/// The state transition of one overlay inbound message: a decoded post
/// goes to the feed; heartbeats, peer gossip and malformed payloads leave
/// the state untouched and emit nothing — post authorship does not imply
/// directory membership.
pub open spec fn inbound_step(
    pre: NetworkState,
    post_state: NetworkState,
    decoded: Option<NetworkMessage>,
    ev: Option<ChangeEvent>,
) -> bool {
    match decoded {
        Option::Some(NetworkMessage::Post(p)) => feed_add_step(pre, post_state, p, ev),
        _ => post_state == pre && ev is None,
    }
}

/// The state transition of one lifecycle event: discovery and
/// establishment upsert the peer, expiry removes it, and a closure removes
/// it only when it brought the established-connection count to zero.
pub open spec fn lifecycle_step(
    pre: NetworkState,
    post: NetworkState,
    event: LifecycleEvent,
    ev: Option<ChangeEvent>,
) -> bool {
    match event {
        LifecycleEvent::Discovered { peer_id, address } => dir_insert_step(
            pre,
            post,
            (PeerInfo { peer_id, address, name: Option::None, is_browser: false }),
            ev,
        ),
        LifecycleEvent::Established { peer_id, address } => dir_insert_step(
            pre,
            post,
            (PeerInfo { peer_id, address, name: Option::None, is_browser: false }),
            ev,
        ),
        LifecycleEvent::Expired { peer_id } => dir_remove_step(pre, post, peer_id@, ev),
        LifecycleEvent::Closed { peer_id, remaining } => if remaining == 0 {
            dir_remove_step(pre, post, peer_id@, ev)
        } else {
            post == pre && ev is None
        },
    }
}

/// The router: the one owner of the overlay handle's command side. All
/// publish and dial calls the node makes are decided here.
pub struct EventRouter {
    pub state: NetworkState,
    pub supervisor: ReconnectSupervisor,
}

impl EventRouter {
    pub open spec fn wf(self) -> bool {
        self.state.wf()
    }

    pub fn new(state: NetworkState, supervisor: ReconnectSupervisor) -> (r: EventRouter)
        ensures
            r.state == state,
            r.supervisor == supervisor,
    {
        EventRouter { state, supervisor }
    }

    /// Input class 1: an overlay inbound message, already decoded by the
    /// transport adapter (`None` for malformed or foreign bytes, which are
    /// dropped silently).
    pub fn handle_inbound(&mut self, decoded: Option<NetworkMessage>) -> (ev: Option<
        ChangeEvent,
    >)
        requires
            old(self).wf(),
        ensures
            final(self).wf(),
            final(self).supervisor == old(self).supervisor,
            inbound_step(old(self).state, final(self).state, decoded, ev),
    {
        match decoded {
            Some(NetworkMessage::Post(p)) => self.state.add_post(p),
            _ => None,
        }
    }

    /// Input class 2: a locally submitted post. The caller attempted
    /// `publish` on the overlay first and reports the outcome; whatever it
    /// was, the post is added, so the submitter's own feed stays correct
    /// even when the overlay mesh is momentarily empty. The publish
    /// outcome never shows in the feed — only in telemetry outside this
    /// crate.
    pub fn handle_local_post(&mut self, post: Post, published: bool) -> (ev: Option<ChangeEvent>)
        requires
            old(self).wf(),
        ensures
            final(self).wf(),
            final(self).supervisor == old(self).supervisor,
            feed_add_step(old(self).state, final(self).state, post, ev),
            feed_has_id(final(self).state.feed@, post.id@),
    {
        let ghost pre = self.state.feed@;
        let ghost cap = self.state.feed.cap();
        let ghost p = post;
        let ev = self.state.add_post(post);
        proof {
            crate::feed::lemma_add_idempotent(pre, cap, p);
        }
        let _ = published;
        ev
    }

    /// Input class 3: an overlay connection lifecycle event, mapped 1:1
    /// onto the peer directory.
    pub fn handle_lifecycle(&mut self, event: LifecycleEvent) -> (ev: Option<ChangeEvent>)
        requires
            old(self).wf(),
        ensures
            final(self).wf(),
            final(self).supervisor == old(self).supervisor,
            lifecycle_step(old(self).state, final(self).state, event, ev),
    {
        match event {
            LifecycleEvent::Discovered { peer_id, address } => self.state.add_peer(
                PeerInfo { peer_id, address, name: None, is_browser: false },
            ),
            LifecycleEvent::Established { peer_id, address } => self.state.add_peer(
                PeerInfo { peer_id, address, name: None, is_browser: false },
            ),
            LifecycleEvent::Expired { peer_id } => self.state.remove_peer(peer_id.as_str()),
            LifecycleEvent::Closed { peer_id, remaining } => {
                if remaining == 0 {
                    self.state.remove_peer(peer_id.as_str())
                } else {
                    None
                }
            },
        }
    }

    /// Input class 4: a reconnection timer tick. Produces no feed or
    /// directory mutation, only dial requests.
    pub fn handle_tick(&self) -> (dials: Vec<String>)
        ensures
            dials@ == self.supervisor.dial_plan(),
    {
        self.supervisor.dials_on_tick()
    }

    /// One turn of the decision loop: apply one input of any class and
    /// return what to fan out and what to dial. The adapter around the
    /// loop performs the sends; nothing here blocks or fails.
    pub fn route(&mut self, input: RouterInput) -> (out: RouterOutput)
        requires
            old(self).wf(),
        ensures
            final(self).wf(),
            final(self).supervisor == old(self).supervisor,
            (input matches RouterInput::Inbound { decoded } ==> inbound_step(
                old(self).state,
                final(self).state,
                decoded,
                out.event,
            ) && out.dials@ == Seq::<String>::empty()),
            (input matches RouterInput::LocalPost { post, published } ==> feed_add_step(
                old(self).state,
                final(self).state,
                post,
                out.event,
            ) && feed_has_id(final(self).state.feed@, post.id@) && out.dials@ == Seq::<
                String,
            >::empty()),
            (input matches RouterInput::Lifecycle { event } ==> lifecycle_step(
                old(self).state,
                final(self).state,
                event,
                out.event,
            ) && out.dials@ == Seq::<String>::empty()),
            (input matches RouterInput::ReconnectTick ==> final(self).state == old(self).state
                && out.event is None && out.dials@ == old(self).supervisor.dial_plan()),
    {
        match input {
            RouterInput::Inbound { decoded } => {
                let event = self.handle_inbound(decoded);
                RouterOutput { event, dials: Vec::new() }
            },
            RouterInput::LocalPost { post, published } => {
                let event = self.handle_local_post(post, published);
                RouterOutput { event, dials: Vec::new() }
            },
            RouterInput::Lifecycle { event } => {
                let event = self.handle_lifecycle(event);
                RouterOutput { event, dials: Vec::new() }
            },
            RouterInput::ReconnectTick => {
                let dials = self.handle_tick();
                RouterOutput { event: None, dials }
            },
        }
    }
}

} // verus!
