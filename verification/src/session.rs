//! The session bridge: the per-client state machine between a local
//! session's wire protocol and the router's internal paths. A session is
//! Active from open until close; opening registers a synthetic peer and
//! hands the new subscriber its one-time `Init` snapshot, closing removes
//! the peer again. While active, inbound frames become commands and
//! change events are forwarded outward by the transport adapter.

use vstd::prelude::*;
use crate::types::{ChangeEvent, PeerInfo, Post};
use crate::fresh::{create_post, fresh_session_peer_id};
use crate::state::NetworkState;

verus! {

/// An inbound client frame, after the transport adapter parsed the JSON
/// text: the tag plus the optional fields the tagged commands use.
pub struct ClientFrame {
    pub msg_type: String,
    pub content: Option<String>,
    pub author_name: Option<String>,
}

/// What the bridge decided for one inbound frame.
#[derive(Debug)]
pub enum FrameAction {
    /// Forward a freshly built post into the router's local-submission
    /// path.
    Submit(Post),
    /// Answer a liveness probe immediately.
    Pong,
    /// Unrecognized or incomplete frame: ignored, never fatal.
    Ignore,
}

/// What opening a session produced: the bridge itself, the `PeerJoined`
/// event to broadcast (when the synthetic id was new), and the `Init`
/// snapshot to send to this one subscriber only — never broadcast.
pub struct SessionStart {
    pub bridge: SessionBridge,
    pub joined: Option<ChangeEvent>,
    pub init: ChangeEvent,
}

/// One client session. `active` falls on client disconnect, a close
/// frame, or a send failure; the terminal state removes the synthetic
/// peer.
pub struct SessionBridge {
    pub peer_id: String,
    pub active: bool,
}

impl SessionBridge {
    /// Enter the Active state: mint a synthetic peer id in the reserved
    /// session namespace, upsert it into the directory, and take the
    /// one-time snapshot of peers and posts for the `Init` event. The
    /// snapshot is taken after the upsert, so it already lists this
    /// session, and the subscriber needs no replay of earlier history.
    pub fn open(state: &mut NetworkState) -> (r: SessionStart)
        requires
            old(state).wf(),
        ensures
            final(state).wf(),
            r.bridge.active,
            r.bridge.peer_id@.len() == 16,
            r.bridge.peer_id@.subrange(0, 8) == "browser-"@,
            old(state).only_directory_changed(*final(state)),
            final(state).directory@.dom().contains(r.bridge.peer_id@),
            final(state).directory@[r.bridge.peer_id@].peer_id == r.bridge.peer_id,
            final(state).directory@[r.bridge.peer_id@].address@ == "websocket"@,
            (final(state).directory@[r.bridge.peer_id@].name matches Option::Some(n) && n@
                == "Navigateur"@),
            final(state).directory@[r.bridge.peer_id@].is_browser,
            final(state).directory@.remove(r.bridge.peer_id@) == old(state).directory@.remove(
                r.bridge.peer_id@,
            ),
            r.joined == (if old(state).directory@.dom().contains(r.bridge.peer_id@) {
                Option::<ChangeEvent>::None
            } else {
                Option::Some(ChangeEvent::PeerJoined { peer_id: r.bridge.peer_id })
            }),
            (r.init matches ChangeEvent::Init { peer_id, peers, posts } && peer_id
                == r.bridge.peer_id && peers@ == final(state).directory.entries() && posts@
                == final(state).feed@),
    {
        let id = fresh_session_peer_id();
        let info = PeerInfo {
            peer_id: id.clone(),
            address: "websocket".to_owned(),
            name: Some("Navigateur".to_owned()),
            is_browser: true,
        };
        let joined = state.add_peer(info);
        let snap = state.get_snapshot();
        let init = ChangeEvent::Init { peer_id: id.clone(), peers: snap.peers, posts: snap.posts };
        proof {
            assert(state.directory@.remove(id@) =~= old(state).directory@.remove(id@));
        }
        SessionStart { bridge: SessionBridge { peer_id: id, active: true }, joined, init }
    }

    /// Decide one inbound frame while Active: a complete `post` frame
    /// becomes a fresh post authored by this session, a `ping` frame is
    /// answered with a pong, and everything else — unknown tags, or a
    /// `post` frame missing its fields — is ignored.
    pub fn handle_frame(&self, frame: ClientFrame) -> (action: FrameAction)
        ensures
            (frame.msg_type@ == "post"@ && frame.content is Some && frame.author_name is Some
                ==> (action matches FrameAction::Submit(p) && p.id@.len() == 36 && p.author@
                == self.peer_id@ && p.author_name == frame.author_name.unwrap() && p.content
                == frame.content.unwrap())),
            (frame.msg_type@ == "post"@ && !(frame.content is Some && frame.author_name is Some)
                ==> action is Ignore),
            frame.msg_type@ == "ping"@ ==> action is Pong,
            frame.msg_type@ != "post"@ && frame.msg_type@ != "ping"@ ==> action is Ignore,
    {
        proof {
            reveal_strlit("post");
            reveal_strlit("ping");
            assert("post"@ != "ping"@) by {
                assert("post"@[1] != "ping"@[1]);
            }
        }
        let post_tag: String = "post".to_owned();
        let ping_tag: String = "ping".to_owned();
        if frame.msg_type == post_tag {
            match (frame.content, frame.author_name) {
                (Some(content), Some(author_name)) => {
                    let p = create_post(self.peer_id.as_str(), author_name, content);
                    FrameAction::Submit(p)
                },
                _ => FrameAction::Ignore,
            }
        } else if frame.msg_type == ping_tag {
            FrameAction::Pong
        } else {
            FrameAction::Ignore
        }
    }

    /// Enter the terminal Closed state: remove the synthetic peer, which
    /// emits `PeerLeft` exactly when it was still present.
    pub fn close(&mut self, state: &mut NetworkState) -> (ev: Option<ChangeEvent>)
        requires
            old(state).wf(),
        ensures
            final(state).wf(),
            !final(self).active,
            final(self).peer_id == old(self).peer_id,
            old(state).only_directory_changed(*final(state)),
            final(state).directory@ == old(state).directory@.remove(old(self).peer_id@),
            old(state).directory@.dom().contains(old(self).peer_id@) ==> (ev matches
                Option::Some(ChangeEvent::PeerLeft { peer_id: p }) && p@ == old(self).peer_id@),
            !old(state).directory@.dom().contains(old(self).peer_id@) ==> ev is None,
    {
        self.active = false;
        state.remove_peer(self.peer_id.as_str())
    }
}

} // verus!
