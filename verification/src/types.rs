//! The data the node replicates and the change events it fans out.

use vstd::prelude::*;

verus! {

/// A single feed entry. A post is immutable once created and is identified
/// by `id` alone: the feed store never holds two posts with the same id.
#[derive(Debug, PartialEq, Eq)]
pub struct Post {
    pub id: String,
    pub author: String,
    pub author_name: String,
    pub content: String,
    pub timestamp: i64,
}

impl Clone for Post {
    fn clone(&self) -> (res: Self)
        ensures
            res == *self,
    {
        Post {
            id: self.id.clone(),
            author: self.author.clone(),
            author_name: self.author_name.clone(),
            content: self.content.clone(),
            timestamp: self.timestamp,
        }
    }
}

/// What travels on the overlay topic, once the transport adapter has decoded
/// the raw bytes. Malformed bytes decode to nothing and are dropped before
/// they reach the router.
#[derive(Debug, PartialEq, Eq)]
pub enum NetworkMessage {
    Post(Post),
    Heartbeat,
    PeerJoined { peer_id: String, name: String },
    PeerLeft { peer_id: String },
}

impl Clone for NetworkMessage {
    fn clone(&self) -> (res: Self)
        ensures
            res == *self,
    {
        match self {
            NetworkMessage::Post(p) => NetworkMessage::Post(p.clone()),
            NetworkMessage::Heartbeat => NetworkMessage::Heartbeat,
            NetworkMessage::PeerJoined { peer_id, name } => NetworkMessage::PeerJoined {
                peer_id: peer_id.clone(),
                name: name.clone(),
            },
            NetworkMessage::PeerLeft { peer_id } => NetworkMessage::PeerLeft {
                peer_id: peer_id.clone(),
            },
        }
    }
}

/// Directory entry for a currently connected peer: either a remote overlay
/// participant or a local client session (`is_browser`, whose synthetic peer
/// id lives in a reserved namespace and is never dialed).
#[derive(Debug, PartialEq, Eq)]
pub struct PeerInfo {
    pub peer_id: String,
    pub address: String,
    pub name: Option<String>,
    pub is_browser: bool,
}

impl Clone for PeerInfo {
    fn clone(&self) -> (res: Self)
        ensures
            res == *self,
    {
        let name = match &self.name {
            Some(n) => Some(n.clone()),
            None => None,
        };
        PeerInfo {
            peer_id: self.peer_id.clone(),
            address: self.address.clone(),
            name,
            is_browser: self.is_browser,
        }
    }
}

/// A feed store or peer directory mutation, delivered best-effort to session
/// subscribers. `Init` is the one-time, per-session snapshot sent to a newly
/// joined session only; the other variants are broadcast.
#[derive(Debug, PartialEq, Eq)]
pub enum ChangeEvent {
    PeerJoined { peer_id: String },
    PeerLeft { peer_id: String },
    NewPost { post: Post },
    Init { peer_id: String, peers: Vec<PeerInfo>, posts: Vec<Post> },
}

} // verus!
