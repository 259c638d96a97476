//! The shared node state: the feed store and the peer directory behind one
//! owner, with the mutation entry points that decide which change event, if
//! any, each mutation fans out. The transport adapter broadcasts the
//! returned events to session subscribers; the state itself never talks to
//! a socket.

use vstd::prelude::*;
use crate::types::{ChangeEvent, PeerInfo, Post};
use crate::feed::{FeedStore, feed_after_add, feed_has_id};
use crate::directory::{dir_index_of, PeerDirectory};

verus! {

/// A read-consistent copy of both collections, taken under the same owner,
/// so a new session sees peers and posts from one moment.
pub struct Snapshot {
    pub peers: Vec<PeerInfo>,
    pub posts: Vec<Post>,
}

/// The node's replicated state and identity.
pub struct NetworkState {
    pub feed: FeedStore,
    pub directory: PeerDirectory,
    pub local_peer_id: String,
    pub local_name: String,
}

impl NetworkState {
    pub open spec fn wf(self) -> bool {
        &&& self.feed.wf()
        &&& self.directory.wf()
    }

    /// Everything but the feed is unchanged.
    pub open spec fn only_feed_changed(self, other: NetworkState) -> bool {
        &&& self.directory == other.directory
        &&& self.local_peer_id == other.local_peer_id
        &&& self.local_name == other.local_name
    }

    /// Everything but the directory is unchanged.
    pub open spec fn only_directory_changed(self, other: NetworkState) -> bool {
        &&& self.feed == other.feed
        &&& self.local_peer_id == other.local_peer_id
        &&& self.local_name == other.local_name
    }

    pub fn new(cap: usize, local_peer_id: String, local_name: String) -> (r: NetworkState)
        requires
            cap >= 1,
        ensures
            r.wf(),
            r.feed@ == Seq::<Post>::empty(),
            r.feed.cap() == cap,
            r.directory@ == Map::<Seq<char>, PeerInfo>::empty(),
            r.directory.entries() == Seq::<PeerInfo>::empty(),
            r.local_peer_id == local_peer_id,
            r.local_name == local_name,
    {
        NetworkState {
            feed: FeedStore::new(cap),
            directory: PeerDirectory::new(),
            local_peer_id,
            local_name,
        }
    }

    /// Insert or overwrite a peer entry; emits `PeerJoined` only on the
    /// absent-to-present edge.
    pub fn add_peer(&mut self, peer_info: PeerInfo) -> (ev: Option<ChangeEvent>)
        requires
            old(self).wf(),
        ensures
            final(self).wf(),
            old(self).only_directory_changed(*final(self)),
            final(self).directory@ == old(self).directory@.insert(
                peer_info.peer_id@,
                peer_info,
            ),
            !old(self).directory@.dom().contains(peer_info.peer_id@) ==> final(
                self).directory.entries() == old(self).directory.entries().push(peer_info),
            old(self).directory@.dom().contains(peer_info.peer_id@) ==> final(
                self).directory.entries() == old(self).directory.entries().update(
                dir_index_of(old(self).directory.entries(), peer_info.peer_id@),
                peer_info,
            ),
            ev == (if old(self).directory@.dom().contains(peer_info.peer_id@) {
                Option::<ChangeEvent>::None
            } else {
                Option::Some(ChangeEvent::PeerJoined { peer_id: peer_info.peer_id })
            }),
    {
        let id = peer_info.peer_id.clone();
        let joined = self.directory.upsert(peer_info);
        if joined {
            Some(ChangeEvent::PeerJoined { peer_id: id })
        } else {
            None
        }
    }

    /// Delete a peer entry if present; emits `PeerLeft` only on the
    /// present-to-absent edge. Removing an absent id is a silent no-op.
    pub fn remove_peer(&mut self, peer_id: &str) -> (ev: Option<ChangeEvent>)
        requires
            old(self).wf(),
        ensures
            final(self).wf(),
            old(self).only_directory_changed(*final(self)),
            final(self).directory@ == old(self).directory@.remove(peer_id@),
            old(self).directory@.dom().contains(peer_id@) ==> final(self).directory.entries()
                == old(self).directory.entries().remove(
                dir_index_of(old(self).directory.entries(), peer_id@),
            ),
            !old(self).directory@.dom().contains(peer_id@) ==> final(self).directory.entries()
                == old(self).directory.entries(),
            old(self).directory@.dom().contains(peer_id@) ==> (ev matches Option::Some(
                ChangeEvent::PeerLeft { peer_id: p },
            ) && p@ == peer_id@),
            !old(self).directory@.dom().contains(peer_id@) ==> ev is None,
    {
        let left = self.directory.remove(peer_id);
        if left {
            Some(ChangeEvent::PeerLeft { peer_id: peer_id.to_owned() })
        } else {
            None
        }
    }

    /// Add a post to the feed, deduplicated by id and bounded; emits
    /// exactly one `NewPost` when the post was actually inserted, none when
    /// its id had been seen before.
    pub fn add_post(&mut self, post: Post) -> (ev: Option<ChangeEvent>)
        requires
            old(self).wf(),
        ensures
            final(self).wf(),
            old(self).only_feed_changed(*final(self)),
            final(self).feed.cap() == old(self).feed.cap(),
            final(self).feed@ == feed_after_add(old(self).feed@, old(self).feed.cap(), post),
            ev == (if feed_has_id(old(self).feed@, post.id@) {
                Option::<ChangeEvent>::None
            } else {
                Option::Some(ChangeEvent::NewPost { post: post })
            }),
    {
        let copy = post.clone();
        let added = self.feed.add(post);
        if added {
            Some(ChangeEvent::NewPost { post: copy })
        } else {
            None
        }
    }

    /// A consistent copy of the peer list and the post list, with no live
    /// aliasing against future mutations.
    pub fn get_snapshot(&self) -> (s: Snapshot)
        ensures
            s.peers@ == self.directory.entries(),
            s.posts@ == self.feed@,
    {
        Snapshot { peers: self.directory.list(), posts: self.feed.snapshot() }
    }
}

} // verus!
