//! The peer directory: a mapping from peer id to liveness metadata that owns
//! the join/leave transitions. Presence of an entry means "currently
//! considered connected". Upserts are last-write-wins and edge-triggered:
//! `PeerJoined` is emitted only on the absent-to-present edge, `PeerLeft`
//! only on the present-to-absent edge.

use vstd::prelude::*;
use crate::types::PeerInfo;

verus! {

/// Whether `s` holds an entry for peer id `id`.
pub open spec fn dir_has_id(s: Seq<PeerInfo>, id: Seq<char>) -> bool {
    exists|i: int| 0 <= i < s.len() && s[i].peer_id@ == id
}

/// Whether the peer ids in `s` are pairwise distinct.
pub open spec fn dir_ids_unique(s: Seq<PeerInfo>) -> bool {
    forall|i: int, j: int| 0 <= i < j < s.len() ==> s[i].peer_id@ != s[j].peer_id@
}

/// The position of the entry for `id`, where one exists.
pub open spec fn dir_index_of(s: Seq<PeerInfo>, id: Seq<char>) -> int {
    choose|i: int| 0 <= i < s.len() && s[i].peer_id@ == id
}

/// The entries as a map from peer id to entry.
pub open spec fn dir_as_map(s: Seq<PeerInfo>) -> Map<Seq<char>, PeerInfo> {
    Map::new(|id: Seq<char>| dir_has_id(s, id), |id: Seq<char>| s[dir_index_of(s, id)])
}

/// With unique ids, any entry holding `id` stands at `dir_index_of`.
proof fn lemma_index_of_entry(s: Seq<PeerInfo>, i: int)
    requires
        dir_ids_unique(s),
        0 <= i < s.len(),
    ensures
        dir_index_of(s, s[i].peer_id@) == i,
{
    let id = s[i].peer_id@;
    assert(dir_has_id(s, id));
    let j = dir_index_of(s, id);
    assert(0 <= j < s.len() && s[j].peer_id@ == id);
    if i < j {
        assert(s[i].peer_id@ != s[j].peer_id@);
    } else if j < i {
        assert(s[j].peer_id@ != s[i].peer_id@);
    }
}

/// The peer directory. The entry order is insertion order, but callers see
/// a map: `list` order is not significant.
pub struct PeerDirectory {
    peers: Vec<PeerInfo>,
}

impl View for PeerDirectory {
    type V = Map<Seq<char>, PeerInfo>;

    closed spec fn view(&self) -> Map<Seq<char>, PeerInfo> {
        dir_as_map(self.peers@)
    }
}

impl PeerDirectory {
    /// The stored entries, in insertion order.
    pub closed spec fn entries(self) -> Seq<PeerInfo> {
        self.peers@
    }

    /// Invariant: peer ids are unique within the directory.
    pub open spec fn wf(self) -> bool {
        dir_ids_unique(self.entries())
    }

    pub fn new() -> (r: PeerDirectory)
        ensures
            r.wf(),
            r.entries() == Seq::<PeerInfo>::empty(),
            r@ == Map::<Seq<char>, PeerInfo>::empty(),
    {
        let r = PeerDirectory { peers: Vec::new() };
        proof {
            assert(r@ =~= Map::<Seq<char>, PeerInfo>::empty());
        }
        r
    }

    /// The position of the entry for `id`, or the entry count when absent.
    fn find(&self, id: &str) -> (r: usize)
        ensures
            r <= self.entries().len(),
            r == self.entries().len() ==> !dir_has_id(self.entries(), id@),
            r < self.entries().len() ==> self.entries()[r as int].peer_id@ == id@,
    {
        let key: String = id.to_owned();
        let mut i: usize = 0;
        while i < self.peers.len()
            invariant
                key@ == id@,
                i <= self.peers@.len(),
                forall|k: int| 0 <= k < i ==> self.peers@[k].peer_id@ != id@,
            decreases self.peers@.len() - i,
        {
            if self.peers[i].peer_id == key {
                return i;
            }
            i += 1;
        }
        i
    }

    /// Whether an entry for this peer id is present.
    pub fn contains(&self, id: &str) -> (r: bool)
        ensures
            r == self@.dom().contains(id@),
    {
        let i = self.find(id);
        i < self.peers.len()
    }

    /// Insert or overwrite the entry for `peer.peer_id`, last write wins.
    /// Returns whether the id was previously absent — the join edge: the
    /// caller emits `PeerJoined` exactly when this is true, so repeated
    /// upserts of a still-present peer never re-emit it.
    pub fn upsert(&mut self, peer: PeerInfo) -> (joined: bool)
        requires
            old(self).wf(),
        ensures
            final(self).wf(),
            joined == !old(self)@.dom().contains(peer.peer_id@),
            final(self)@ == old(self)@.insert(peer.peer_id@, peer),
            joined ==> final(self).entries() == old(self).entries().push(peer),
            !joined ==> final(self).entries() == old(self).entries().update(
                dir_index_of(old(self).entries(), peer.peer_id@),
                peer,
            ),
    {
        let ghost prev = self.peers@;
        let ghost id = peer.peer_id@;
        let i = self.find(peer.peer_id.as_str());
        let joined = i == self.peers.len();
        if joined {
            self.peers.push(peer);
        } else {
            proof {
                lemma_index_of_entry(prev, i as int);
            }
            self.peers.set(i, peer);
        }
        proof {
            lemma_upsert_view(prev, self.peers@, peer, i as int);
        }
        joined
    }

    /// Delete the entry for `peer_id` if present. Returns whether it was
    /// present — the leave edge: the caller emits `PeerLeft` exactly when
    /// this is true, so removing an absent id is a silent no-op.
    pub fn remove(&mut self, peer_id: &str) -> (left: bool)
        requires
            old(self).wf(),
        ensures
            final(self).wf(),
            left == old(self)@.dom().contains(peer_id@),
            final(self)@ == old(self)@.remove(peer_id@),
            left ==> final(self).entries() == old(self).entries().remove(
                dir_index_of(old(self).entries(), peer_id@),
            ),
            !left ==> final(self).entries() == old(self).entries(),
    {
        let ghost prev = self.peers@;
        let i = self.find(peer_id);
        if i == self.peers.len() {
            proof {
                assert(self@ =~= old(self)@.remove(peer_id@));
            }
            false
        } else {
            proof {
                lemma_index_of_entry(prev, i as int);
            }
            self.peers.remove(i);
            proof {
                lemma_remove_view(prev, self.peers@, i as int);
            }
            true
        }
    }

    /// A read-consistent copy of all entries; order is not significant.
    pub fn list(&self) -> (r: Vec<PeerInfo>)
        ensures
            r@ == self.entries(),
    {
        let mut r: Vec<PeerInfo> = Vec::new();
        let mut i: usize = 0;
        while i < self.peers.len()
            invariant
                i <= self.peers@.len(),
                r@ == self.peers@.take(i as int),
            decreases self.peers@.len() - i,
        {
            r.push(self.peers[i].clone());
            assert(r@ =~= self.peers@.take(i + 1));
            i += 1;
        }
        assert(r@ =~= self.peers@);
        r
    }

    /// The number of connected peers.
    pub fn len(&self) -> (n: usize)
        ensures
            n == self.entries().len(),
    {
        self.peers.len()
    }
}

/// The map view is exactly the stored entries keyed by peer id: what a
/// contract states of `d@` and what it states of `d.entries()` speak of
/// the same directory.
pub proof fn lemma_view_is_entries_map(d: PeerDirectory)
    ensures
        d@ == dir_as_map(d.entries()),
{
}

/// Law (directory edge-triggering): an upsert makes the peer id present, so
/// any later upsert of the same still-present id reports no join — however
/// often it is repeated, `PeerJoined` is emitted exactly once, on the
/// absent-to-present edge. And removing an absent id changes nothing, so it
/// never emits `PeerLeft`.
pub proof fn lemma_edge_triggering(m: Map<Seq<char>, PeerInfo>, p: PeerInfo, q: PeerInfo)
    requires
        q.peer_id@ == p.peer_id@,
    ensures
        m.insert(p.peer_id@, p).dom().contains(q.peer_id@),
        m.insert(p.peer_id@, p).insert(q.peer_id@, q).dom().contains(q.peer_id@),
        !m.dom().contains(p.peer_id@) ==> m.remove(p.peer_id@) == m,
{
    if !m.dom().contains(p.peer_id@) {
        assert(m.remove(p.peer_id@) =~= m);
    }
}

/// An upsert of `peer` (push when absent, overwrite in place when present)
/// turns the map view into `insert` and keeps ids unique.
proof fn lemma_upsert_view(prev: Seq<PeerInfo>, cur: Seq<PeerInfo>, peer: PeerInfo, i: int)
    requires
        dir_ids_unique(prev),
        0 <= i <= prev.len(),
        i < prev.len() ==> prev[i].peer_id@ == peer.peer_id@ && cur == prev.update(i, peer),
        i == prev.len() ==> !dir_has_id(prev, peer.peer_id@) && cur == prev.push(peer),
    ensures
        dir_ids_unique(cur),
        dir_as_map(cur) == dir_as_map(prev).insert(peer.peer_id@, peer),
{
    let id = peer.peer_id@;
    assert(cur.len() == if i < prev.len() { prev.len() as int } else { prev.len() + 1 as int });
    assert(forall|k: int| 0 <= k < cur.len() && k != i ==> cur[k] == prev[k]);
    assert(cur[i] == peer);
    assert(dir_ids_unique(cur)) by {
        if i < prev.len() {
            assert(forall|p: int| 0 <= p < cur.len() ==> cur[p].peer_id@ == prev[p].peer_id@);
        } else {
            assert(forall|p: int| 0 <= p < prev.len() ==> cur[p].peer_id@ != id);
        }
    }
    assert forall|k: Seq<char>| #[trigger] dir_has_id(cur, k) implies dir_has_id(prev, k) || k
        == id by {
        let j = choose|j: int| 0 <= j < cur.len() && cur[j].peer_id@ == k;
        if j != i {
            assert(prev[j].peer_id@ == k);
        }
    }
    assert forall|k: Seq<char>| #[trigger] dir_has_id(prev, k) && k != id implies dir_has_id(
        cur,
        k,
    ) by {
        let j = choose|j: int| 0 <= j < prev.len() && prev[j].peer_id@ == k;
        assert(j != i);
        assert(cur[j].peer_id@ == k);
    }
    assert(dir_has_id(cur, id)) by {
        assert(cur[i].peer_id@ == id);
    }
    assert forall|k: Seq<char>| #[trigger] dir_has_id(cur, k) implies dir_as_map(cur)[k]
        == dir_as_map(prev).insert(id, peer)[k] by {
        let j = dir_index_of(cur, k);
        assert(0 <= j < cur.len() && cur[j].peer_id@ == k);
        lemma_index_of_entry(cur, j);
        if k == id {
            lemma_index_of_entry(cur, i);
            assert(j == i);
        } else {
            assert(j != i);
            assert(prev[j].peer_id@ == k);
            lemma_index_of_entry(prev, j);
            assert(dir_as_map(prev)[k] == prev[j]);
        }
    }
    assert(dir_as_map(cur) =~= dir_as_map(prev).insert(id, peer));
}

/// Removing the entry at `i` turns the map view into `remove` and keeps ids
/// unique.
proof fn lemma_remove_view(prev: Seq<PeerInfo>, cur: Seq<PeerInfo>, i: int)
    requires
        dir_ids_unique(prev),
        0 <= i < prev.len(),
        cur == prev.remove(i),
    ensures
        dir_ids_unique(cur),
        dir_as_map(cur) == dir_as_map(prev).remove(prev[i].peer_id@),
{
    let id = prev[i].peer_id@;
    assert(forall|k: int| 0 <= k < i ==> cur[k] == prev[k]);
    assert(forall|k: int| i <= k < cur.len() ==> cur[k] == prev[k + 1]);
    assert(dir_ids_unique(cur)) by {
        assert forall|p: int, q: int| 0 <= p < q < cur.len() implies cur[p].peer_id@
            != cur[q].peer_id@ by {
            let p0 = if p < i { p } else { p + 1 };
            let q0 = if q < i { q } else { q + 1 };
            assert(cur[p] == prev[p0] && cur[q] == prev[q0]);
            assert(prev[p0].peer_id@ != prev[q0].peer_id@);
        }
    }
    assert forall|k: Seq<char>| #[trigger] dir_has_id(cur, k) implies dir_has_id(prev, k) && k
        != id by {
        let j = choose|j: int| 0 <= j < cur.len() && cur[j].peer_id@ == k;
        let j0 = if j < i { j } else { j + 1 };
        assert(prev[j0].peer_id@ == k);
        assert(j0 != i);
        assert(prev[j0].peer_id@ != prev[i].peer_id@);
    }
    assert forall|k: Seq<char>| #[trigger] dir_has_id(prev, k) && k != id implies dir_has_id(
        cur,
        k,
    ) by {
        let j = choose|j: int| 0 <= j < prev.len() && prev[j].peer_id@ == k;
        assert(j != i);
        if j < i {
            assert(cur[j].peer_id@ == k);
        } else {
            assert(cur[j - 1].peer_id@ == k);
        }
    }
    assert forall|k: Seq<char>| #[trigger] dir_has_id(cur, k) implies dir_as_map(cur)[k]
        == dir_as_map(prev)[k] by {
        let j = dir_index_of(cur, k);
        assert(0 <= j < cur.len() && cur[j].peer_id@ == k);
        lemma_index_of_entry(cur, j);
        if j < i {
            lemma_index_of_entry(prev, j);
        } else {
            assert(prev[j + 1].peer_id@ == k);
            lemma_index_of_entry(prev, j + 1);
        }
    }
    assert(dir_as_map(cur) =~= dir_as_map(prev).remove(id));
}

} // verus!
