//! The feed store: a deduplicated, bounded, insertion-ordered collection of
//! posts, newest first. It is the single source of truth for "what has been
//! seen", fed concurrently from the overlay and from local sessions; its
//! duplicate suppression by id is what gives at-most-once-visible insertion
//! when the same post arrives on both paths.

use vstd::prelude::*;
use vstd::math::min;
use crate::types::Post;

verus! {

/// Whether `s` holds a post with id `id`.
pub open spec fn feed_has_id(s: Seq<Post>, id: Seq<char>) -> bool {
    exists|i: int| 0 <= i < s.len() && s[i].id@ == id
}

/// Whether the ids in `s` are pairwise distinct.
pub open spec fn feed_ids_unique(s: Seq<Post>) -> bool {
    forall|i: int, j: int| 0 <= i < j < s.len() ==> s[i].id@ != s[j].id@
}

/// The mathematical result of one `add`: a no-op when a post with the same
/// id is already present, otherwise an insertion at the front, dropping the
/// oldest entries until at most `cap` remain.
pub open spec fn feed_after_add(s: Seq<Post>, cap: nat, p: Post) -> Seq<Post> {
    if feed_has_id(s, p.id@) {
        s
    } else if s.len() < cap {
        seq![p] + s
    } else {
        (seq![p] + s).take(cap as int)
    }
}

/// Bounded, deduplicated post sequence, newest first. Arrival order is
/// authoritative for display: entries are never reordered, only evicted
/// oldest-first once the fixed capacity is exceeded.
pub struct FeedStore {
    posts: Vec<Post>,
    cap: usize,
}

impl View for FeedStore {
    type V = Seq<Post>;

    closed spec fn view(&self) -> Seq<Post> {
        self.posts@
    }
}

impl FeedStore {
    /// The fixed maximum number of stored posts.
    pub closed spec fn cap(self) -> nat {
        self.cap as nat
    }

    /// Invariant: ids strictly unique and size within the capacity.
    pub open spec fn wf(self) -> bool {
        &&& self.cap() >= 1
        &&& self@.len() <= self.cap()
        &&& feed_ids_unique(self@)
    }

    pub fn new(cap: usize) -> (r: FeedStore)
        requires
            cap >= 1,
        ensures
            r.wf(),
            r@ == Seq::<Post>::empty(),
            r.cap() == cap,
    {
        FeedStore { posts: Vec::new(), cap }
    }

    /// Whether a post with this id is already stored.
    pub fn contains_id(&self, id: &str) -> (r: bool)
        ensures
            r == feed_has_id(self@, id@),
    {
        let key: String = id.to_owned();
        let mut i: usize = 0;
        while i < self.posts.len()
            invariant
                key@ == id@,
                i <= self.posts@.len(),
                forall|k: int| 0 <= k < i ==> self.posts@[k].id@ != id@,
            decreases self.posts@.len() - i,
        {
            if self.posts[i].id == key {
                return true;
            }
            i += 1;
        }
        false
    }

    /// Insert `post` at the front unless a post with its id is already
    /// stored; evict the oldest entries once the capacity is exceeded.
    /// Returns whether the post was inserted — the caller emits exactly one
    /// `NewPost` change event when it was.
    pub fn add(&mut self, post: Post) -> (added: bool)
        requires
            old(self).wf(),
        ensures
            final(self).wf(),
            final(self).cap() == old(self).cap(),
            added == !feed_has_id(old(self)@, post.id@),
            final(self)@ == feed_after_add(old(self)@, old(self).cap(), post),
    {
        if self.contains_id(post.id.as_str()) {
            return false;
        }
        self.posts.insert(0, post);
        assert(self.posts@ =~= seq![post] + old(self)@);
        if self.posts.len() > self.cap {
            self.posts.truncate(self.cap);
        }
        assert(feed_ids_unique(self.posts@)) by {
            assert(forall|i: int, j: int|
                0 <= i < j < self.posts@.len() ==> self.posts@[i].id@ != self.posts@[j].id@) by {
                assert(forall|k: int| 0 < k < (seq![post] + old(self)@).len()
                    ==> (seq![post] + old(self)@)[k] == old(self)@[k - 1]);
            }
        }
        true
    }

    /// A read-consistent copy of the stored posts, newest first, with no
    /// aliasing against future mutations.
    pub fn snapshot(&self) -> (r: Vec<Post>)
        ensures
            r@ == self@,
    {
        let mut r: Vec<Post> = Vec::new();
        let mut i: usize = 0;
        while i < self.posts.len()
            invariant
                i <= self.posts@.len(),
                r@ == self.posts@.take(i as int),
            decreases self.posts@.len() - i,
        {
            r.push(self.posts[i].clone());
            assert(r@ =~= self.posts@.take(i + 1));
            i += 1;
        }
        assert(r@ =~= self.posts@);
        r
    }

    /// The number of stored posts.
    pub fn len(&self) -> (n: usize)
        ensures
            n == self@.len(),
    {
        self.posts.len()
    }
}

/// Law (idempotent insertion): adding the same post twice stores exactly one
/// copy — the second add finds the id present, changes nothing, and reports
/// no insertion, so exactly one `NewPost` event is ever emitted for it.
pub proof fn lemma_add_idempotent(s: Seq<Post>, cap: nat, p: Post)
    requires
        cap >= 1,
    ensures
        feed_has_id(feed_after_add(s, cap, p), p.id@),
        feed_after_add(feed_after_add(s, cap, p), cap, p) == feed_after_add(s, cap, p),
{
    if !feed_has_id(s, p.id@) {
        let t = feed_after_add(s, cap, p);
        assert(t[0] == p);
        assert(feed_has_id(t, p.id@));
    }
}

/// The store after adding each post of `ps` in order, oldest submission
/// first.
pub open spec fn feed_after_adds(s: Seq<Post>, cap: nat, ps: Seq<Post>) -> Seq<Post>
    decreases ps.len(),
{
    if ps.len() == 0 {
        s
    } else {
        feed_after_adds(feed_after_add(s, cap, ps[0]), cap, ps.skip(1))
    }
}

/// Adding posts whose ids are fresh and pairwise distinct prepends them,
/// newest first, and keeps only the `cap` most recent entries.
proof fn lemma_adds_prepend(s: Seq<Post>, cap: nat, ps: Seq<Post>)
    requires
        cap >= 1,
        s.len() <= cap,
        feed_ids_unique(ps),
        forall|k: int| 0 <= k < ps.len() ==> !feed_has_id(s, #[trigger] ps[k].id@),
    ensures
        feed_after_adds(s, cap, ps) == (ps.reverse() + s).take(
            min(ps.len() + s.len() as int, cap as int),
        ),
    decreases ps.len(),
{
    if ps.len() == 0 {
        assert(feed_after_adds(s, cap, ps) =~= (ps.reverse() + s).take(
            min(ps.len() + s.len() as int, cap as int),
        ));
    } else {
        let p0 = ps[0];
        let rest = ps.skip(1);
        let grown = seq![p0] + s;
        let s1 = feed_after_add(s, cap, p0);
        assert(!feed_has_id(s, p0.id@));
        assert(s1 =~= grown.take(min(grown.len() as int, cap as int)));
        assert(forall|k: int| 0 <= k < rest.len() ==> !feed_has_id(s1, #[trigger] rest[k].id@))
            by {
            assert(forall|k: int, i: int|
                0 <= k < rest.len() && 0 <= i < s1.len() ==> s1[i] == grown[i]
                    && rest[k] == ps[k + 1]);
        }
        lemma_adds_prepend(s1, cap, rest);
        assert(rest.reverse() + grown =~= ps.reverse() + s);
        assert((rest.reverse() + s1).take(min(rest.len() + s1.len() as int, cap as int)) =~= (
        ps.reverse() + s).take(min(ps.len() + s.len() as int, cap as int)));
    }
}

/// Law (bounding): starting from an empty store, inserting at least `cap`
/// posts with pairwise distinct ids leaves exactly `cap` posts stored, and
/// they are the `cap` most recently inserted ones, newest first — the
/// oldest were evicted first.
pub proof fn lemma_add_bounded(cap: nat, ps: Seq<Post>)
    requires
        cap >= 1,
        feed_ids_unique(ps),
        ps.len() >= cap,
    ensures
        feed_after_adds(Seq::empty(), cap, ps).len() == cap,
        forall|k: int| 0 <= k < cap ==> feed_after_adds(Seq::empty(), cap, ps)[k] == ps[ps.len()
            - 1 - k],
{
    lemma_adds_prepend(Seq::empty(), cap, ps);
    assert(feed_after_adds(Seq::empty(), cap, ps) =~= ps.reverse().take(cap as int));
}

} // verus!
