//! Minting new posts and session identities: the only places where the
//! outside world (a random id generator and the wall clock) enters the
//! library.

use vstd::prelude::*;
use crate::types::Post;

verus! {

/// Relies on `uuid::Uuid::new_v4` and its `Display` form: a random
/// version-4 UUID rendered as 36 hexadecimal-and-hyphen ASCII characters.
/// The value is random, so nothing beyond its shape is promised.
#[verifier::external_body]
pub(crate) fn fresh_id() -> (r: String)
    ensures
        r@.len() == 36,
        r.is_ascii(),
{
    uuid::Uuid::new_v4().to_string()
}

/// Relies on `chrono::Utc::now` and `DateTime::timestamp`: the current
/// wall clock as whole seconds since the Unix epoch. The clock is outside
/// state, so nothing is promised of the value.
#[verifier::external_body]
pub(crate) fn now_unix_seconds() -> i64 {
    chrono::Utc::now().timestamp()
}

/// Build a locally submitted post: a fresh globally unique id, the
/// submitter's identity and display name, and the current wall-clock
/// creation time.
pub fn create_post(author: &str, author_name: String, content: String) -> (p: Post)
    ensures
        p.id@.len() == 36,
        p.author@ == author@,
        p.author_name == author_name,
        p.content == content,
{
    Post {
        id: fresh_id(),
        author: author.to_owned(),
        author_name,
        content,
        timestamp: now_unix_seconds(),
    }
}

/// A synthetic peer id for a local client session: the reserved
/// `browser-` namespace followed by the first eight characters of a fresh
/// id. The namespace keeps session entries apart from overlay peers, and
/// the reconnection supervisor never dials them.
pub fn fresh_session_peer_id() -> (r: String)
    ensures
        r@.len() == 16,
        r@.subrange(0, 8) == "browser-"@,
{
    let id = fresh_id();
    let short = id.as_str().substring_ascii(0, 8);
    let prefix: String = "browser-".to_owned();
    proof {
        reveal_strlit("browser-");
    }
    let r = prefix.concat(short);
    proof {
        assert(r@.subrange(0, 8) =~= "browser-"@);
    }
    r
}

} // verus!
