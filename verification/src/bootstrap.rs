//! Selecting rendezvous address candidates from the lines of a bootstrap
//! configuration file. Reading the file is the adapter's job; deciding
//! which lines name an address is this module's: surrounding whitespace
//! is trimmed, and blank lines and `#` comment lines are dropped.

use vstd::prelude::*;

verus! {

/// The whitespace trimmed around a configured address.
pub open spec fn is_line_space(c: char) -> bool {
    c == ' ' || c == '\t' || c == '\r' || c == '\n'
}

/// `s` without its leading whitespace.
pub open spec fn trim_front(s: Seq<char>) -> Seq<char>
    decreases s.len(),
{
    if s.len() > 0 && is_line_space(s[0]) {
        trim_front(s.skip(1))
    } else {
        s
    }
}

/// `s` without its trailing whitespace.
pub open spec fn trim_back(s: Seq<char>) -> Seq<char>
    decreases s.len(),
{
    if s.len() > 0 && is_line_space(s.last()) {
        trim_back(s.drop_last())
    } else {
        s
    }
}

/// `s` without surrounding whitespace.
pub open spec fn trimmed(s: Seq<char>) -> Seq<char> {
    trim_back(trim_front(s))
}

/// Whether a trimmed line names an address: non-blank and not a comment.
pub open spec fn is_candidate(t: Seq<char>) -> bool {
    t.len() > 0 && t[0] != '#'
}

/// The address candidates of a line sequence: each line trimmed, blank
/// and comment lines dropped, order kept.
pub open spec fn bootstrap_plan(lines: Seq<Seq<char>>) -> Seq<Seq<char>>
    decreases lines.len(),
{
    if lines.len() == 0 {
        Seq::empty()
    } else {
        let rest = bootstrap_plan(lines.drop_last());
        if is_candidate(trimmed(lines.last())) {
            rest.push(trimmed(lines.last()))
        } else {
            rest
        }
    }
}

/// The texts of a list of strings.
pub open spec fn str_views(lines: Seq<String>) -> Seq<Seq<char>> {
    Seq::new(lines.len(), |i: int| lines[i]@)
}

/// When everything before `i` is whitespace and `i` is not, trimming the
/// front takes the suffix from `i`.
proof fn lemma_trim_front_at(s: Seq<char>, i: int)
    requires
        0 <= i <= s.len(),
        forall|k: int| 0 <= k < i ==> is_line_space(#[trigger] s[k]),
        i < s.len() ==> !is_line_space(s[i]),
    ensures
        trim_front(s) == s.skip(i),
    decreases i,
{
    if i == 0 {
        assert(s.skip(0) =~= s);
    } else {
        let t = s.skip(1);
        assert(forall|k: int| 0 <= k < i - 1 ==> is_line_space(#[trigger] t[k]));
        lemma_trim_front_at(t, i - 1);
        assert(t.skip(i - 1) =~= s.skip(i));
    }
}

/// When everything from `i` on is whitespace and `i - 1` is not, trimming
/// the back keeps the prefix up to `i`.
proof fn lemma_trim_back_at(s: Seq<char>, i: int)
    requires
        0 <= i <= s.len(),
        forall|k: int| i <= k < s.len() ==> is_line_space(#[trigger] s[k]),
        i > 0 ==> !is_line_space(s[i - 1]),
    ensures
        trim_back(s) == s.take(i),
    decreases s.len() - i,
{
    if i == s.len() {
        assert(s.take(i) =~= s);
    } else {
        let t = s.drop_last();
        assert(forall|k: int| i <= k < t.len() ==> is_line_space(#[trigger] t[k]));
        lemma_trim_back_at(t, i);
        assert(t.take(i) =~= s.take(i));
    }
}

/// Whether this character is trimmed away.
fn is_space(c: char) -> (r: bool)
    ensures
        r == is_line_space(c),
{
    c == ' ' || c == '\t' || c == '\r' || c == '\n'
}

/// `line` without surrounding whitespace.
pub fn trim_line(line: &str) -> (r: String)
    ensures
        r@ == trimmed(line@),
{
    let len = line.unicode_len();
    let mut start: usize = 0;
    while start < len && is_space(line.get_char(start))
        invariant
            len == line@.len(),
            start <= len,
            forall|k: int| 0 <= k < start ==> is_line_space(#[trigger] line@[k]),
        decreases len - start,
    {
        start += 1;
    }
    proof {
        lemma_trim_front_at(line@, start as int);
    }
    let mut end: usize = len;
    while end > start && is_space(line.get_char(end - 1))
        invariant
            len == line@.len(),
            start <= end <= len,
            forall|k: int| end <= k < len ==> is_line_space(#[trigger] line@[k]),
        decreases end,
    {
        end -= 1;
    }
    proof {
        let tail = line@.skip(start as int);
        assert(forall|k: int| end - start <= k < tail.len() ==> is_line_space(
            #[trigger] tail[k],
        ));
        lemma_trim_back_at(tail, end - start);
        assert(tail.take(end - start) =~= line@.subrange(start as int, end as int));
    }
    line.substring_char(start, end).to_owned()
}

/// The address candidates among the lines of the bootstrap file, trimmed,
/// in file order.
pub fn select_bootstrap_lines(lines: &Vec<String>) -> (r: Vec<String>)
    ensures
        str_views(r@) == bootstrap_plan(str_views(lines@)),
{
    let mut r: Vec<String> = Vec::new();
    let mut i: usize = 0;
    while i < lines.len()
        invariant
            i <= lines@.len(),
            str_views(r@) == bootstrap_plan(str_views(lines@).take(i as int)),
        decreases lines@.len() - i,
    {
        let ghost r0 = r@;
        let t = trim_line(lines[i].as_str());
        let keep = if t.as_str().unicode_len() == 0 {
            false
        } else {
            t.as_str().get_char(0) != '#'
        };
        if keep {
            r.push(t);
        }
        proof {
            let views = str_views(lines@);
            let prefix = views.take(i as int);
            let grown = views.take(i + 1);
            assert(grown.drop_last() =~= prefix);
            assert(grown.last() == lines@[i as int]@);
            if keep {
                assert(str_views(r@) =~= str_views(r0).push(t@));
            }
            assert(bootstrap_plan(grown) == if is_candidate(trimmed(grown.last())) {
                bootstrap_plan(prefix).push(trimmed(grown.last()))
            } else {
                bootstrap_plan(prefix)
            });
        }
        i += 1;
    }
    proof {
        assert(str_views(lines@).take(lines@.len() as int) =~= str_views(lines@));
    }
    r
}

} // verus!
