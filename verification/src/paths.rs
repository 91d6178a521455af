//! Filesystem paths as text: joining below a configurable root.
//!
//! Providers read kernel interfaces below a root directory (`/` on a live
//! system, a fixture directory in tests). Paths are kept as `String`s and
//! joined with the rules of `PathBuf::push` on Unix.
use vstd::prelude::*;
use vstd::string::*;

use crate::text::{chars_of, push_char, string_of};

verus! {

/// `PathBuf::push` on Unix: an absolute `rel` replaces the path; otherwise
/// `rel` is appended, with a `/` in between when the path is non-empty and
/// does not already end with one.
pub open spec fn join(root: Seq<char>, rel: Seq<char>) -> Seq<char> {
    if rel.len() > 0 && rel[0] == '/' {
        rel
    } else if root.len() == 0 || root.last() == '/' {
        root + rel
    } else {
        root + seq!['/'] + rel
    }
}

/// `str::trim_start_matches('/')`.
pub open spec fn trim_leading_slashes(s: Seq<char>) -> Seq<char>
    decreases s.len(),
{
    if s.len() > 0 && s[0] == '/' {
        trim_leading_slashes(s.drop_first())
    } else {
        s
    }
}

/// `root.join(rel)`.
pub fn join_path(root: &str, rel: &str) -> (p: String)
    ensures
        p@ == join(root@, rel@),
{
    let r = chars_of(root);
    let t = chars_of(rel);
    if t.len() > 0 && t[0] == '/' {
        return rel.to_owned();
    }
    let mut p = root.to_owned();
    if r.len() > 0 && r[r.len() - 1] != '/' {
        push_char(&mut p, '/');
    }
    p.append(rel);
    p
}

/// `p.trim_start_matches('/')`.
pub fn trim_leading_slashes_of(p: &str) -> (t: String)
    ensures
        t@ == trim_leading_slashes(p@),
{
    let cs = chars_of(p);
    let mut i: usize = 0;
    assert(cs@.subrange(0, cs@.len() as int) =~= cs@);
    while i < cs.len() && cs[i] == '/'
        invariant
            0 <= i <= cs@.len(),
            trim_leading_slashes(p@) == trim_leading_slashes(cs@.subrange(i as int, cs@.len() as int)),
            cs@ == p@,
        decreases cs@.len() - i,
    {
        assert(cs@.subrange(i as int, cs@.len() as int).drop_first() =~= cs@.subrange(
            i + 1,
            cs@.len() as int,
        ));
        i = i + 1;
    }
    string_of(&cs, i, cs.len())
}

/// `root.join(p.trim_start_matches('/'))`: a path below the root.
pub open spec fn below(root: Seq<char>, p: Seq<char>) -> Seq<char> {
    join(root, trim_leading_slashes(p))
}

/// `root.join(p.trim_start_matches('/'))`.
pub fn path_below(root: &str, p: &str) -> (r: String)
    ensures
        r@ == below(root@, p@),
{
    let rel = trim_leading_slashes_of(p);
    join_path(root, rel.as_str())
}

} // verus!
