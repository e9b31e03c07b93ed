//! Paths as strings: joining, parents and final components.
//!
//! Paths handled here are those the launcher gets from the operating
//! system: absolute and normalized, with `/` as the separator.

use vstd::prelude::*;
use vstd::string::StrSliceExecFns;

use crate::text::{concat, owned, push_str};

verus! {

/// `dir` joined with the relative path `name`, with one separator between.
pub open spec fn path_join(dir: Seq<char>, name: Seq<char>) -> Seq<char> {
    if dir.len() == 0 || dir.last() == '/' {
        dir + name
    } else {
        dir + seq!['/'] + name
    }
}

/// The largest index below `n` that holds a separator, or -1.
pub open spec fn last_slash_before(p: Seq<char>, n: int) -> int
    decreases n,
{
    if n <= 0 {
        -1
    } else if p[n - 1] == '/' {
        n - 1
    } else {
        last_slash_before(p, n - 1)
    }
}

/// The directory that holds `p`; none for the filesystem root and for a
/// path without a separator.
pub open spec fn parent_of(p: Seq<char>) -> Option<Seq<char>> {
    let k = last_slash_before(p, p.len() as int);
    if k < 0 {
        None
    } else if k == 0 {
        if p.len() == 1 {
            None
        } else {
            Some(seq!['/'])
        }
    } else {
        Some(p.subrange(0, k))
    }
}

/// Whether `p` ends in a separator or in a `.` component after one.
pub open spec fn has_empty_tail(p: Seq<char>) -> bool {
    p.len() > 0 && (p.last() == '/' || (p.len() >= 2 && p.last() == '.' && p[p.len() - 2] == '/'))
}

/// `p` without its trailing separators and `.` components.
pub open spec fn trim_tail(p: Seq<char>) -> Seq<char>
    decreases p.len(),
{
    if has_empty_tail(p) {
        trim_tail(p.drop_last())
    } else {
        p
    }
}

/// The final component of `p` once trailing separators and `.` components
/// are dropped; none where it is empty, `.` or `..`.
pub open spec fn file_name_of(p: Seq<char>) -> Option<Seq<char>> {
    let t = trim_tail(p);
    let name = t.subrange(last_slash_before(t, t.len() as int) + 1, t.len() as int);
    if name.len() == 0 || name == seq!['.'] || name == seq!['.', '.'] {
        None
    } else {
        Some(name)
    }
}

pub(crate) proof fn lemma_last_slash_range(p: Seq<char>, n: int)
    requires
        0 <= n <= p.len(),
    ensures
        -1 <= last_slash_before(p, n) < n,
        last_slash_before(p, n) >= 0 ==> p[last_slash_before(p, n)] == '/',
    decreases n,
{
    if n > 0 && p[n - 1] != '/' {
        lemma_last_slash_range(p, n - 1);
    }
}

/// The index of the last separator below `n` in `s`.
fn last_slash(s: &str, n: usize) -> (r: Option<usize>)
    requires
        n <= s@.len(),
    ensures
        match r {
            Some(k) => last_slash_before(s@, n as int) == k as int,
            None => last_slash_before(s@, n as int) == -1,
        },
{
    let mut i: usize = n;
    while i > 0
        invariant
            i <= n <= s@.len(),
            last_slash_before(s@, n as int) == last_slash_before(s@, i as int),
        decreases i,
    {
        if s.get_char(i - 1) == '/' {
            return Some(i - 1);
        }
        i = i - 1;
    }
    None
}

/// `dir` joined with the relative path `name`.
pub fn join(dir: &str, name: &str) -> (r: String)
    ensures
        r@ == path_join(dir@, name@),
{
    let n = dir.unicode_len();
    if n == 0 || dir.get_char(n - 1) == '/' {
        concat(dir, name)
    } else {
        let mut r = concat(dir, "/");
        proof {
            reveal_strlit("/");
        }
        push_str(&mut r, name);
        r
    }
}

/// The directory that holds `p`.
pub fn parent(p: &str) -> (r: Option<String>)
    ensures
        match r {
            Some(q) => parent_of(p@) == Some(q@),
            None => parent_of(p@) is None,
        },
{
    let n = p.unicode_len();
    proof {
        lemma_last_slash_range(p@, n as int);
    }
    match last_slash(p, n) {
        None => None,
        Some(k) => {
            if k == 0 {
                if n == 1 {
                    None
                } else {
                    proof {
                        reveal_strlit("/");
                    }
                    Some(owned("/"))
                }
            } else {
                Some(owned(p.substring_char(0, k)))
            }
        },
    }
}

/// The final component of `p`.
pub fn file_name(p: &str) -> (r: Option<String>)
    ensures
        match r {
            Some(q) => file_name_of(p@) == Some(q@),
            None => file_name_of(p@) is None,
        },
{
    let mut n = p.unicode_len();
    assert(p@.subrange(0, n as int) == p@);
    while n > 0 && (p.get_char(n - 1) == '/' || (n >= 2 && p.get_char(n - 1) == '.' && p.get_char(n - 2) == '/'))
        invariant
            n <= p@.len(),
            trim_tail(p@) == trim_tail(p@.subrange(0, n as int)),
        decreases n,
    {
        assert(p@.subrange(0, n as int).drop_last() == p@.subrange(0, n - 1));
        n = n - 1;
    }
    let t = p.substring_char(0, n);
    assert(trim_tail(p@) == t@);
    proof {
        lemma_last_slash_range(t@, n as int);
    }
    let start = match last_slash(t, n) {
        Some(k) => k + 1,
        None => 0,
    };
    let name = t.substring_char(start, n);
    proof {
        reveal_strlit(".");
        reveal_strlit("..");
        assert("."@ =~= seq!['.']);
        assert(".."@ =~= seq!['.', '.']);
        assert(t@.len() == n);
        assert(name@ == t@.subrange(last_slash_before(t@, t@.len() as int) + 1, t@.len() as int));
    }
    if name.unicode_len() == 0 || str_is(name, ".") || str_is(name, "..") {
        None
    } else {
        Some(owned(name))
    }
}

fn str_is(a: &str, lit: &str) -> (r: bool)
    ensures
        r == (a@ == lit@),
{
    crate::text::str_eq(a, lit)
}

} // verus!
