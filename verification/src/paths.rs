//! Plain-string path handling: the final component of a slash-separated
//! path, and its parent. Trailing slashes are ignored, and a final component
//! of `.` or `..` does not count as a file name.

use crate::strutil::str_eq;
use vstd::prelude::*;
use vstd::string::StrSliceExecFns;
use vstd::string::StringExecFns;

verus! {

broadcast use vstd::string::group_string_axioms;

/// Length of `s` once trailing `/` characters before index `e` are dropped.
pub open spec fn trim_end(s: Seq<char>, e: int) -> int
    decreases e,
{
    if 0 < e <= s.len() && s[e - 1] == '/' {
        trim_end(s, e - 1)
    } else {
        e
    }
}

/// Index of the last `/` strictly before `e`, or -1 if there is none.
pub open spec fn last_slash_before(s: Seq<char>, e: int) -> int
    decreases e,
{
    if e <= 0 || e > s.len() {
        -1
    } else if s[e - 1] == '/' {
        e - 1
    } else {
        last_slash_before(s, e - 1)
    }
}

/// The final path component of `s`, or `None` when there is none (empty
/// path, only slashes, or a final component of `.` or `..`).
pub open spec fn file_name_spec(s: Seq<char>) -> Option<Seq<char>> {
    let e = trim_end(s, s.len() as int);
    let b = last_slash_before(s, e) + 1;
    let name = s.subrange(b, e);
    if name.len() == 0 || name == seq!['.'] || name == seq!['.', '.'] {
        None
    } else {
        Some(name)
    }
}

/// The parent of `s`: the path with its final component dropped. `None` for
/// an empty path or one made only of slashes; a path without a slash has the
/// empty parent; the parent of a root-anchored single component is `/`.
pub open spec fn parent_spec(s: Seq<char>) -> Option<Seq<char>> {
    let e = trim_end(s, s.len() as int);
    if e == 0 {
        None
    } else {
        let i = last_slash_before(s, e);
        if i == -1 {
            Some(Seq::empty())
        } else {
            let p = trim_end(s, i);
            if p == 0 {
                Some(seq!['/'])
            } else {
                Some(s.subrange(0, p))
            }
        }
    }
}

/// Index after dropping the trailing slashes of `path` before `e0`.
fn trim_end_exec(path: &str, e0: usize) -> (r: usize)
    requires
        e0 <= path@.len(),
    ensures
        r == trim_end(path@, e0 as int),
        r <= e0,
{
    let mut e = e0;
    while e > 0
        invariant
            e <= e0 <= path@.len(),
            trim_end(path@, e0 as int) == trim_end(path@, e as int),
        ensures
            e <= e0 <= path@.len(),
            trim_end(path@, e0 as int) == trim_end(path@, e as int),
            e == 0 || path@[e as int - 1] != '/',
        decreases e,
    {
        if path.get_char(e - 1) != '/' {
            break ;
        }
        e -= 1;
    }
    proof {
        assert(trim_end(path@, e as int) == e);
    }
    e
}

/// Index just after the last `/` of `path` strictly before `e`; 0 when there
/// is none.
fn last_slash_before_exec(path: &str, e: usize) -> (r: usize)
    requires
        e <= path@.len(),
    ensures
        r == last_slash_before(path@, e as int) + 1,
        r <= e,
{
    let mut b = e;
    while b > 0
        invariant
            b <= e <= path@.len(),
            last_slash_before(path@, e as int) == last_slash_before(path@, b as int),
        ensures
            b <= e <= path@.len(),
            last_slash_before(path@, e as int) == last_slash_before(path@, b as int),
            b == 0 || path@[b as int - 1] == '/',
        decreases b,
    {
        if path.get_char(b - 1) == '/' {
            break ;
        }
        b -= 1;
    }
    proof {
        if b == 0 {
            assert(last_slash_before(path@, 0) == -1);
        } else {
            assert(last_slash_before(path@, b as int) == b - 1);
        }
    }
    b
}

/// The final path component of `path`, or `None` when there is none.
pub fn file_name_of(path: &str) -> (r: Option<String>)
    ensures
        match file_name_spec(path@) {
            Some(n) => r is Some && r->0@ == n,
            None => r is None,
        },
{
    let len = path.unicode_len();
    let e = trim_end_exec(path, len);
    let b = last_slash_before_exec(path, e);
    let name = path.substring_char(b, e);
    proof {
        reveal_strlit(".");
        reveal_strlit("..");
        assert((".")@ =~= seq!['.']);
        assert(("..")@ =~= seq!['.', '.']);
    }
    if name.unicode_len() == 0 || str_eq(name, ".") || str_eq(name, "..") {
        None
    } else {
        Some(name.to_owned())
    }
}

/// The parent of `path` (its final component dropped), or `None` when the
/// path is empty or made only of slashes.
pub fn parent_of(path: &str) -> (r: Option<String>)
    ensures
        match parent_spec(path@) {
            Some(p) => r is Some && r->0@ == p,
            None => r is None,
        },
{
    let len = path.unicode_len();
    let e = trim_end_exec(path, len);
    if e == 0 {
        return None;
    }
    let b = last_slash_before_exec(path, e);
    if b == 0 {
        proof {
            reveal_strlit("");
            assert(("")@ =~= Seq::<char>::empty());
        }
        return Some(String::from_str(""));
    }
    let p = trim_end_exec(path, b - 1);
    if p == 0 {
        proof {
            reveal_strlit("/");
            assert(("/")@ =~= seq!['/']);
        }
        Some(String::from_str("/"))
    } else {
        Some(path.substring_char(0, p).to_owned())
    }
}

} // verus!
