//! File names and extensions of paths written with `/` between their
//! components.

use vstd::prelude::*;
use crate::text::{chars_of, push_chars, string_of};

verus! {

/// Where the last component of `p[..e]` ends: `e` itself, unless separators
/// or `.` components trail there, which are passed over.
pub open spec fn trimmed_end(p: Seq<char>, e: int) -> int
    decreases e,
{
    if e <= 0 || e > p.len() {
        0
    } else if p[e - 1] == '/' {
        trimmed_end(p, e - 1)
    } else if p[e - 1] == '.' && e >= 2 && p[e - 2] == '/' {
        trimmed_end(p, e - 1)
    } else {
        e
    }
}

/// Where the component that ends at `e` starts: just after the last
/// separator before `e`, or at 0.
pub open spec fn name_start(p: Seq<char>, e: int) -> int
    decreases e,
{
    if e <= 0 || e > p.len() {
        0
    } else if p[e - 1] == '/' {
        e
    } else {
        name_start(p, e - 1)
    }
}

/// The position of the last `.` in `p[s..e]`, or `s - 1` where there is
/// none.
pub open spec fn last_dot(p: Seq<char>, s: int, e: int) -> int
    decreases e - s,
{
    if e <= s || e > p.len() || s < 0 {
        s - 1
    } else if p[e - 1] == '.' {
        e - 1
    } else {
        last_dot(p, s, e - 1)
    }
}

/// The start and end of the file name of `p`: its last component, unless
/// that is empty, `.` or `..`.
pub open spec fn file_name_bounds(p: Seq<char>) -> Option<(int, int)> {
    let e = trimmed_end(p, p.len() as int);
    let s = name_start(p, e);
    let name = p.subrange(s, e);
    if e <= s || name == seq!['.'] || name == seq!['.', '.'] {
        None
    } else {
        Some((s, e))
    }
}

/// The file name of `p`, if it has one.
pub open spec fn file_name_spec(p: Seq<char>) -> Option<Seq<char>> {
    match file_name_bounds(p) {
        Some((s, e)) => Some(p.subrange(s, e)),
        None => None,
    }
}

/// Where the stem of the file name ends: at its last `.`, unless the name
/// has none or has it as its first character; then at the end of the name.
pub open spec fn stem_end(p: Seq<char>, s: int, e: int) -> int {
    let k = last_dot(p, s, e);
    if k > s {
        k
    } else {
        e
    }
}

/// The extension of `p`: what follows the last `.` of its file name. A path
/// without a file name has none, nor has a file name without a `.` or with
/// its only `.` in front.
pub open spec fn extension_spec(p: Seq<char>) -> Option<Seq<char>> {
    match file_name_bounds(p) {
        Some((s, e)) => {
            let k = last_dot(p, s, e);
            if k > s {
                Some(p.subrange(k + 1, e))
            } else {
                None
            }
        },
        None => None,
    }
}

/// `p` with the extension of its file name replaced by `ext`: the path up
/// to the end of the stem, then a `.` and `ext` unless `ext` is empty. A
/// path without a file name stays as it is.
pub open spec fn with_extension_spec(p: Seq<char>, ext: Seq<char>) -> Seq<char> {
    match file_name_bounds(p) {
        Some((s, e)) => {
            let stem = p.subrange(0, stem_end(p, s, e));
            if ext.len() == 0 {
                stem
            } else {
                stem.push('.') + ext
            }
        },
        None => p,
    }
}

/// The bounds of the file name of `chars`, and where its stem ends.
fn locate(chars: &Vec<char>) -> (found: Option<(usize, usize, usize)>)
    ensures
        match found {
            Some((s, k, e)) => {
                &&& file_name_bounds(chars@) == Some((s as int, e as int))
                &&& s <= k <= e <= chars.len()
                &&& k == stem_end(chars@, s as int, e as int)
                &&& k < e ==> k as int == last_dot(chars@, s as int, e as int) && k > s
                &&& k == e ==> last_dot(chars@, s as int, e as int) <= s
            },
            None => file_name_bounds(chars@) is None,
        },
{
    let n: usize = chars.len();
    let mut e: usize = n;
    while e > 0 && (chars[e - 1] == '/' || (chars[e - 1] == '.' && e >= 2 && chars[e - 2] == '/'))
        invariant
            e <= n == chars.len(),
            trimmed_end(chars@, e as int) == trimmed_end(chars@, n as int),
        decreases e,
    {
        e -= 1;
    }
    let mut s: usize = e;
    while s > 0 && chars[s - 1] != '/'
        invariant
            s <= e <= chars.len(),
            name_start(chars@, s as int) == name_start(chars@, e as int),
        decreases s,
    {
        s -= 1;
    }
    let ghost name = chars@.subrange(s as int, e as int);
    if e == s {
        return None;
    }
    if e - s == 1 && chars[s] == '.' {
        assert(name =~= seq!['.']);
        return None;
    }
    if e - s == 2 && chars[s] == '.' && chars[s + 1] == '.' {
        assert(name =~= seq!['.', '.']);
        return None;
    }
    proof {
        if name == seq!['.'] {
            assert(name.len() == 1 && name[0] == '.');
        }
        if name == seq!['.', '.'] {
            assert(name.len() == 2 && name[0] == '.' && name[1] == '.');
        }
    }
    let mut k: usize = e;
    while k > s && chars[k - 1] != '.'
        invariant
            s <= k <= e <= chars.len(),
            last_dot(chars@, s as int, k as int) == last_dot(chars@, s as int, e as int),
        decreases k,
    {
        k -= 1;
    }
    if k > s + 1 {
        Some((s, k - 1, e))
    } else {
        Some((s, e, e))
    }
}

/// The extension of `path`.
pub fn extension(path: &str) -> (ext: Option<String>)
    ensures
        match ext {
            Some(text) => extension_spec(path@) == Some(text@),
            None => extension_spec(path@) is None,
        },
{
    let chars = chars_of(path);
    match locate(&chars) {
        Some((_s, k, e)) => {
            if k < e {
                Some(string_of(&chars, k + 1, e))
            } else {
                None
            }
        },
        None => None,
    }
}

/// `path` with the extension of its file name replaced by `ext`.
pub fn with_extension(path: &str, ext: &str) -> (out: String)
    ensures
        out@ == with_extension_spec(path@, ext@),
{
    let chars = chars_of(path);
    match locate(&chars) {
        Some((_s, k, _e)) => {
            let mut out = string_of(&chars, 0, k);
            let tail = chars_of(ext);
            if tail.len() > 0 {
                out.push('.');
                push_chars(&mut out, &tail, 0, tail.len());
                assert(tail@.subrange(0, tail.len() as int) =~= ext@);
            }
            out
        },
        None => {
            let out = string_of(&chars, 0, chars.len());
            assert(chars@.subrange(0, chars.len() as int) =~= path@);
            out
        },
    }
}

} // verus!
