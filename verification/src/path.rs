//! Paths as text.
//!
//! The library handles file paths as strings. Both `/` and `\` separate
//! components, as they do on Windows, the platform the app is built for.
//! The functions follow `std::path::Path`: trailing separators and trailing
//! `.` components do not count, a final `..` has no file name, and a name
//! that starts with its only dot has no extension.

use vstd::prelude::*;
use crate::text::{chars_of, push_char, push_chars, string_of, sub_chars};

verus! {

/// A component separator: `/` or `\`, as on Windows, the platform the app
/// is built for. This holds on every platform: on Unix, where `std::path`
/// treats `\` as an ordinary character, a file name holding `\` is split
/// at it here (`a\b.png` has the file name `b.png`).
pub open spec fn is_sep(c: char) -> bool {
    c == '/' || c == '\\'
}

/// The path without trailing separators and trailing `.` components.
pub open spec fn strip_tail(p: Seq<char>) -> Seq<char>
    decreases p.len(),
{
    if p.len() > 0 && is_sep(p.last()) {
        strip_tail(p.drop_last())
    } else if p.len() > 0 && p.last() == '.' && (p.len() == 1 || is_sep(p[p.len() - 2])) {
        strip_tail(p.drop_last())
    } else {
        p
    }
}

/// Index of the last separator in `q`, or -1.
pub open spec fn last_sep(q: Seq<char>) -> int
    decreases q.len(),
{
    if q.len() == 0 {
        -1
    } else if is_sep(q.last()) {
        q.len() - 1
    } else {
        last_sep(q.drop_last())
    }
}

/// The final component of the path, possibly empty.
pub open spec fn final_component(p: Seq<char>) -> Seq<char> {
    let q = strip_tail(p);
    q.subrange(last_sep(q) + 1, q.len() as int)
}

/// Everything before the final component, separator included.
pub open spec fn dir_prefix(p: Seq<char>) -> Seq<char> {
    let q = strip_tail(p);
    q.subrange(0, last_sep(q) + 1)
}

/// The file name of a path (`Path::file_name`).
pub open spec fn file_name(p: Seq<char>) -> Option<Seq<char>> {
    let c = final_component(p);
    if c.len() == 0 || c == seq!['.', '.'] {
        None
    } else {
        Some(c)
    }
}

/// Index of the last `.` in `name`, or -1.
pub open spec fn last_dot(name: Seq<char>) -> int
    decreases name.len(),
{
    if name.len() == 0 {
        -1
    } else if name.last() == '.' {
        name.len() - 1
    } else {
        last_dot(name.drop_last())
    }
}

/// The stem of a file name: everything before the last dot, unless that dot
/// starts the name.
pub open spec fn stem_of(name: Seq<char>) -> Seq<char> {
    if last_dot(name) <= 0 {
        name
    } else {
        name.subrange(0, last_dot(name))
    }
}

/// The extension of a file name: everything after the last dot, unless that
/// dot starts the name.
pub open spec fn ext_of(name: Seq<char>) -> Option<Seq<char>> {
    if last_dot(name) <= 0 {
        None
    } else {
        Some(name.subrange(last_dot(name) + 1, name.len() as int))
    }
}

/// `Path::file_stem`.
pub open spec fn file_stem(p: Seq<char>) -> Option<Seq<char>> {
    match file_name(p) {
        Some(n) => Some(stem_of(n)),
        None => None,
    }
}

/// `Path::extension`.
pub open spec fn extension(p: Seq<char>) -> Option<Seq<char>> {
    match file_name(p) {
        Some(n) => ext_of(n),
        None => None,
    }
}

/// The separator a join into `dir` uses: the last one `dir` already uses,
/// or `/`.
pub open spec fn join_sep(dir: Seq<char>) -> char {
    if last_sep(dir) >= 0 {
        dir[last_sep(dir)]
    } else {
        '/'
    }
}

/// `dir` joined with the single file name `name`.
pub open spec fn join(dir: Seq<char>, name: Seq<char>) -> Seq<char> {
    if dir.len() == 0 {
        name
    } else if is_sep(dir.last()) {
        dir + name
    } else {
        dir.push(join_sep(dir)) + name
    }
}

proof fn lemma_strip_tail_step(p: Seq<char>, n: int)
    requires
        0 < n <= p.len(),
        is_sep(p[n - 1]) || (p[n - 1] == '.' && (n == 1 || is_sep(p[n - 2]))),
    ensures
        strip_tail(p.subrange(0, n)) == strip_tail(p.subrange(0, n - 1)),
{
    assert(p.subrange(0, n).drop_last() =~= p.subrange(0, n - 1));
}

/// Length of `strip_tail(p)`, which is always a prefix of `p`.
pub fn strip_tail_len(p: &[char]) -> (n: usize)
    ensures
        n <= p@.len(),
        p@.subrange(0, n as int) == strip_tail(p@),
{
    let mut n = p.len();
    assert(p@.subrange(0, n as int) =~= p@);
    loop
        invariant
            n <= p@.len(),
            strip_tail(p@.subrange(0, n as int)) == strip_tail(p@),
        decreases n,
    {
        if n > 0 && (p[n - 1] == '/' || p[n - 1] == '\\') {
            proof {
                lemma_strip_tail_step(p@, n as int);
            }
            n -= 1;
        } else if n > 0 && p[n - 1] == '.' && (n == 1 || p[n - 2] == '/' || p[n - 2] == '\\') {
            proof {
                lemma_strip_tail_step(p@, n as int);
            }
            n -= 1;
        } else {
            let ghost q = p@.subrange(0, n as int);
            assert(n > 0 ==> q.last() == p@[n - 1]);
            assert(n > 1 ==> q[q.len() - 2] == p@[n - 2]);
            assert(strip_tail(q) == q);
            return n;
        }
    }
}

proof fn lemma_last_sep_bounds(q: Seq<char>)
    ensures
        -1 <= last_sep(q) < q.len(),
        last_sep(q) >= 0 ==> is_sep(q[last_sep(q)]),
        forall|k: int| last_sep(q) < k < q.len() ==> !is_sep(#[trigger] q[k]),
    decreases q.len(),
{
    if q.len() > 0 && !is_sep(q.last()) {
        let t = q.drop_last();
        lemma_last_sep_bounds(t);
        assert forall|k: int| last_sep(q) < k < q.len() implies !is_sep(#[trigger] q[k]) by {
            if k < t.len() {
                assert(q[k] == t[k]);
            }
        }
    }
}

proof fn lemma_last_sep_is(q: Seq<char>, j: int)
    requires
        -1 <= j < q.len(),
        j >= 0 ==> is_sep(q[j]),
        forall|k: int| j < k < q.len() ==> !is_sep(#[trigger] q[k]),
    ensures
        last_sep(q) == j,
    decreases q.len(),
{
    if q.len() > 0 && j < q.len() - 1 {
        let t = q.drop_last();
        assert forall|k: int| j < k < t.len() implies !is_sep(#[trigger] t[k]) by {
            assert(t[k] == q[k]);
        }
        if j >= 0 {
            assert(t[j] == q[j]);
        }
        lemma_last_sep_is(t, j);
    }
}

/// `last_sep(q[..n]) + 1`: where the final component of `q[..n]` starts.
fn component_start(q: &[char], n: usize) -> (s: usize)
    requires
        n <= q@.len(),
    ensures
        s <= n,
        s as int == last_sep(q@.subrange(0, n as int)) + 1,
{
    let mut s = n;
    while s > 0 && !(q[s - 1] == '/' || q[s - 1] == '\\')
        invariant
            s <= n <= q@.len(),
            forall|k: int| s <= k < n ==> !is_sep(#[trigger] q@[k]),
        decreases s,
    {
        s -= 1;
    }
    proof {
        let t = q@.subrange(0, n as int);
        assert forall|k: int| s - 1 < k < t.len() implies !is_sep(#[trigger] t[k]) by {
            assert(t[k] == q@[k]);
        }
        if s > 0 {
            assert(t[s - 1] == q@[s - 1]);
        }
        lemma_last_sep_is(t, s - 1);
    }
    s
}

/// Bounds of the final component and of the stripped path, as
/// `(component start, stripped length)`.
fn final_bounds(p: &[char]) -> (r: (usize, usize))
    ensures
        r.0 <= r.1 <= p@.len(),
        p@.subrange(r.0 as int, r.1 as int) == final_component(p@),
        p@.subrange(0, r.0 as int) == dir_prefix(p@),
{
    let n = strip_tail_len(p);
    let s = component_start(p, n);
    proof {
        let q = p@.subrange(0, n as int);
        lemma_last_sep_bounds(q);
        assert(final_component(p@) =~= p@.subrange(s as int, n as int));
        assert(dir_prefix(p@) =~= p@.subrange(0, s as int));
    }
    (s, n)
}

/// Index one past the last `.` in `name`, or 0 when there is none.
fn dot_end(name: &[char]) -> (d: usize)
    ensures
        d <= name@.len(),
        d as int == last_dot(name@) + 1,
{
    let mut d = name.len();
    while d > 0 && name[d - 1] != '.'
        invariant
            d <= name@.len(),
            forall|k: int| d <= k < name@.len() ==> #[trigger] name@[k] != '.',
        decreases d,
    {
        d -= 1;
    }
    proof {
        lemma_last_dot_is(name@, d - 1);
    }
    d
}

proof fn lemma_last_dot_is(q: Seq<char>, j: int)
    requires
        -1 <= j < q.len(),
        j >= 0 ==> q[j] == '.',
        forall|k: int| j < k < q.len() ==> #[trigger] q[k] != '.',
    ensures
        last_dot(q) == j,
    decreases q.len(),
{
    if q.len() > 0 && j < q.len() - 1 {
        let t = q.drop_last();
        assert forall|k: int| j < k < t.len() implies #[trigger] t[k] != '.' by {
            assert(t[k] == q[k]);
        }
        if j >= 0 {
            assert(t[j] == q[j]);
        }
        lemma_last_dot_is(t, j);
    }
}

/// The file name of `path`, as characters.
pub fn file_name_chars(path: &[char]) -> (r: Option<Vec<char>>)
    ensures
        match r {
            Some(v) => file_name(path@) == Some(v@),
            None => file_name(path@) is None,
        },
{
    let (s, n) = final_bounds(path);
    if s == n {
        return None;
    }
    if n - s == 2 && path[s] == '.' && path[s + 1] == '.' {
        assert(final_component(path@)[0] == path@[s as int]);
        assert(final_component(path@)[1] == path@[s + 1]);
        assert(final_component(path@) =~= seq!['.', '.']);
        return None;
    }
    let c = sub_chars(path, s, n);
    proof {
        if c@ =~= seq!['.', '.'] {
            assert(c@.len() == 2);
            assert(c@[0] == path@[s as int]);
            assert(c@[1] == path@[s + 1]);
        }
    }
    Some(c)
}

/// Stem and extension of a file name.
pub fn split_name(name: &[char]) -> (r: (Vec<char>, Option<Vec<char>>))
    ensures
        r.0@ == stem_of(name@),
        match r.1 {
            Some(e) => ext_of(name@) == Some(e@),
            None => ext_of(name@) is None,
        },
{
    let d = dot_end(name);
    if d <= 1 {
        (sub_chars(name, 0, name.len()), None)
    } else {
        (sub_chars(name, 0, d - 1), Some(sub_chars(name, d, name.len())))
    }
}

/// The file name of `path` (`Path::file_name`).
pub fn path_file_name(path: &str) -> (r: Option<String>)
    ensures
        match r {
            Some(s) => file_name(path@) == Some(s@),
            None => file_name(path@) is None,
        },
{
    let p = chars_of(path);
    match file_name_chars(p.as_slice()) {
        Some(v) => Some(string_of(v.as_slice())),
        None => None,
    }
}

/// The extension of `path` (`Path::extension`).
pub fn path_extension(path: &str) -> (r: Option<Vec<char>>)
    ensures
        match r {
            Some(e) => extension(path@) == Some(e@),
            None => extension(path@) is None,
        },
{
    let p = chars_of(path);
    match file_name_chars(p.as_slice()) {
        Some(n) => {
            let (_, e) = split_name(n.as_slice());
            e
        },
        None => None,
    }
}

/// `dir` joined with the file name `name`, appended to `out`.
pub fn push_joined(out: &mut String, dir: &[char], name: &[char])
    ensures
        final(out)@ == old(out)@ + join(dir@, name@),
{
    if dir.len() == 0 {
        push_chars(out, name);
        return;
    }
    let last = dir[dir.len() - 1];
    if last == '/' || last == '\\' {
        push_chars(out, dir);
        push_chars(out, name);
        assert(out@ =~= old(out)@ + join(dir@, name@));
        return;
    }
    let s = component_start(dir, dir.len());
    assert(dir@.subrange(0, dir@.len() as int) =~= dir@);
    let sep = if s > 0 {
        dir[s - 1]
    } else {
        '/'
    };
    push_chars(out, dir);
    push_char(out, sep);
    push_chars(out, name);
    assert(out@ =~= old(out)@ + join(dir@, name@));
}

/// The stem of the file name of `path`, or nothing when it has no file name.
pub fn chars_of_stem(path: &[char]) -> (r: Vec<char>)
    ensures
        r@ == match file_stem(path@) {
            Some(s) => s,
            None => Seq::empty(),
        },
{
    match file_name_chars(path) {
        Some(n) => {
            let (stem, _) = split_name(n.as_slice());
            stem
        },
        None => Vec::new(),
    }
}

/// `dir_prefix(path)` as characters.
pub fn stripped_dir_prefix(path: &[char]) -> (r: Vec<char>)
    ensures
        r@ == dir_prefix(path@),
{
    let (s, _) = final_bounds(path);
    sub_chars(path, 0, s)
}

} // verus!
