//! File paths as text: joining, file names, stems and extensions, and
//! replacing a file name, on `/`-separated paths.
//!
//! The model: a path's file name is the text after its last `/` once trailing
//! slashes are dropped, and a file name that is empty, `.` or `..` is no file
//! name at all. The stem and extension split the file name at its last dot,
//! except that a name with no dot, or whose only dot leads it (`.hidden`),
//! is all stem and has no extension.

use vstd::prelude::*;

use crate::text::{push_all, slice_chars};

verus! {

/// Index of the last `c` in `s`, or -1.
pub open spec fn last_index(s: Seq<char>, c: char) -> int
    decreases s.len(),
{
    if s.len() == 0 {
        -1
    } else if s.last() == c {
        s.len() - 1
    } else {
        last_index(s.drop_last(), c)
    }
}

pub proof fn lemma_last_index(s: Seq<char>, c: char)
    ensures
        -1 <= last_index(s, c) < s.len(),
        last_index(s, c) >= 0 ==> s[last_index(s, c)] == c,
        forall|k: int| last_index(s, c) < k < s.len() ==> s[k] != c,
    decreases s.len(),
{
    if s.len() > 0 && s.last() != c {
        lemma_last_index(s.drop_last(), c);
        assert forall|k: int| last_index(s, c) < k < s.len() implies s[k] != c by {
            if k < s.len() - 1 {
                assert(s[k] == s.drop_last()[k]);
            }
        }
    }
}

pub fn last_index_of(s: &Vec<char>, c: char) -> (r: Option<usize>)
    ensures
        match r {
            Some(i) => i < s@.len() && i as int == last_index(s@, c),
            None => last_index(s@, c) == -1,
        },
{
    let mut n: usize = s.len();
    while n > 0 && s[n - 1] != c
        invariant
            n <= s.len(),
            forall|k: int| n <= k < s.len() ==> s@[k] != c,
        decreases n,
    {
        n = n - 1;
    }
    proof {
        lemma_last_index(s@, c);
        if last_index(s@, c) >= n {
            assert(s@[last_index(s@, c)] == c);
        }
        if n > 0 && last_index(s@, c) < n - 1 {
            assert(s@[n - 1] == c);
        }
    }
    if n == 0 {
        None
    } else {
        Some(n - 1)
    }
}

/// Number of trailing slashes.
pub open spec fn trailing_slashes(s: Seq<char>) -> nat
    decreases s.len(),
{
    if s.len() == 0 {
        0
    } else if s.last() == '/' {
        1 + trailing_slashes(s.drop_last())
    } else {
        0
    }
}

/// `s` without its trailing slashes.
pub open spec fn strip_slashes(s: Seq<char>) -> Seq<char> {
    s.take(s.len() - trailing_slashes(s))
}

pub proof fn lemma_trailing_slashes(s: Seq<char>)
    ensures
        trailing_slashes(s) <= s.len(),
        forall|k: int| s.len() - trailing_slashes(s) <= k < s.len() ==> s[k] == '/',
        trailing_slashes(s) < s.len() ==> s[s.len() - trailing_slashes(s) - 1] != '/',
    decreases s.len(),
{
    if s.len() > 0 && s.last() == '/' {
        lemma_trailing_slashes(s.drop_last());
        assert forall|k: int| s.len() - trailing_slashes(s) <= k < s.len() implies s[k]
            == '/' by {
            if k < s.len() - 1 {
                assert(s[k] == s.drop_last()[k]);
            }
        }
    }
}

pub fn strip_trailing_slashes(s: &Vec<char>) -> (r: Vec<char>)
    ensures
        r@ == strip_slashes(s@),
{
    let mut n: usize = 0;
    while n < s.len() && s[s.len() - 1 - n] == '/'
        invariant
            n <= s.len(),
            forall|k: int| s.len() - n <= k < s.len() ==> s@[k] == '/',
        decreases s.len() - n,
    {
        n = n + 1;
    }
    proof {
        lemma_trailing_slashes(s@);
        if n < trailing_slashes(s@) {
            assert(s@[s.len() - n - 1] == '/');
        }
        if trailing_slashes(s@) < n {
            assert(s@[s.len() - trailing_slashes(s@) - 1] == '/');
        }
    }
    slice_chars(s, 0, s.len() - n)
}

/// `base` joined with a relative `name`, as `PathBuf::push` does: no
/// separator after an empty base or one that already ends in `/`; an
/// absolute `name` replaces the base.
pub open spec fn join(base: Seq<char>, name: Seq<char>) -> Seq<char> {
    if name.len() > 0 && name[0] == '/' {
        name
    } else if base.len() == 0 || base.last() == '/' {
        base + name
    } else {
        base + seq!['/'] + name
    }
}

pub fn join_chars(base: &Vec<char>, name: &Vec<char>) -> (r: Vec<char>)
    ensures
        r@ == join(base@, name@),
{
    if name.len() > 0 && name[0] == '/' {
        return slice_chars(name, 0, name.len());
    }
    let mut r = slice_chars(base, 0, base.len());
    if !(base.len() == 0 || base[base.len() - 1] == '/') {
        r.push('/');
    }
    push_all(&mut r, name);
    r
}

/// The last component of a path.
pub open spec fn last_component(p: Seq<char>) -> Seq<char> {
    let t = strip_slashes(p);
    t.skip(last_index(t, '/') + 1)
}

/// The file name of a path, if it has one.
pub open spec fn file_name(p: Seq<char>) -> Option<Seq<char>> {
    let c = last_component(p);
    if c.len() == 0 || c == seq!['.'] || c == seq!['.', '.'] {
        None
    } else {
        Some(c)
    }
}

/// Everything before the file name, without trailing slashes; a path whose
/// only separator is its leading root keeps that root.
pub open spec fn parent_part(p: Seq<char>) -> Seq<char> {
    let t = strip_slashes(p);
    let i = last_index(t, '/');
    if i < 0 {
        Seq::empty()
    } else {
        let before = strip_slashes(t.take(i));
        if before.len() == 0 && t.len() > 0 && t[0] == '/' {
            seq!['/']
        } else {
            before
        }
    }
}

/// The stem of a file name: up to its last dot, unless that dot leads it.
pub open spec fn stem_of_name(name: Seq<char>) -> Seq<char> {
    let i = last_index(name, '.');
    if i <= 0 {
        name
    } else {
        name.take(i)
    }
}

/// The extension of a file name: after its last dot, unless that dot leads
/// it or there is none.
pub open spec fn extension_of_name(name: Seq<char>) -> Option<Seq<char>> {
    let i = last_index(name, '.');
    if i <= 0 {
        None
    } else {
        Some(name.skip(i + 1))
    }
}

pub open spec fn file_stem(p: Seq<char>) -> Option<Seq<char>> {
    match file_name(p) {
        Some(n) => Some(stem_of_name(n)),
        None => None,
    }
}

pub open spec fn extension(p: Seq<char>) -> Option<Seq<char>> {
    match file_name(p) {
        Some(n) => extension_of_name(n),
        None => None,
    }
}

/// `p` with its file name replaced by `name` (or `name` appended when `p`
/// has no file name), as `Path::with_file_name` does.
pub open spec fn with_file_name(p: Seq<char>, name: Seq<char>) -> Seq<char> {
    if file_name(p) is Some {
        join(parent_part(p), name)
    } else {
        join(p, name)
    }
}

fn is_dot_or_dotdot_or_empty(c: &Vec<char>) -> (r: bool)
    ensures
        r == (c@.len() == 0 || c@ == seq!['.'] || c@ == seq!['.', '.']),
{
    if c.len() == 0 {
        return true;
    }
    if c.len() == 1 {
        let r = c[0] == '.';
        assert(r ==> c@ =~= seq!['.']);
        return r;
    }
    if c.len() == 2 {
        let r = c[0] == '.' && c[1] == '.';
        assert(r ==> c@ =~= seq!['.', '.']);
        return r;
    }
    false
}

pub fn file_name_chars(p: &Vec<char>) -> (r: Option<Vec<char>>)
    ensures
        match r {
            Some(n) => file_name(p@) == Some(n@),
            None => file_name(p@) is None,
        },
{
    let t = strip_trailing_slashes(p);
    let start = match last_index_of(&t, '/') {
        Some(i) => i + 1,
        None => 0,
    };
    proof {
        lemma_last_index(t@, '/');
    }
    let c = slice_chars(&t, start, t.len());
    assert(c@ == last_component(p@));
    if is_dot_or_dotdot_or_empty(&c) {
        None
    } else {
        Some(c)
    }
}

pub fn parent_part_chars(p: &Vec<char>) -> (r: Vec<char>)
    ensures
        r@ == parent_part(p@),
{
    let t = strip_trailing_slashes(p);
    proof {
        lemma_last_index(t@, '/');
    }
    match last_index_of(&t, '/') {
        None => Vec::new(),
        Some(i) => {
            let head = slice_chars(&t, 0, i);
            assert(head@ == t@.take(i as int));
            let before = strip_trailing_slashes(&head);
            if before.len() == 0 && t.len() > 0 && t[0] == '/' {
                let mut root: Vec<char> = Vec::new();
                root.push('/');
                assert(root@ =~= seq!['/']);
                root
            } else {
                before
            }
        },
    }
}

/// Splits a file name into its stem and extension.
pub fn split_name(name: &Vec<char>) -> (r: (Vec<char>, Option<Vec<char>>))
    ensures
        r.0@ == stem_of_name(name@),
        match r.1 {
            Some(e) => extension_of_name(name@) == Some(e@),
            None => extension_of_name(name@) is None,
        },
{
    proof {
        lemma_last_index(name@, '.');
    }
    match last_index_of(name, '.') {
        Some(i) => {
            if i == 0 {
                (slice_chars(name, 0, name.len()), None)
            } else {
                (slice_chars(name, 0, i), Some(slice_chars(name, i + 1, name.len())))
            }
        },
        None => (slice_chars(name, 0, name.len()), None),
    }
}

pub fn with_file_name_chars(p: &Vec<char>, name: &Vec<char>) -> (r: Vec<char>)
    ensures
        r@ == with_file_name(p@, name@),
{
    match file_name_chars(p) {
        Some(_) => {
            let parent = parent_part_chars(p);
            join_chars(&parent, name)
        },
        None => join_chars(p, name),
    }
}

/// The last component of a path holds no `/`.
pub proof fn lemma_last_component_has_no_slash(p: Seq<char>)
    ensures
        forall|k: int| 0 <= k < last_component(p).len() ==> last_component(p)[k] != '/',
{
    let t = strip_slashes(p);
    lemma_trailing_slashes(p);
    lemma_last_index(t, '/');
    let li = last_index(t, '/');
    assert forall|k: int| 0 <= k < last_component(p).len() implies last_component(p)[k] != '/' by {
        assert(last_component(p)[k] == t[li + 1 + k]);
    }
}

/// A name without `/` joined onto any base is the file name of the result,
/// when it is not empty, `.` or `..`.
pub proof fn lemma_file_name_of_join(base: Seq<char>, name: Seq<char>)
    requires
        name.len() > 0,
        name != seq!['.'],
        name != seq!['.', '.'],
        forall|k: int| 0 <= k < name.len() ==> name[k] != '/',
    ensures
        file_name(join(base, name)) == Some(name),
{
    let q = join(base, name);
    let pre: Seq<char> = if base.len() == 0 {
        Seq::empty()
    } else if base.last() == '/' {
        base
    } else {
        base + seq!['/']
    };
    assert(q =~= pre + name);
    assert(q.last() == name.last());
    assert(trailing_slashes(q) == 0);
    assert(strip_slashes(q) =~= q);
    lemma_last_index(q, '/');
    let li = last_index(q, '/');
    if pre.len() == 0 {
        if li >= 0 {
            assert(q[li] == name[li]);
        }
        assert(li == -1);
    } else {
        assert(q[pre.len() - 1] == '/');
        if li >= pre.len() {
            assert(q[li] == name[li - pre.len()]);
        }
        assert(li == pre.len() - 1);
    }
    assert(last_component(q) =~= name);
}

} // verus!
