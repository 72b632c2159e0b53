use vstd::prelude::*;

use crate::text::chars_of;

verus! {

/// `name` placed inside directory `dir`, with one `/` between them.
pub open spec fn join_path(dir: Seq<char>, name: Seq<char>) -> Seq<char> {
    if dir.len() == 0 {
        name
    } else if dir.last() == '/' {
        dir + name
    } else {
        dir + seq!['/'] + name
    }
}

/// Places `name` inside directory `dir`.
pub fn join(dir: &str, name: &str) -> (r: String)
    ensures
        r@ == join_path(dir@, name@),
{
    let n = dir.unicode_len();
    if n == 0 {
        return String::from_str(name);
    }
    let mut out = String::from_str(dir);
    if dir.get_char(n - 1) != '/' {
        out.append("/");
        proof {
            reveal_strlit("/");
        }
    }
    out.append(name);
    out
}

/// The position of the last `c` in `s`, if any.
pub open spec fn last_index_of(s: Seq<char>, c: char) -> Option<int>
    decreases s.len(),
{
    if s.len() == 0 {
        None
    } else if s.last() == c {
        Some(s.len() - 1)
    } else {
        last_index_of(s.drop_last(), c)
    }
}

pub proof fn lemma_last_index_of(s: Seq<char>, c: char)
    ensures
        last_index_of(s, c) matches Some(k) ==> 0 <= k < s.len() && s[k] == c && forall|j: int|
            k < j < s.len() ==> s[j] != c,
        last_index_of(s, c) is None ==> forall|j: int| 0 <= j < s.len() ==> s[j] != c,
    decreases s.len(),
{
    if s.len() > 0 {
        lemma_last_index_of(s.drop_last(), c);
        assert(forall|j: int| 0 <= j < s.len() - 1 ==> s.drop_last()[j] == s[j]);
    }
}

pub fn find_last(s: &[char], c: char) -> (r: Option<usize>)
    ensures
        r matches Some(k) ==> last_index_of(s@, c) == Some(k as int),
        r is None ==> last_index_of(s@, c) is None,
{
    assert(s@.subrange(0, s@.len() as int) =~= s@);
    find_last_before(s, c, s.len())
}

/// The position of the last `c` among the first `end` characters of `s`.
pub fn find_last_before(s: &[char], c: char, end: usize) -> (r: Option<usize>)
    requires
        end <= s@.len(),
    ensures
        r matches Some(k) ==> last_index_of(s@.subrange(0, end as int), c) == Some(k as int),
        r is None ==> last_index_of(s@.subrange(0, end as int), c) is None,
{
    let mut i: usize = end;
    while i > 0
        invariant
            i <= end <= s@.len(),
            last_index_of(s@.subrange(0, end as int), c) == last_index_of(s@.subrange(0, i as int), c),
        decreases i,
    {
        let ghost pre = s@.subrange(0, i as int);
        assert(pre.drop_last() =~= s@.subrange(0, i - 1));
        if s[i - 1] == c {
            return Some(i - 1);
        }
        i -= 1;
    }
    None
}

/// A path without its trailing `/` characters and trailing `/.`
/// components, which `std::path::Path` does not count as components.
pub open spec fn trim_end(p: Seq<char>) -> Seq<char>
    decreases p.len(),
{
    if p.len() > 0 && p.last() == '/' {
        trim_end(p.drop_last())
    } else if p.len() >= 2 && p.last() == '.' && p[p.len() - 2] == '/' {
        trim_end(p.drop_last())
    } else {
        p
    }
}

/// How many characters of `s` remain once its end is trimmed (see `trim_end`).
pub fn trimmed_len(s: &[char]) -> (r: usize)
    ensures
        r <= s@.len(),
        trim_end(s@) == s@.subrange(0, r as int),
{
    let mut i: usize = s.len();
    assert(s@.subrange(0, i as int) =~= s@);
    while i > 0 && (s[i - 1] == '/' || (i >= 2 && s[i - 1] == '.' && s[i - 2] == '/'))
        invariant
            i <= s@.len(),
            trim_end(s@) == trim_end(s@.subrange(0, i as int)),
        decreases i,
    {
        let ghost pre = s@.subrange(0, i as int);
        assert(pre.drop_last() =~= s@.subrange(0, i - 1));
        i -= 1;
    }
    i
}

/// What follows the last `/` of a path, or the whole path without one.
pub open spec fn last_part(p: Seq<char>) -> Seq<char> {
    match last_index_of(p, '/') {
        Some(k) => p.subrange(k + 1, p.len() as int),
        None => p,
    }
}

/// The last component of a path, as `Path::file_name` gives it: trailing
/// `/` and `/.` are ignored, and a path that ends in `..`, in `.`, or has
/// no component has none.
pub open spec fn file_name_of(p: Seq<char>) -> Option<Seq<char>> {
    let n = last_part(trim_end(p));
    if n.len() == 0 || n == seq!['.'] || n == seq!['.', '.'] {
        None
    } else {
        Some(n)
    }
}

/// The directory part of a path, as `Path::parent` gives it: what precedes
/// the last `/` once the end is trimmed (`/` itself for a component right
/// under the root), empty for a bare name; the root and the empty path have
/// none.
pub open spec fn parent_of(p: Seq<char>) -> Option<Seq<char>> {
    let t = trim_end(p);
    if t.len() == 0 {
        None
    } else {
        match last_index_of(t, '/') {
            Some(k) => if k == 0 {
                Some(seq!['/'])
            } else {
                Some(t.subrange(0, k))
            },
            None => Some(Seq::empty()),
        }
    }
}

/// The stem of a file name: the name without its last extension. A name
/// whose only `.` leads it, or that has none, is its own stem; an empty
/// name has none.
pub open spec fn stem_of_name(name: Seq<char>) -> Option<Seq<char>> {
    if name.len() == 0 {
        None
    } else {
        match last_index_of(name, '.') {
            Some(k) => if k == 0 {
                Some(name)
            } else {
                Some(name.subrange(0, k))
            },
            None => Some(name),
        }
    }
}

/// The stem of the last component of a path, as `Path::file_stem` gives it.
pub open spec fn file_stem_of(p: Seq<char>) -> Option<Seq<char>> {
    match file_name_of(p) {
        Some(n) => stem_of_name(n),
        None => None,
    }
}

/// The last component of a path (see `file_name_of`).
pub fn file_name(path: &str) -> (r: Option<String>)
    ensures
        r matches Some(n) ==> file_name_of(path@) == Some(n@),
        r is None ==> file_name_of(path@) is None,
{
    let c = chars_of(path);
    let n = trimmed_len(c.as_slice());
    let ghost t = path@.subrange(0, n as int);
    proof {
        lemma_last_index_of(t, '/');
    }
    let start = match find_last_before(c.as_slice(), '/', n) {
        Some(k) => k + 1,
        None => 0,
    };
    assert(last_part(t) =~= path@.subrange(start as int, n as int));
    let len = n - start;
    if len == 0 {
        return None;
    }
    if len == 1 && c[start] == '.' {
        assert(last_part(t) =~= seq!['.']);
        return None;
    }
    if len == 2 && c[start] == '.' && c[start + 1] == '.' {
        assert(last_part(t) =~= seq!['.', '.']);
        return None;
    }
    assert(last_part(t) != seq!['.']) by {
        if last_part(t) == seq!['.'] {
            assert(last_part(t).len() == 1 && last_part(t)[0] == '.');
        }
    }
    assert(last_part(t) != seq!['.', '.']) by {
        if last_part(t) == seq!['.', '.'] {
            assert(last_part(t)[0] == '.' && last_part(t)[1] == '.');
        }
    }
    Some(String::from_str(path.substring_char(start, n)))
}

/// The directory part of a path (see `parent_of`).
pub fn parent(path: &str) -> (r: Option<String>)
    ensures
        r matches Some(d) ==> parent_of(path@) == Some(d@),
        r is None ==> parent_of(path@) is None,
{
    let c = chars_of(path);
    let n = trimmed_len(c.as_slice());
    if n == 0 {
        return None;
    }
    let ghost t = path@.subrange(0, n as int);
    proof {
        lemma_last_index_of(t, '/');
    }
    match find_last_before(c.as_slice(), '/', n) {
        Some(k) => {
            if k == 0 {
                proof {
                    reveal_strlit("/");
                }
                Some(String::from_str("/"))
            } else {
                assert(t.subrange(0, k as int) =~= path@.subrange(0, k as int));
                Some(String::from_str(path.substring_char(0, k)))
            }
        },
        None => Some(String::new()),
    }
}

/// The stem of the last component of a path (see `file_stem_of`).
pub fn file_stem(path: &str) -> (r: Option<String>)
    ensures
        r matches Some(s) ==> file_stem_of(path@) == Some(s@),
        r is None ==> file_stem_of(path@) is None,
{
    let name = match file_name(path) {
        Some(n) => n,
        None => return None,
    };
    let n = name.as_str().unicode_len();
    if n == 0 {
        return None;
    }
    let c = chars_of(name.as_str());
    proof {
        lemma_last_index_of(name@, '.');
    }
    match find_last(c.as_slice(), '.') {
        Some(k) => if k == 0 {
            Some(name)
        } else {
            Some(String::from_str(name.as_str().substring_char(0, k)))
        },
        None => Some(name),
    }
}

} // verus!
