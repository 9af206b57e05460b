//! Unix path names: the final component of a path, its stem and its extension,
//! with the meaning that `std::path::Path` gives them.
use vstd::prelude::*;

use crate::text::{str_chars, str_eq};

verus! {

/// The position of the last `c` in `s`.
pub open spec fn last_index_of(s: Seq<char>, c: char) -> Option<int>
    decreases s.len(),
{
    if s.len() == 0 {
        None
    } else if s.last() == c {
        Some(s.len() - 1)
    } else {
        last_index_of(s.drop_last(), c)
    }
}

pub proof fn lemma_last_index_of(s: Seq<char>, c: char)
    ensures
        match last_index_of(s, c) {
            Some(i) => 0 <= i < s.len() && s[i] == c && forall|j: int| i < j < s.len() ==> s[j] != c,
            None => forall|j: int| 0 <= j < s.len() ==> s[j] != c,
        },
    decreases s.len(),
{
    if s.len() > 0 && s.last() != c {
        lemma_last_index_of(s.drop_last(), c);
        assert(forall|j: int| 0 <= j < s.len() - 1 ==> s.drop_last()[j] == s[j]);
    }
}

/// Where the last `/`-separated segment of `p` starts.
pub open spec fn segment_start(p: Seq<char>) -> int {
    match last_index_of(p, '/') {
        Some(i) => i + 1,
        None => 0,
    }
}

/// The final component of a path (`Path::file_name`): empty segments and `.`
/// segments are skipped, and a final `..` has no name.
pub open spec fn file_name_spec(p: Seq<char>) -> Option<Seq<char>>
    decreases p.len(),
{
    let start = segment_start(p);
    proof {
        lemma_last_index_of(p, '/');
    }
    let seg = p.subrange(start, p.len() as int);
    if seg.len() == 0 || seg == seq!['.'] {
        match last_index_of(p, '/') {
            Some(i) => file_name_spec(p.subrange(0, i)),
            None => None,
        }
    } else if seg == seq!['.', '.'] {
        None
    } else {
        Some(seg)
    }
}

/// The stem of a file name: all before the last `.`, unless that `.` is the
/// first character or there is none.
pub open spec fn stem_of_name(name: Seq<char>) -> Seq<char> {
    if name == seq!['.', '.'] {
        name
    } else {
        match last_index_of(name, '.') {
            Some(d) => if d == 0 {
                name
            } else {
                name.subrange(0, d)
            },
            None => name,
        }
    }
}

/// The extension of a file name: all after the last `.`, if that `.` is not
/// its first character.
pub open spec fn extension_of_name(name: Seq<char>) -> Option<Seq<char>> {
    if name == seq!['.', '.'] {
        None
    } else {
        match last_index_of(name, '.') {
            Some(d) => if d == 0 {
                None
            } else {
                Some(name.subrange(d + 1, name.len() as int))
            },
            None => None,
        }
    }
}

/// `Path::file_stem`.
pub open spec fn file_stem_spec(p: Seq<char>) -> Option<Seq<char>> {
    match file_name_spec(p) {
        Some(n) => Some(stem_of_name(n)),
        None => None,
    }
}

/// `Path::extension`.
pub open spec fn extension_spec(p: Seq<char>) -> Option<Seq<char>> {
    match file_name_spec(p) {
        Some(n) => extension_of_name(n),
        None => None,
    }
}

/// The position of the last `c` among the first `end` characters.
fn last_index_before(chars: &Vec<char>, c: char, end: usize) -> (r: Option<usize>)
    requires
        end <= chars@.len(),
    ensures
        match r {
            Some(i) => last_index_of(chars@.subrange(0, end as int), c) == Some(i as int),
            None => last_index_of(chars@.subrange(0, end as int), c) is None,
        },
{
    let mut k: usize = end;
    while k > 0
        invariant
            k <= end <= chars@.len(),
            last_index_of(chars@.subrange(0, end as int), c) == last_index_of(
                chars@.subrange(0, k as int),
                c,
            ),
        decreases k,
    {
        assert(chars@.subrange(0, k as int).drop_last() =~= chars@.subrange(0, k - 1));
        if chars[k - 1] == c {
            return Some(k - 1);
        }
        k = k - 1;
    }
    None
}

/// The final component of `path`, as `Path::file_name` finds it.
pub fn file_name(path: &str) -> (r: Option<&str>)
    ensures
        match r {
            Some(n) => file_name_spec(path@) == Some(n@),
            None => file_name_spec(path@) is None,
        },
{
    let chars = str_chars(path);
    let mut end: usize = chars.len();
    assert(path@.subrange(0, end as int) =~= path@);
    loop
        invariant
            chars@ == path@,
            end <= path@.len(),
            file_name_spec(path@) == file_name_spec(path@.subrange(0, end as int)),
        decreases end,
    {
        let ghost p = path@.subrange(0, end as int);
        let slash = last_index_before(&chars, '/', end);
        proof {
            lemma_last_index_of(p, '/');
        }
        let start = match slash {
            Some(i) => i + 1,
            None => 0,
        };
        let seg = path.substring_char(start, end);
        assert(seg@ =~= p.subrange(segment_start(p), p.len() as int));
        if seg.is_empty() || str_eq(seg, ".") {
            proof {
                reveal_strlit(".");
                assert("."@ =~= seq!['.']);
            }
            match slash {
                Some(i) => {
                    assert(p.subrange(0, i as int) =~= path@.subrange(0, i as int));
                    end = i;
                },
                None => {
                    return None;
                },
            }
        } else if str_eq(seg, "..") {
            proof {
                reveal_strlit("..");
                assert(".."@ =~= seq!['.', '.']);
                reveal_strlit(".");
                assert("."@ =~= seq!['.']);
            }
            return None;
        } else {
            proof {
                reveal_strlit("..");
                assert(".."@ =~= seq!['.', '.']);
                reveal_strlit(".");
                assert("."@ =~= seq!['.']);
            }
            return Some(seg);
        }
    }
}

/// The stem of a file name.
fn stem_of(name: &str) -> (r: &str)
    ensures
        r@ == stem_of_name(name@),
{
    proof {
        reveal_strlit("..");
        assert(".."@ =~= seq!['.', '.']);
    }
    if str_eq(name, "..") {
        return name;
    }
    let chars = str_chars(name);
    let n = chars.len();
    assert(name@.subrange(0, n as int) =~= name@);
    match last_index_before(&chars, '.', n) {
        Some(d) => if d == 0 {
            name
        } else {
            proof {
                lemma_last_index_of(name@, '.');
            }
            name.substring_char(0, d)
        },
        None => name,
    }
}

/// The extension of a file name.
fn extension_of(name: &str) -> (r: Option<&str>)
    ensures
        match r {
            Some(e) => extension_of_name(name@) == Some(e@),
            None => extension_of_name(name@) is None,
        },
{
    proof {
        reveal_strlit("..");
        assert(".."@ =~= seq!['.', '.']);
    }
    if str_eq(name, "..") {
        return None;
    }
    let chars = str_chars(name);
    let n = chars.len();
    assert(name@.subrange(0, n as int) =~= name@);
    match last_index_before(&chars, '.', n) {
        Some(d) => if d == 0 {
            None
        } else {
            proof {
                lemma_last_index_of(name@, '.');
            }
            Some(name.substring_char(d + 1, n))
        },
        None => None,
    }
}

/// The stem of the final component of `path` (`Path::file_stem`).
pub fn file_stem(path: &str) -> (r: Option<&str>)
    ensures
        match r {
            Some(s) => file_stem_spec(path@) == Some(s@),
            None => file_stem_spec(path@) is None,
        },
{
    match file_name(path) {
        Some(n) => Some(stem_of(n)),
        None => None,
    }
}

/// The extension of the final component of `path` (`Path::extension`).
pub fn extension(path: &str) -> (r: Option<&str>)
    ensures
        match r {
            Some(e) => extension_spec(path@) == Some(e@),
            None => extension_spec(path@) is None,
        },
{
    match file_name(path) {
        Some(n) => extension_of(n),
        None => None,
    }
}

} // verus!
