//! Path fragments as character strings.
//!
//! Paths here are plain strings: components are joined with `/`, and both
//! `/` and `\` are recognized as separators when a path is taken apart.

use vstd::prelude::*;

verus! {

use vstd::string::StrSliceExecFns;

/// A path-separator character, on either slash convention.
pub open spec fn is_path_sep(c: char) -> bool {
    c == '/' || c == '\\'
}

/// `n` is the file-name part of the path `p`: everything after the last
/// separator, or all of `p` when it has no separator.
pub open spec fn is_file_name_of(p: Seq<char>, n: Seq<char>) -> bool {
    ||| exists|i: int|
        {
            &&& 0 <= i < p.len()
            &&& is_path_sep(p[i])
            &&& (forall|j: int| i < j < p.len() ==> !is_path_sep(#[trigger] p[j]))
            &&& n == p.subrange(i + 1, p.len() as int)
        }
    ||| {
        &&& (forall|j: int| 0 <= j < p.len() ==> !is_path_sep(#[trigger] p[j]))
        &&& n == p
    }
}

/// `r` is the parent of the path `p`: everything before the last separator,
/// or empty when `p` has no separator.
pub open spec fn is_parent_of(p: Seq<char>, r: Seq<char>) -> bool {
    ||| exists|i: int|
        {
            &&& 0 <= i < p.len()
            &&& is_path_sep(p[i])
            &&& (forall|j: int| i < j < p.len() ==> !is_path_sep(#[trigger] p[j]))
            &&& r == p.subrange(0, i)
        }
    ||| {
        &&& (forall|j: int| 0 <= j < p.len() ==> !is_path_sep(#[trigger] p[j]))
        &&& r.len() == 0
    }
}

/// `r` is the stem of the file name `n`: everything before the last `.`,
/// unless that `.` leads the name or there is none, in which case the stem is
/// the whole name.
pub open spec fn is_stem_of_name(n: Seq<char>, r: Seq<char>) -> bool {
    ||| exists|j: int|
        {
            &&& 1 <= j < n.len()
            &&& n[j] == '.'
            &&& (forall|k: int| j < k < n.len() ==> #[trigger] n[k] != '.')
            &&& r == n.subrange(0, j)
        }
    ||| {
        &&& (forall|k: int| 1 <= k < n.len() ==> #[trigger] n[k] != '.')
        &&& r == n
    }
}

/// `r` is the stem of the file name of the path `p`.
pub open spec fn is_stem_of(p: Seq<char>, r: Seq<char>) -> bool {
    exists|n: Seq<char>| #[trigger] is_file_name_of(p, n) && is_stem_of_name(n, r)
}

/// The index of the last path separator in `s`, if any.
fn rfind_sep(s: &str) -> (r: Option<usize>)
    ensures
        match r {
            Some(i) => 0 <= i < s@.len() && is_path_sep(s@[i as int]) && (forall|j: int|
                i < j < s@.len() ==> !is_path_sep(#[trigger] s@[j])),
            None => forall|j: int| 0 <= j < s@.len() ==> !is_path_sep(#[trigger] s@[j]),
        },
{
    let n = s.unicode_len();
    let mut i: usize = n;
    while i > 0
        invariant
            i <= n,
            n == s@.len(),
            forall|j: int| i <= j < s@.len() ==> !is_path_sep(#[trigger] s@[j]),
        decreases i,
    {
        i -= 1;
        let c = s.get_char(i);
        if c == '/' || c == '\\' {
            return Some(i);
        }
    }
    None
}

/// The index of the last `.` in `s`, if any.
fn rfind_dot(s: &str) -> (r: Option<usize>)
    ensures
        match r {
            Some(i) => 0 <= i < s@.len() && s@[i as int] == '.' && (forall|j: int|
                i < j < s@.len() ==> #[trigger] s@[j] != '.'),
            None => forall|j: int| 0 <= j < s@.len() ==> #[trigger] s@[j] != '.',
        },
{
    let n = s.unicode_len();
    let mut i: usize = n;
    while i > 0
        invariant
            i <= n,
            n == s@.len(),
            forall|j: int| i <= j < s@.len() ==> #[trigger] s@[j] != '.',
        decreases i,
    {
        i -= 1;
        if s.get_char(i) == '.' {
            return Some(i);
        }
    }
    None
}

/// The file-name part of a path: everything after the last separator.
pub fn file_name_part(p: &str) -> (r: &str)
    ensures
        is_file_name_of(p@, r@),
{
    let n = p.unicode_len();
    match rfind_sep(p) {
        Some(i) => p.substring_char(i + 1, n),
        None => p,
    }
}

/// The parent of a path: everything before the last separator, empty when
/// the path is a bare file name.
pub fn parent_dir(p: &str) -> (r: &str)
    ensures
        is_parent_of(p@, r@),
{
    match rfind_sep(p) {
        Some(i) => p.substring_char(0, i),
        None => {
            proof {
                reveal_strlit("");
            }
            ""
        },
    }
}

/// The stem of a path's file name: the name without its extension.
pub fn file_stem(p: &str) -> (r: &str)
    ensures
        is_stem_of(p@, r@),
{
    let name = file_name_part(p);
    let m = name.unicode_len();
    let r = match rfind_dot(name) {
        Some(j) => {
            if j > 0 {
                name.substring_char(0, j)
            } else {
                name
            }
        },
        None => name,
    };
    proof {
        assert(is_file_name_of(p@, name@) && is_stem_of_name(name@, r@));
    }
    r
}

/// A directory usable as a process's working directory: the directory
/// itself, or the current directory when it is empty.
pub fn or_curdir(directory: &str) -> (r: &str)
    ensures
        directory@.len() == 0 ==> r@ == "."@,
        directory@.len() > 0 ==> r@ == directory@,
{
    if directory.unicode_len() == 0 {
        "."
    } else {
        directory
    }
}

} // verus!
