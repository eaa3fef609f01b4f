//! Decomposition of a path string into the parts that a record carries.
//!
//! A path is written in one of two styles. Unix paths are split at `/`;
//! Windows paths at `/` and `\`, and may begin with a drive prefix such as
//! `C:`. The final component is the text after the last separator (and after
//! any drive prefix); the parent is the text before it. A final component of
//! `.` or `..` names no file.
use vstd::prelude::*;

verus! {

broadcast use vstd::string::group_string_axioms;

/// How a path is written.
#[derive(Debug, Clone, Copy, PartialEq, Eq, Structural)]
pub enum PathStyle {
    /// Components separated by `/`.
    Unix,
    /// Components separated by `\` or `/`, after an optional drive prefix.
    Windows,
}

/// Whether `c` separates path components in the given style.
pub open spec fn is_sep(style: PathStyle, c: char) -> bool {
    c == '/' || (style == PathStyle::Windows && c == '\\')
}

/// The separator that the style writes between components.
pub open spec fn main_sep(style: PathStyle) -> char {
    if style == PathStyle::Windows {
        '\\'
    } else {
        '/'
    }
}

/// Whether a path begins with a drive prefix: a letter and a colon, in the
/// Windows style.
pub open spec fn has_drive(style: PathStyle, p: Seq<char>) -> bool {
    &&& style == PathStyle::Windows
    &&& p.len() >= 2
    &&& p[1] == ':'
    &&& (('a' <= p[0] && p[0] <= 'z') || ('A' <= p[0] && p[0] <= 'Z'))
}

/// Whether a path is a root alone: a separator, a drive prefix, or a drive
/// prefix and a separator.
pub open spec fn is_root(style: PathStyle, p: Seq<char>) -> bool {
    ||| (p.len() == 1 && is_sep(style, p[0]))
    ||| (has_drive(style, p) && p.len() == 2)
    ||| (has_drive(style, p) && p.len() == 3 && is_sep(style, p[2]))
}

/// Whether a path is absolute for joining: it starts at a root or a drive.
pub open spec fn is_absolute(style: PathStyle, p: Seq<char>) -> bool {
    (p.len() > 0 && is_sep(style, p[0])) || has_drive(style, p)
}

/// The index of the last separator in `s`, or `-1` where there is none.
pub open spec fn last_sep(style: PathStyle, s: Seq<char>) -> int
    decreases s.len(),
{
    if s.len() == 0 {
        -1
    } else if is_sep(style, s.last()) {
        s.len() - 1
    } else {
        last_sep(style, s.drop_last())
    }
}

pub proof fn lemma_last_sep_range(style: PathStyle, s: Seq<char>)
    ensures
        -1 <= last_sep(style, s) < s.len(),
        last_sep(style, s) >= 0 ==> is_sep(style, s[last_sep(style, s)]),
    decreases s.len(),
{
    if s.len() > 0 && !is_sep(style, s.last()) {
        lemma_last_sep_range(style, s.drop_last());
    }
}

/// The index of the last occurrence of `c` in `s`, or `-1` where there is none.
pub open spec fn last_index(s: Seq<char>, c: char) -> int
    decreases s.len(),
{
    if s.len() == 0 {
        -1
    } else if s.last() == c {
        s.len() - 1
    } else {
        last_index(s.drop_last(), c)
    }
}

pub proof fn lemma_last_index_range(s: Seq<char>, c: char)
    ensures
        -1 <= last_index(s, c) < s.len(),
        last_index(s, c) >= 0 ==> s[last_index(s, c)] == c,
    decreases s.len(),
{
    if s.len() > 0 && s.last() != c {
        lemma_last_index_range(s.drop_last(), c);
    }
}

/// Where the final component of a path starts.
pub open spec fn name_start(style: PathStyle, p: Seq<char>) -> int {
    let after_sep = last_sep(style, p) + 1;
    if has_drive(style, p) && after_sep < 2 {
        2
    } else {
        after_sep
    }
}

/// The final component of a path, or nothing where it is `.` or `..`.
pub open spec fn name_of(style: PathStyle, p: Seq<char>) -> Seq<char> {
    let n = p.subrange(name_start(style, p), p.len() as int);
    if n == seq!['.'] || n == seq!['.', '.'] {
        Seq::empty()
    } else {
        n
    }
}

/// A file name without its extension. The extension starts after the last
/// dot; a name whose only dot is its first character (`.profile`) has none.
pub open spec fn stem_of(name: Seq<char>) -> Seq<char> {
    let d = last_index(name, '.');
    if d <= 0 {
        name
    } else {
        name.subrange(0, d)
    }
}

/// The extension of a file name, without its dot; empty where there is none.
pub open spec fn extension_of(name: Seq<char>) -> Seq<char> {
    let d = last_index(name, '.');
    if d <= 0 {
        Seq::empty()
    } else {
        name.subrange(d + 1, name.len() as int)
    }
}

/// The parent of a path: none for the empty path or a root alone; else the
/// text before the last separator, keeping the separator where it belongs to
/// the root (`/`, `C:\`); the drive prefix or the empty path for a single
/// component.
pub open spec fn parent_of(style: PathStyle, p: Seq<char>) -> Option<Seq<char>> {
    let i = last_sep(style, p);
    if p.len() == 0 || is_root(style, p) {
        None
    } else if i < 0 {
        if has_drive(style, p) {
            Some(p.take(2))
        } else {
            Some(Seq::empty())
        }
    } else if i == 0 {
        Some(p.take(1))
    } else if i == 2 && has_drive(style, p) {
        Some(p.take(3))
    } else {
        Some(p.take(i))
    }
}

/// The parent of a path as a record shows it: empty where there is none.
pub open spec fn directory_of(style: PathStyle, p: Seq<char>) -> Seq<char> {
    match parent_of(style, p) {
        Some(d) => d,
        None => Seq::empty(),
    }
}

/// Whether `c` separates path components in the given style.
pub fn is_separator(style: PathStyle, c: char) -> (r: bool)
    ensures
        r == is_sep(style, c),
{
    c == '/' || (style == PathStyle::Windows && c == '\\')
}

/// Whether the characters `v` begin with a drive prefix.
pub(crate) fn starts_with_drive(style: PathStyle, v: &Vec<char>) -> (r: bool)
    ensures
        r == has_drive(style, v@),
{
    style == PathStyle::Windows && v.len() >= 2 && v[1] == ':' && (('a' <= v[0] && v[0] <= 'z')
        || ('A' <= v[0] && v[0] <= 'Z'))
}

/// Where the last separator of `v` stands.
fn find_last_sep(style: PathStyle, v: &Vec<char>) -> (r: Option<usize>)
    ensures
        match r {
            Some(i) => i == last_sep(style, v@),
            None => last_sep(style, v@) == -1,
        },
{
    let mut i: usize = v.len();
    assert(v@.take(i as int) =~= v@);
    while i > 0
        invariant
            i <= v.len(),
            last_sep(style, v@) == last_sep(style, v@.take(i as int)),
        decreases i,
    {
        assert(v@.take(i as int).drop_last() =~= v@.take(i - 1));
        if is_separator(style, v[i - 1]) {
            return Some(i - 1);
        }
        i = i - 1;
    }
    None
}

/// The characters of `s`, in order.
pub fn chars_of(s: &str) -> (r: Vec<char>)
    ensures
        r@ == s@,
{
    let mut r: Vec<char> = Vec::new();
    for c in it: s.chars()
        invariant
            it.seq() == s@,
            r.len() == it.index(),
            forall|j: int| 0 <= j < r.len() ==> r@[j] == it.seq()[j],
    {
        r.push(c);
    }
    assert(r@ =~= s@);
    r
}

/// Where `c` last occurs in `v`.
pub fn find_last(v: &Vec<char>, c: char) -> (r: Option<usize>)
    ensures
        match r {
            Some(i) => i == last_index(v@, c),
            None => last_index(v@, c) == -1,
        },
{
    let mut i: usize = v.len();
    assert(v@.take(i as int) =~= v@);
    while i > 0
        invariant
            i <= v.len(),
            last_index(v@, c) == last_index(v@.take(i as int), c),
        decreases i,
    {
        assert(v@.take(i as int).drop_last() =~= v@.take(i - 1));
        if v[i - 1] == c {
            return Some(i - 1);
        }
        i = i - 1;
    }
    None
}

/// The text of `s` between two character positions.
fn slice_text(s: &str, from: usize, to: usize) -> (r: String)
    requires
        from <= to <= s@.len(),
    ensures
        r@ == s@.subrange(from as int, to as int),
{
    s.substring_char(from, to).to_owned()
}

/// The final component of `path`.
pub fn file_name(path: &str, style: PathStyle) -> (r: String)
    ensures
        r@ == name_of(style, path@),
{
    let v = chars_of(path);
    proof {
        lemma_last_sep_range(style, path@);
    }
    let after_sep: usize = match find_last_sep(style, &v) {
        Some(i) => {
            assert(i < v.len());
            i + 1
        },
        None => 0,
    };
    let start: usize = if starts_with_drive(style, &v) && after_sep < 2 {
        2
    } else {
        after_sep
    };
    let n: usize = v.len() - start;
    if (n == 1 && v[start] == '.') || (n == 2 && v[start] == '.' && v[start + 1] == '.') {
        assert(path@.subrange(start as int, path@.len() as int) =~= if n == 1 {
            seq!['.']
        } else {
            seq!['.', '.']
        });
        String::new()
    } else {
        let r = slice_text(path, start, v.len());
        assert(n == 1 ==> r@ != seq!['.']) by {
            if n == 1 {
                assert(r@[0] == v@[start as int]);
            }
        }
        assert(n == 2 ==> r@ != seq!['.', '.']) by {
            if n == 2 {
                assert(r@[0] == v@[start as int]);
                assert(r@[1] == v@[start + 1]);
            }
        }
        r
    }
}

/// The final component of `path` without its extension.
pub fn base_name(path: &str, style: PathStyle) -> (r: String)
    ensures
        r@ == stem_of(name_of(style, path@)),
{
    let name = file_name(path, style);
    let v = chars_of(name.as_str());
    proof {
        lemma_last_index_range(name@, '.');
    }
    match find_last(&v, '.') {
        Some(d) if d > 0 => slice_text(name.as_str(), 0, d),
        _ => name,
    }
}

/// The extension of the final component of `path`, without its dot.
pub fn extension(path: &str, style: PathStyle) -> (r: String)
    ensures
        r@ == extension_of(name_of(style, path@)),
{
    let name = file_name(path, style);
    let v = chars_of(name.as_str());
    proof {
        lemma_last_index_range(name@, '.');
    }
    match find_last(&v, '.') {
        Some(d) if d > 0 => {
            assert(d < v.len());
            slice_text(name.as_str(), d + 1, v.len())
        },
        _ => String::new(),
    }
}

/// The parent of `path`, if it has one.
pub fn parent(path: &str, style: PathStyle) -> (r: Option<String>)
    ensures
        match r {
            Some(d) => parent_of(style, path@) == Some(d@),
            None => parent_of(style, path@) is None,
        },
{
    let v = chars_of(path);
    proof {
        lemma_last_sep_range(style, path@);
    }
    let drive = starts_with_drive(style, &v);
    let root = (v.len() == 1 && is_separator(style, v[0])) || (drive && v.len() == 2) || (drive
        && v.len() == 3 && is_separator(style, v[2]));
    if v.len() == 0 || root {
        return None;
    }
    match find_last_sep(style, &v) {
        None => {
            if drive {
                Some(slice_text(path, 0, 2))
            } else {
                Some(String::new())
            }
        },
        Some(0) => Some(slice_text(path, 0, 1)),
        Some(i) => {
            if i == 2 && drive {
                Some(slice_text(path, 0, 3))
            } else {
                Some(slice_text(path, 0, i))
            }
        },
    }
}

/// The parent of `path`, or the empty string where it has none.
pub fn directory_name(path: &str, style: PathStyle) -> (r: String)
    ensures
        r@ == directory_of(style, path@),
{
    match parent(path, style) {
        Some(d) => d,
        None => String::new(),
    }
}

} // verus!
