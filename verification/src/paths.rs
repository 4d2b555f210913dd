//! Filesystem paths held as strings, with `/` as the separator.
//!
//! The operations here follow the behaviour of `std::path` on Unix-like systems:
//! separators at the end of a path and `.` components after its start are not
//! components, and a path that starts with `/` or with the component `.` keeps that
//! start.

use vstd::prelude::*;

verus! {

/// The index of the last occurrence of `c` in `s`, or -1 when `c` does not occur.
pub open spec fn last_index_of(s: Seq<char>, c: char) -> int
    decreases s.len(),
{
    if s.len() == 0 {
        -1
    } else if s.last() == c {
        s.len() - 1
    } else {
        last_index_of(s.drop_last(), c)
    }
}

pub proof fn lemma_last_index_of(s: Seq<char>, c: char)
    ensures
        -1 <= last_index_of(s, c) < s.len(),
        last_index_of(s, c) >= 0 ==> s[last_index_of(s, c)] == c,
        forall|j: int| last_index_of(s, c) < j < s.len() ==> s[j] != c,
    decreases s.len(),
{
    if s.len() > 0 && s.last() != c {
        lemma_last_index_of(s.drop_last(), c);
        assert forall|j: int| last_index_of(s, c) < j < s.len() implies s[j] != c by {
            if j < s.len() - 1 {
                assert(s[j] == s.drop_last()[j]);
            }
        }
    }
}

/// `base` joined with `part`: an empty `part` leaves `base` (a separator at the end is
/// no component, so `std::path` takes both for the same path), an absolute `part`
/// replaces `base`, otherwise a separator is put between them when `base` is not empty
/// and does not already end with one.
pub open spec fn join(base: Seq<char>, part: Seq<char>) -> Seq<char> {
    if part.len() == 0 {
        base
    } else if part[0] == '/' {
        part
    } else if base.len() == 0 {
        part
    } else if base.last() == '/' {
        base + part
    } else {
        base + seq!['/'] + part
    }
}

/// The length of the start of `p` that is not part of its body: the root `/`, or the
/// leading component `.`.
pub open spec fn body_floor(p: Seq<char>) -> int {
    if p.len() > 0 && p[0] == '/' {
        1
    } else if p.len() > 0 && p[0] == '.' && (p.len() == 1 || p[1] == '/') {
        1
    } else {
        0
    }
}

/// Whether `p` ends with a separator or with a `.` component.
pub open spec fn ends_with_no_component(p: Seq<char>) -> bool {
    p.len() > 0 && (p.last() == '/' || (p.last() == '.' && (p.len() == 1 || p[p.len() - 2] == '/')))
}

/// `p` without the separators and the `.` components at its end, beyond its first
/// `floor` characters.
pub open spec fn trim_end(p: Seq<char>, floor: int) -> Seq<char>
    decreases p.len(),
{
    if p.len() <= floor {
        p
    } else if ends_with_no_component(p) {
        trim_end(p.drop_last(), floor)
    } else {
        p
    }
}

/// `p` without the separators and the `.` components at its end.
pub open spec fn trimmed(p: Seq<char>) -> Seq<char> {
    trim_end(p, body_floor(p))
}

/// The last component of a path (empty for the root or an empty path).
pub open spec fn file_name(p: Seq<char>) -> Seq<char> {
    let t = trimmed(p);
    t.subrange(last_index_of(t, '/') + 1, t.len() as int)
}

/// Whether a file name carries an extension: a dot that is not its first character
/// (the names `.` and `..` carry none).
pub open spec fn has_extension(name: Seq<char>) -> bool {
    last_index_of(name, '.') > 0 && name != seq!['.', '.']
}

/// The file name without its extension.
pub open spec fn stem_of_name(name: Seq<char>) -> Seq<char> {
    if has_extension(name) {
        name.subrange(0, last_index_of(name, '.'))
    } else {
        name
    }
}

/// The extension of a file name (empty when it has none).
pub open spec fn extension_of_name(name: Seq<char>) -> Seq<char> {
    if has_extension(name) {
        name.subrange(last_index_of(name, '.') + 1, name.len() as int)
    } else {
        Seq::empty()
    }
}

/// Whether the last component names a file or a directory (it is not empty, `.` or `..`).
pub open spec fn names_entry(p: Seq<char>) -> bool {
    let name = file_name(p);
    name.len() > 0 && name != seq!['.'] && name != seq!['.', '.']
}

/// `p` with the extension of its last component replaced by `ext`, or removed when `ext`
/// is empty. A path whose last component is not a name is left as it is.
pub open spec fn with_extension(p: Seq<char>, ext: Seq<char>) -> Seq<char> {
    if !names_entry(p) {
        p
    } else {
        let t = trimmed(p);
        let prefix = t.subrange(0, last_index_of(t, '/') + 1);
        let stem = stem_of_name(file_name(p));
        if ext.len() == 0 {
            prefix + stem
        } else {
            prefix + stem + seq!['.'] + ext
        }
    }
}

/// The directory that holds the last component: what comes before it, without the
/// separators and the `.` components at its end; empty for a bare name, `/` for an entry
/// of the root.
pub open spec fn parent(p: Seq<char>) -> Seq<char> {
    let t = trimmed(p);
    let i = last_index_of(t, '/');
    if i < 0 {
        Seq::empty()
    } else {
        trim_end(t.subrange(0, i + 1), body_floor(p))
    }
}

/// Finds the last occurrence of `c` in `s`.
pub fn rfind_char(s: &str, c: char) -> (r: Option<usize>)
    ensures
        match r {
            Some(i) => i as int == last_index_of(s@, c),
            None => last_index_of(s@, c) == -1,
        },
{
    proof {
        lemma_last_index_of(s@, c);
    }
    let len = s.unicode_len();
    let mut i = len;
    while i > 0
        invariant
            i <= len == s@.len(),
            forall|j: int| i <= j < len ==> s@[j] != c,
        decreases i,
    {
        if s.get_char(i - 1) == c {
            proof {
                lemma_last_index_of_is_last(s@, c, (i - 1) as int);
            }
            return Some(i - 1);
        }
        i = i - 1;
    }
    proof {
        lemma_last_index_of_none(s@, c);
    }
    None
}

proof fn lemma_last_index_of_is_last(s: Seq<char>, c: char, i: int)
    requires
        0 <= i < s.len(),
        s[i] == c,
        forall|j: int| i < j < s.len() ==> s[j] != c,
    ensures
        last_index_of(s, c) == i,
    decreases s.len(),
{
    if s.last() != c {
        assert(s.drop_last()[i] == c);
        lemma_last_index_of_is_last(s.drop_last(), c, i);
    }
}

proof fn lemma_last_index_of_none(s: Seq<char>, c: char)
    requires
        forall|j: int| 0 <= j < s.len() ==> s[j] != c,
    ensures
        last_index_of(s, c) == -1,
    decreases s.len(),
{
    if s.len() > 0 {
        lemma_last_index_of_none(s.drop_last(), c);
    }
}

/// Whether both strings hold the same characters.
pub fn str_equal(a: &str, b: &str) -> (r: bool)
    ensures
        r == (a@ == b@),
{
    String::from_str(a) == String::from_str(b)
}

/// Joins `part` to `base` (see `join`).
pub fn join_path(base: &str, part: &str) -> (r: String)
    ensures
        r@ == join(base@, part@),
{
    let part_len = part.unicode_len();
    let base_len = base.unicode_len();
    if part_len == 0 {
        String::from_str(base)
    } else if part.get_char(0) == '/' {
        String::from_str(part)
    } else if base_len == 0 {
        String::from_str(part)
    } else if base.get_char(base_len - 1) == '/' {
        let mut r = String::from_str(base);
        r.append(part);
        r
    } else {
        let mut r = String::from_str(base);
        r.append("/");
        proof {
            reveal_strlit("/");
        }
        r.append(part);
        r
    }
}

/// Whether `s` is the two-character name `..`.
fn is_dot_dot(s: &str) -> (r: bool)
    ensures
        r == (s@ == seq!['.', '.']),
{
    if s.unicode_len() == 2 && s.get_char(0) == '.' && s.get_char(1) == '.' {
        assert(s@ =~= seq!['.', '.']);
        true
    } else {
        false
    }
}

/// Whether `s` is the one-character name `.`.
fn is_dot(s: &str) -> (r: bool)
    ensures
        r == (s@ == seq!['.']),
{
    if s.unicode_len() == 1 && s.get_char(0) == '.' {
        assert(s@ =~= seq!['.']);
        true
    } else {
        false
    }
}

/// The length of the start of `p` that is not part of its body (see `body_floor`).
fn floor_of(p: &str) -> (r: usize)
    ensures
        r as int == body_floor(p@),
        r <= p@.len(),
{
    let len = p.unicode_len();
    if len > 0 && p.get_char(0) == '/' {
        1
    } else if len > 0 && p.get_char(0) == '.' && (len == 1 || p.get_char(1) == '/') {
        1
    } else {
        0
    }
}

/// The length of `p` without the separators and the `.` components at its end, beyond
/// its first `floor` characters (see `trim_end`).
fn trim_end_len(p: &str, floor: usize) -> (n: usize)
    ensures
        n <= p@.len(),
        p@.subrange(0, n as int) == trim_end(p@, floor as int),
{
    let len = p.unicode_len();
    let mut i = len;
    proof {
        assert(p@.subrange(0, len as int) =~= p@);
    }
    while i > floor
        invariant
            i <= len == p@.len(),
            trim_end(p@.subrange(0, i as int), floor as int) == trim_end(p@, floor as int),
        decreases i,
    {
        let c = p.get_char(i - 1);
        let no_component = c == '/' || (c == '.' && (i == 1 || p.get_char(i - 2) == '/'));
        let ghost q = p@.subrange(0, i as int);
        proof {
            assert(q.last() == p@[i - 1]);
            if i >= 2 {
                assert(q[q.len() - 2] == p@[i - 2]);
            }
            assert(q.drop_last() =~= p@.subrange(0, i - 1));
        }
        if no_component {
            i = i - 1;
        } else {
            return i;
        }
    }
    i
}

/// The last component of `p`.
pub fn get_file_name(p: &str) -> (r: String)
    ensures
        r@ == file_name(p@),
{
    let n = trim_end_len(p, floor_of(p));
    let t = p.substring_char(0, n);
    proof {
        lemma_last_index_of(t@, '/');
    }
    let start = match rfind_char(t, '/') {
        Some(i) => i + 1,
        None => 0,
    };
    String::from_str(t.substring_char(start, n))
}

/// The file stem of the name `name`.
pub fn get_stem_of_name(name: &str) -> (r: String)
    ensures
        r@ == stem_of_name(name@),
{
    proof {
        lemma_last_index_of(name@, '.');
    }
    let dd = is_dot_dot(name);
    match rfind_char(name, '.') {
        Some(i) => {
            if i > 0 && !dd {
                String::from_str(name.substring_char(0, i))
            } else {
                String::from_str(name)
            }
        },
        None => String::from_str(name),
    }
}

/// The extension of the name `name`.
pub fn get_extension_of_name(name: &str) -> (r: String)
    ensures
        r@ == extension_of_name(name@),
{
    proof {
        lemma_last_index_of(name@, '.');
    }
    let dd = is_dot_dot(name);
    let nlen = name.unicode_len();
    match rfind_char(name, '.') {
        Some(i) => {
            if i > 0 && !dd {
                String::from_str(name.substring_char(i + 1, nlen))
            } else {
                String::new()
            }
        },
        None => String::new(),
    }
}

/// `p` with the extension of its last component replaced by `ext` (removed when `ext`
/// is empty).
pub fn set_extension(p: &str, ext: &str) -> (r: String)
    ensures
        r@ == with_extension(p@, ext@),
{
    let name = get_file_name(p);
    let name_str = name.as_str();
    if name_str.unicode_len() == 0 || is_dot(name_str) || is_dot_dot(name_str) {
        return String::from_str(p);
    }
    let n = trim_end_len(p, floor_of(p));
    let t = p.substring_char(0, n);
    proof {
        lemma_last_index_of(t@, '/');
    }
    let start = match rfind_char(t, '/') {
        Some(i) => i + 1,
        None => 0,
    };
    let mut r = String::from_str(t.substring_char(0, start));
    let stem = get_stem_of_name(name_str);
    r.append(stem.as_str());
    if ext.unicode_len() > 0 {
        r.append(".");
        proof {
            reveal_strlit(".");
        }
        r.append(ext);
    }
    r
}

/// The directory holding the last component of `p`.
pub fn get_parent(p: &str) -> (r: String)
    ensures
        r@ == parent(p@),
{
    let floor = floor_of(p);
    let n = trim_end_len(p, floor);
    let t = p.substring_char(0, n);
    proof {
        lemma_last_index_of(t@, '/');
    }
    match rfind_char(t, '/') {
        Some(i) => {
            let head = t.substring_char(0, i + 1);
            let m = trim_end_len(head, floor);
            String::from_str(head.substring_char(0, m))
        },
        None => String::new(),
    }
}

/// The directory, the file stem and the extension of the file at `p`, when its last
/// component names an entry (`None` otherwise). A bare name has an empty directory.
pub fn get_file_details(p: &str) -> (r: Option<(String, String, String)>)
    ensures
        match r {
            Some((dir, stem, ext)) => {
                &&& names_entry(p@)
                &&& dir@ == parent(p@)
                &&& stem@ == stem_of_name(file_name(p@))
                &&& ext@ == extension_of_name(file_name(p@))
            },
            None => !names_entry(p@),
        },
{
    let name = get_file_name(p);
    let name_str = name.as_str();
    if name_str.unicode_len() == 0 || is_dot(name_str) || is_dot_dot(name_str) {
        return None;
    }
    Some((get_parent(p), get_stem_of_name(name_str), get_extension_of_name(name_str)))
}

/// The path of `file` under the directory `base`.
pub fn make_path(base: &str, file: &str) -> (r: String)
    ensures
        r@ == join(base@, file@),
{
    join_path(base, file)
}

} // verus!
