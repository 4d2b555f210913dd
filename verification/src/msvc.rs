//! What the build learns about an installation of MSVC: the environment that its
//! developer command prompt sets, and where its modular standard libraries are and where
//! their build products go.

use vstd::prelude::*;

use crate::cache::MsvcMetadata;
use crate::compiler_model::{bmi_extension, compiler_name, module_extension, obj_extension, CppCompiler};
use crate::env_vars::EnvVars;
use crate::paths::{join, join_path, set_extension, with_extension};
use crate::project_model::SourceFile;

verus! {

/// The name of a result of matching `text` against the regular expression `pattern`:
/// `None` when the pattern is not a valid expression, otherwise whether some part of
/// `text` matches it.
pub uninterp spec fn regex_match_result(pattern: Seq<char>, text: Seq<char>) -> Option<bool>;

/// `regex::Regex::new` followed by `Regex::is_match`: compiles `pattern` and tells
/// whether `text` matches it (`None` when the pattern does not compile). Its result is
/// named (it depends on the two arguments alone) and stated for the pattern of the names
/// of environment variables: `^` and `$` anchor the match at the start and the end of
/// the text, `[a-zA-Z_]+` takes one or more ASCII letters or underscores.
#[verifier::external_body]
fn regex_is_match(pattern: &str, text: &str) -> (r: Option<bool>)
    ensures
        r == regex_match_result(pattern@, text@),
        pattern@ == env_var_name_pattern() ==> r == Some(is_env_var_name(text@)),
{
    match regex::Regex::new(pattern) {
        Ok(re) => Some(re.is_match(text)),
        Err(_) => None,
    }
}

/// The pattern of the names of the environment variables that are kept.
pub open spec fn env_var_name_pattern() -> Seq<char> {
    "^[a-zA-Z_]+$"@
}

/// Whether `s` is the name of an environment variable that is kept: one or more ASCII
/// letters or underscores.
pub open spec fn is_env_var_name(s: Seq<char>) -> bool {
    &&& s.len() > 0
    &&& forall|i: int|
        0 <= i < s.len() ==> ('a' <= #[trigger] s[i] <= 'z' || 'A' <= s[i] <= 'Z' || s[i] == '_')
}

/// Whether `c` is a white space character (the Unicode `White_Space` property).
pub open spec fn is_white_space(c: char) -> bool {
    ||| '\u{9}' <= c <= '\u{d}'
    ||| c == ' '
    ||| c == '\u{85}'
    ||| c == '\u{a0}'
    ||| c == '\u{1680}'
    ||| '\u{2000}' <= c <= '\u{200a}'
    ||| c == '\u{2028}'
    ||| c == '\u{2029}'
    ||| c == '\u{202f}'
    ||| c == '\u{205f}'
    ||| c == '\u{3000}'
}

/// The number of white space characters at the start of `s`.
pub open spec fn leading_ws(s: Seq<char>) -> nat
    decreases s.len(),
{
    if s.len() > 0 && is_white_space(s[0]) {
        1 + leading_ws(s.skip(1))
    } else {
        0
    }
}

/// The number of white space characters at the end of `s`.
pub open spec fn trailing_ws(s: Seq<char>) -> nat
    decreases s.len(),
{
    if s.len() > 0 && is_white_space(s.last()) {
        1 + trailing_ws(s.drop_last())
    } else {
        0
    }
}

/// `s` without the white space at its start and at its end.
pub open spec fn trimmed(s: Seq<char>) -> Seq<char> {
    let t = s.skip(leading_ws(s) as int);
    t.take(t.len() - trailing_ws(t))
}

fn is_ws(c: char) -> (r: bool)
    ensures
        r == is_white_space(c),
{
    ('\u{9}' <= c && c <= '\u{d}') || c == ' ' || c == '\u{85}' || c == '\u{a0}' || c == '\u{1680}' || ('\u{2000}' <= c
        && c <= '\u{200a}') || c == '\u{2028}' || c == '\u{2029}' || c == '\u{202f}' || c == '\u{205f}' || c == '\u{3000}'
}

proof fn lemma_leading_ws(s: Seq<char>, i: int)
    requires
        0 <= i <= s.len(),
        forall|j: int| 0 <= j < i ==> is_white_space(#[trigger] s[j]),
        i == s.len() || !is_white_space(s[i]),
    ensures
        leading_ws(s) == i,
    decreases i,
{
    if i > 0 {
        let t = s.skip(1);
        assert forall|j: int| 0 <= j < i - 1 implies is_white_space(#[trigger] t[j]) by {
            assert(t[j] == s[j + 1]);
        }
        if i - 1 < t.len() {
            assert(t[i - 1] == s[i]);
        }
        lemma_leading_ws(t, i - 1);
    }
}

proof fn lemma_trailing_ws(s: Seq<char>, k: int)
    requires
        0 <= k <= s.len(),
        forall|j: int| s.len() - k <= j < s.len() ==> is_white_space(#[trigger] s[j]),
        k == s.len() || !is_white_space(s[s.len() - k - 1]),
    ensures
        trailing_ws(s) == k,
    decreases k,
{
    if k > 0 {
        let t = s.drop_last();
        assert forall|j: int| t.len() - (k - 1) <= j < t.len() implies is_white_space(#[trigger] t[j]) by {
            assert(t[j] == s[j]);
        }
        if k - 1 < t.len() {
            assert(t[t.len() - (k - 1) - 1] == s[s.len() - k - 1]);
        }
        lemma_trailing_ws(t, k - 1);
    }
}

/// `s` without the white space at its start and at its end.
pub fn trim_text(s: &str) -> (r: String)
    ensures
        r@ == trimmed(s@),
{
    let n = s.unicode_len();
    let mut start: usize = 0;
    while start < n && is_ws(s.get_char(start))
        invariant
            0 <= start <= n == s@.len(),
            forall|j: int| 0 <= j < start ==> is_white_space(#[trigger] s@[j]),
        decreases n - start,
    {
        start = start + 1;
    }
    proof {
        lemma_leading_ws(s@, start as int);
    }
    let ghost t = s@.skip(start as int);
    let mut end: usize = n;
    while end > start && is_ws(s.get_char(end - 1))
        invariant
            start <= end <= n == s@.len(),
            t == s@.skip(start as int),
            forall|j: int| end <= j < n ==> is_white_space(#[trigger] s@[j]),
        decreases end - start,
    {
        end = end - 1;
    }
    proof {
        assert forall|j: int| t.len() - (n - end) <= j < t.len() implies is_white_space(#[trigger] t[j]) by {
            assert(t[j] == s@[start + j]);
        }
        if n - end < t.len() {
            assert(t[t.len() - (n - end) - 1] == s@[end - 1]);
        }
        lemma_trailing_ws(t, (n - end) as int);
        assert(s@.subrange(start as int, end as int) =~= t.take(t.len() - (n - end)));
    }
    String::from_str(s.substring_char(start, end))
}

/// The position of the first `c` in `s`, or -1.
pub open spec fn first_index_of(s: Seq<char>, c: char) -> int
    decreases s.len(),
{
    if s.len() == 0 {
        -1
    } else if s[0] == c {
        0
    } else {
        let r = first_index_of(s.skip(1), c);
        if r < 0 {
            -1
        } else {
            r + 1
        }
    }
}

proof fn lemma_first_index_of(s: Seq<char>, c: char, i: int)
    requires
        0 <= i <= s.len(),
        forall|j: int| 0 <= j < i ==> #[trigger] s[j] != c,
        i == s.len() || s[i] == c,
    ensures
        first_index_of(s, c) == if i == s.len() {
            -1
        } else {
            i
        },
    decreases i,
{
    if i > 0 {
        let t = s.skip(1);
        assert forall|j: int| 0 <= j < i - 1 implies #[trigger] t[j] != c by {
            assert(t[j] == s[j + 1]);
        }
        if i - 1 < t.len() {
            assert(t[i - 1] == s[i]);
        }
        lemma_first_index_of(t, c, i - 1);
    }
}

/// The position of the first `c` in `s` from position `from` on.
fn find_from(s: &str, c: char, from: usize) -> (r: Option<usize>)
    requires
        from <= s@.len(),
    ensures
        match r {
            Some(i) => from <= i < s@.len() && first_index_of(s@.skip(from as int), c) == i - from,
            None => first_index_of(s@.skip(from as int), c) == -1,
        },
{
    let n = s.unicode_len();
    let mut i = from;
    while i < n
        invariant
            from <= i <= n == s@.len(),
            forall|j: int| from <= j < i ==> s@[j] != c,
        decreases n - i,
    {
        if s.get_char(i) == c {
            proof {
                let t = s@.skip(from as int);
                assert forall|j: int| 0 <= j < i - from implies #[trigger] t[j] != c by {
                    assert(t[j] == s@[from + j]);
                }
                assert(t[i - from] == s@[i as int]);
                lemma_first_index_of(t, c, i - from);
            }
            return Some(i);
        }
        i = i + 1;
    }
    proof {
        let t = s@.skip(from as int);
        assert forall|j: int| 0 <= j < t.len() implies #[trigger] t[j] != c by {
            assert(t[j] == s@[from + j]);
        }
        lemma_first_index_of(t, c, t.len() as int);
    }
    None
}

/// The lines of `s`: the pieces between line feeds (a line feed at the very end opens
/// no new line).
pub open spec fn lines_of(s: Seq<char>) -> Seq<Seq<char>>
    decreases s.len(),
{
    if s.len() == 0 {
        Seq::empty()
    } else {
        let i = first_index_of(s, '\n');
        if i < 0 {
            seq![s]
        } else {
            proof {
                lemma_first_index_of_bounds(s, '\n');
            }
            seq![s.take(i)] + lines_of(s.skip(i + 1))
        }
    }
}

/// The first position of `c` in `s` is a position of `c`, or -1.
pub proof fn lemma_first_index_of_bounds(s: Seq<char>, c: char)
    ensures
        -1 <= first_index_of(s, c) < s.len(),
        first_index_of(s, c) >= 0 ==> s[first_index_of(s, c)] == c,
    decreases s.len(),
{
    if s.len() > 0 && s[0] != c {
        lemma_first_index_of_bounds(s.skip(1), c);
    }
}

/// The lines of `s` (see `lines_of`).
pub fn split_lines(s: &str) -> (r: Vec<String>)
    ensures
        r@.map_values(|l: String| l@) == lines_of(s@),
{
    let n = s.unicode_len();
    let mut r: Vec<String> = Vec::new();
    let mut start: usize = 0;
    proof {
        assert(s@.skip(0) =~= s@);
    }
    while start < n
        invariant
            0 <= start <= n == s@.len(),
            r@.map_values(|l: String| l@) + lines_of(s@.skip(start as int)) == lines_of(s@),
        decreases n - start,
    {
        let ghost rest = s@.skip(start as int);
        let ghost before = r@;
        proof {
            lemma_first_index_of_bounds(rest, '\n');
        }
        match find_from(s, '\n', start) {
            Some(i) => {
                let line = String::from_str(s.substring_char(start, i));
                r.push(line);
                proof {
                    assert(line@ =~= rest.take(i - start));
                    assert(rest.skip(i - start + 1) =~= s@.skip(i + 1));
                    assert(lines_of(rest) == seq![rest.take(i - start)] + lines_of(rest.skip(i - start + 1)));
                    assert(r@.map_values(|l: String| l@) =~= before.map_values(|l: String| l@).push(line@));
                    assert(r@.map_values(|l: String| l@) + lines_of(s@.skip(i + 1)) =~= before.map_values(|l: String| l@) + lines_of(rest));
                }
                start = i + 1;
            },
            None => {
                let line = String::from_str(s.substring_char(start, n));
                r.push(line);
                proof {
                    assert(line@ =~= rest);
                    assert(lines_of(rest) == seq![rest]);
                    assert(s@.skip(n as int) =~= Seq::<char>::empty());
                    assert(r@.map_values(|l: String| l@) =~= before.map_values(|l: String| l@).push(line@));
                    assert(r@.map_values(|l: String| l@) + lines_of(s@.skip(n as int)) =~= before.map_values(|l: String| l@) + lines_of(rest));
                }
                start = n;
            },
        }
    }
    proof {
        assert(s@.skip(n as int) =~= Seq::<char>::empty());
        assert(r@.map_values(|l: String| l@) + Seq::<Seq<char>>::empty() =~= r@.map_values(|l: String| l@));
    }
    r
}

/// The name part of a line `NAME=VALUE`: what comes before the first `=` (the whole
/// line when it holds none).
pub open spec fn key_part(line: Seq<char>) -> Seq<char> {
    let i = first_index_of(line, '=');
    if i < 0 {
        line
    } else {
        line.take(i)
    }
}

/// The value part of a line `NAME=VALUE`: what comes after the first `=` (nothing when
/// the line holds none).
pub open spec fn value_part(line: Seq<char>) -> Seq<char> {
    let i = first_index_of(line, '=');
    if i < 0 {
        Seq::empty()
    } else {
        line.skip(i + 1)
    }
}

/// The name and the value that a line sets, without surrounding white space.
pub open spec fn env_pair_of(line: Seq<char>) -> (Seq<char>, Seq<char>) {
    (trimmed(key_part(line)), trimmed(value_part(line)))
}

/// The variables that the pairs set, those marked in `keep`, in order (a later pair of a
/// name replaces an earlier one).
pub open spec fn env_map(pairs: Seq<(Seq<char>, Seq<char>)>, keep: Seq<bool>) -> Map<Seq<char>, Seq<char>>
    decreases pairs.len(),
{
    if pairs.len() == 0 {
        Map::empty()
    } else {
        let m = env_map(pairs.drop_last(), keep);
        if keep[pairs.len() - 1] {
            m.insert(pairs.last().0, pairs.last().1)
        } else {
            m
        }
    }
}

/// The name and the value that the line `line` sets.
pub fn env_pair_of_line(line: &str) -> (r: (String, String))
    ensures
        r.0@ == env_pair_of(line@).0,
        r.1@ == env_pair_of(line@).1,
{
    let n = line.unicode_len();
    proof {
        lemma_first_index_of_bounds(line@, '=');
        assert(line@.skip(0) =~= line@);
    }
    match find_from(line, '=', 0) {
        Some(i) => {
            proof {
                assert(line@.subrange(0, i as int) =~= line@.take(i as int));
                assert(line@.subrange(i + 1, n as int) =~= line@.skip(i + 1));
            }
            (trim_text(line.substring_char(0, i)), trim_text(line.substring_char(i + 1, n)))
        },
        None => {
            proof {
                reveal_strlit("");
                assert(trimmed(Seq::<char>::empty()) =~= Seq::<char>::empty()) by {
                    assert(leading_ws(Seq::<char>::empty()) == 0);
                    assert(trailing_ws(Seq::<char>::empty()) == 0);
                }
            }
            (trim_text(line), trim_text(""))
        },
    }
}

/// The variables that `pairs` set, each kept when `keep` marks it, in order.
pub fn collect_env_vars(pairs: &Vec<(String, String)>, keep: &Vec<bool>) -> (r: EnvVars)
    requires
        keep@.len() == pairs@.len(),
    ensures
        r@ == env_map(crate::env_vars::pair_views(pairs@), keep@),
{
    let ghost pv = crate::env_vars::pair_views(pairs@);
    let mut env = EnvVars::new();
    let mut i: usize = 0;
    while i < pairs.len()
        invariant
            0 <= i <= pairs@.len() == keep@.len(),
            pv == crate::env_vars::pair_views(pairs@),
            env@ == env_map(pv.take(i as int), keep@),
        decreases pairs@.len() - i,
    {
        proof {
            assert(pv.take(i + 1).drop_last() =~= pv.take(i as int));
        }
        if keep[i] {
            env.insert(pairs[i].0.clone(), pairs[i].1.clone());
        }
        i = i + 1;
    }
    proof {
        assert(pv.take(pairs@.len() as int) =~= pv);
    }
    env
}

/// The variables that the output of the `set` command of a developer command prompt
/// shows: a line `NAME=VALUE` sets `NAME`, and only the names made of letters and
/// underscores (those that match `env_var_name_pattern`) are kept.
pub fn load_env_vars_from_cmd_output(output: &str) -> (r: EnvVars)
    ensures
        ({
            let pairs = lines_of(output@).map_values(|l: Seq<char>| env_pair_of(l));
            r@ == env_map(
                pairs,
                pairs.map_values(|p: (Seq<char>, Seq<char>)| is_env_var_name(p.0)),
            )
        }),
{
    let lines = split_lines(output);
    let ghost ls = lines@.map_values(|l: String| l@);
    let mut pairs: Vec<(String, String)> = Vec::new();
    let mut keep: Vec<bool> = Vec::new();
    let mut i: usize = 0;
    while i < lines.len()
        invariant
            0 <= i <= lines@.len(),
            ls == lines@.map_values(|l: String| l@),
            pairs@.len() == i && keep@.len() == i,
            forall|k: int| 0 <= k < i ==> (#[trigger] crate::env_vars::pair_views(pairs@)[k]) == env_pair_of(ls[k]),
            forall|k: int|
                0 <= k < i ==> (#[trigger] keep@[k]) == is_env_var_name(env_pair_of(ls[k]).0),
        decreases lines@.len() - i,
    {
        let (key, value) = env_pair_of_line(lines[i].as_str());
        proof {
            reveal_strlit("^[a-zA-Z_]+$");
        }
        let matched = match regex_is_match("^[a-zA-Z_]+$", key.as_str()) {
            Some(b) => b,
            None => false,
        };
        let ghost old_pairs = pairs@;
        pairs.push((key, value));
        keep.push(matched);
        proof {
            assert forall|k: int| 0 <= k < i + 1 implies (#[trigger] crate::env_vars::pair_views(pairs@)[k]) == env_pair_of(ls[k]) by {
                if k < i {
                    assert(pairs@[k] == old_pairs[k]);
                    assert(crate::env_vars::pair_views(old_pairs)[k] == env_pair_of(ls[k]));
                } else {
                    assert(ls[k] == lines@[k]@);
                }
            }
        }
        i = i + 1;
    }
    let env = collect_env_vars(&pairs, &keep);
    proof {
        let pv = crate::env_vars::pair_views(pairs@);
        let want = lines_of(output@).map_values(|l: Seq<char>| env_pair_of(l));
        assert(pv =~= want);
        assert(keep@ =~= want.map_values(|p: (Seq<char>, Seq<char>)| is_env_var_name(p.0)));
    }
    env
}

/// Why the metadata of MSVC could not be learnt.
#[derive(Debug, Clone, Copy, PartialEq, Eq, Structural)]
pub enum MsvcMetadataError {
    /// The environment does not name the directory of the C++ tools.
    MissingVcToolsDir,
}

/// Keeps the environment of the developer command prompt and the version of Visual
/// Studio that it names, and returns where the modular standard libraries of the
/// installation are: the `modules` directory of the C++ tools. Fails when the
/// environment does not name the tools.
pub fn load_metadata_from_env(msvc: &mut MsvcMetadata, env_vars: EnvVars) -> (r: Result<String, MsvcMetadataError>)
    ensures
        final(msvc).env_vars@ == env_vars@,
        final(msvc).compiler_version is Some <==> env_vars@.contains_key("VisualStudioVersion"@),
        final(msvc).compiler_version matches Some(v) ==> v@ == env_vars@["VisualStudioVersion"@],
        match r {
            Ok(dir) => env_vars@.contains_key("VCToolsInstallDir"@) && dir@ == join(env_vars@["VCToolsInstallDir"@], "modules"@),
            Err(e) => !env_vars@.contains_key("VCToolsInstallDir"@) && e == MsvcMetadataError::MissingVcToolsDir,
        },
        final(msvc).dev_commands_prompt == old(msvc).dev_commands_prompt,
        final(msvc).vs_stdlib_path == old(msvc).vs_stdlib_path,
        final(msvc).vs_ccompat_stdlib_path == old(msvc).vs_ccompat_stdlib_path,
        final(msvc).stdlib_bmi_path == old(msvc).stdlib_bmi_path,
        final(msvc).stdlib_obj_path == old(msvc).stdlib_obj_path,
        final(msvc).ccompat_stdlib_bmi_path == old(msvc).ccompat_stdlib_bmi_path,
        final(msvc).ccompat_stdlib_obj_path == old(msvc).ccompat_stdlib_obj_path,
{
    proof {
        reveal_strlit("VisualStudioVersion");
        reveal_strlit("VCToolsInstallDir");
    }
    msvc.env_vars = env_vars;
    msvc.compiler_version = match msvc.env_vars.get("VisualStudioVersion") {
        Some(v) => Some(v.clone()),
        None => None,
    };
    match msvc.env_vars.get("VCToolsInstallDir") {
        Some(dir) => Ok(join_path(dir.as_str(), "modules")),
        None => Err(MsvcMetadataError::MissingVcToolsDir),
    }
}

/// Where the build products of the modular standard libraries of MSVC go: `std` in the
/// `std` directory of the modules of the compiler.
pub open spec fn msvc_std_byproducts_base(output_dir: Seq<char>, compiler: CppCompiler) -> Seq<char> {
    join(join(join(join(output_dir, compiler_name(compiler)), "modules"@), "std"@), "std"@)
}

/// Records where the modular standard libraries of MSVC are (`std` and `std.compat`
/// in `vs_stdlib_path`, with the module extension of the compiler) and where their
/// interfaces and object files go under `output_dir`.
pub fn set_modular_stdlib_paths(msvc: &mut MsvcMetadata, vs_stdlib_path: &str, output_dir: &str, compiler: CppCompiler)
    ensures
        ({
            let base = msvc_std_byproducts_base(output_dir@, compiler);
            &&& final(msvc).vs_stdlib_path@ == (crate::project_model::SourceFileView {
                path: vs_stdlib_path@,
                file_stem: "std"@,
                extension: module_extension(compiler),
            })
            &&& final(msvc).vs_ccompat_stdlib_path@ == (crate::project_model::SourceFileView {
                path: vs_stdlib_path@,
                file_stem: "std.compat"@,
                extension: module_extension(compiler),
            })
            &&& final(msvc).stdlib_bmi_path@ == with_extension(base, bmi_extension(compiler))
            &&& final(msvc).stdlib_obj_path@ == with_extension(base, obj_extension(compiler))
            &&& final(msvc).ccompat_stdlib_bmi_path@ == with_extension(base, "compat."@ + bmi_extension(compiler))
            &&& final(msvc).ccompat_stdlib_obj_path@ == with_extension(base, "compat."@ + obj_extension(compiler))
        }),
        final(msvc).env_vars@ == old(msvc).env_vars@,
        final(msvc).compiler_version == old(msvc).compiler_version,
        final(msvc).dev_commands_prompt == old(msvc).dev_commands_prompt,
{
    let ext = compiler.get_default_module_extension();
    msvc.vs_stdlib_path = SourceFile {
        path: String::from_str(vs_stdlib_path),
        file_stem: String::from_str("std"),
        extension: String::from_str(ext),
    };
    msvc.vs_ccompat_stdlib_path = SourceFile {
        path: String::from_str(vs_stdlib_path),
        file_stem: String::from_str("std.compat"),
        extension: String::from_str(ext),
    };
    let p = join_path(output_dir, compiler.as_str());
    let p = join_path(p.as_str(), "modules");
    let p = join_path(p.as_str(), "std");
    let base = join_path(p.as_str(), "std");
    msvc.stdlib_bmi_path = set_extension(base.as_str(), compiler.get_typical_bmi_extension());
    msvc.stdlib_obj_path = set_extension(base.as_str(), compiler.get_obj_file_extension());
    let mut compat_bmi = String::from_str("compat.");
    compat_bmi.append(compiler.get_typical_bmi_extension());
    let mut compat_obj = String::from_str("compat.");
    compat_obj.append(compiler.get_obj_file_extension());
    msvc.ccompat_stdlib_bmi_path = set_extension(base.as_str(), compat_bmi.as_str());
    msvc.ccompat_stdlib_obj_path = set_extension(base.as_str(), compat_obj.as_str());
}

/// Where Visual Studio is usually installed.
pub open spec fn msvc_regular_base_path() -> Seq<char> {
    "C:\\Program Files\\Microsoft Visual Studio"@
}

/// The same place, written so that the command shell takes its spaces.
pub open spec fn msvc_regular_base_escaped_path() -> Seq<char> {
    "C:\\\"Program Files\"\\\"Microsoft Visual Studio\""@
}

/// The path of the developer command prompt, written so that the command shell takes
/// the spaces of the usual installation directory of Visual Studio.
pub fn escape_dev_commands_prompt(path: &str) -> (r: String)
    ensures
        r@ == crate::cli::replaced(path@, msvc_regular_base_path(), msvc_regular_base_escaped_path()),
{
    proof {
        reveal_strlit("C:\\Program Files\\Microsoft Visual Studio");
        reveal_strlit("C:\\\"Program Files\"\\\"Microsoft Visual Studio\"");
    }
    crate::cli::replace_all(
        path,
        "C:\\Program Files\\Microsoft Visual Studio",
        "C:\\\"Program Files\"\\\"Microsoft Visual Studio\"",
    )
}

} // verus!
