//! The cache: what the build keeps between two runs for a configuration file, the
//! generated command lines first of all.

use vstd::prelude::*;

use indexmap::IndexMap;

use crate::command_lines::{
    opt_seq, opt_view, scl_path, scl_views, Commands, ModulesCommands, SclView, SourceCommandLine,
    TranslationUnitStatus,
};
use crate::compiler_model::{compiler_name, CppCompiler, StdLibMode};
use crate::env_vars::EnvVars;
use crate::paths::{join, join_path, set_extension, with_extension};
use crate::project_model::{tu_filename, tu_path, SourceFile, TranslationUnit, ZorkModel};
use crate::target::{
    cached_target_at, cached_target_entries, cached_targets_len, cached_target_index_of,
    model_target_entries, model_target_index_of, replace_cached_target_at, Target, TargetIdentifier,
    TargetKind, TargetView, has_name,
};

verus! {

/// Data about the build itself that is kept between runs.
#[derive(Debug, Clone, PartialEq, Eq, Default)]
pub struct CacheMetadata {
    pub process_no: i32,
    /// When the last run of the build ended, in microseconds since the Unix epoch.
    pub last_program_execution: i64,
    pub cache_file_path: String,
    pub project_model_file_path: String,
    pub generate_compilation_database: bool,
    pub save_project_model: bool,
}

/// What the build learns about the installed compilers.
#[derive(Debug, Clone, PartialEq, Eq, Default)]
pub struct CompilersMetadata {
    pub msvc: MsvcMetadata,
    pub clang: ClangMetadata,
    pub gcc: GccMetadata,
}

/// What the build learns about an installation of MSVC: where its modular standard
/// libraries are, where their build products go, and its environment.
#[derive(Debug, Clone, PartialEq, Eq, Default)]
pub struct MsvcMetadata {
    pub compiler_version: Option<String>,
    pub dev_commands_prompt: Option<String>,
    pub vs_stdlib_path: SourceFile,
    pub vs_ccompat_stdlib_path: SourceFile,
    pub stdlib_bmi_path: String,
    pub stdlib_obj_path: String,
    pub ccompat_stdlib_bmi_path: String,
    pub ccompat_stdlib_obj_path: String,
    pub env_vars: EnvVars,
}

/// What the build learns about an installation of Clang.
#[derive(Debug, Clone, PartialEq, Eq, Default)]
pub struct ClangMetadata {
    pub major: i32,
    pub libcpp_path: String,
    pub stdlib_pcm: String,
    pub ccompat_pcm: String,
    pub env_vars: EnvVars,
}

/// What the build learns about an installation of GCC.
#[derive(Debug, Clone, PartialEq, Eq, Default)]
pub struct GccMetadata {
    pub env_vars: EnvVars,
}

/// Everything that is kept between runs for one configuration file.
#[derive(Debug)]
pub struct ZorkCache {
    pub compilers_metadata: CompilersMetadata,
    pub generated_commands: Commands,
    pub metadata: CacheMetadata,
}

/// The kinds of translation units, which decide where their command lines are kept.
#[derive(Debug, Clone, PartialEq, Eq)]
pub enum TranslationUnitKind {
    ModuleInterface,
    ModuleImplementation,
    /// A source file of the target so named.
    SourceFile(TargetIdentifier),
    SystemHeader,
    ModularStdLib(StdLibMode),
}

/// The position of the first command line in `s` that builds the file at `path`, or -1.
pub open spec fn first_with_path(s: Seq<SclView>, path: Seq<char>) -> int
    decreases s.len(),
{
    if s.len() == 0 {
        -1
    } else {
        let r = first_with_path(s.drop_last(), path);
        if r >= 0 {
            r
        } else if scl_path(s.last()) == path {
            s.len() - 1
        } else {
            -1
        }
    }
}

/// The position of the first command line in `s` whose file name is `name`, or -1.
pub open spec fn first_with_filename(s: Seq<SclView>, name: Seq<char>) -> int
    decreases s.len(),
{
    if s.len() == 0 {
        -1
    } else {
        let r = first_with_filename(s.drop_last(), name);
        if r >= 0 {
            r
        } else if s.last().filename == name {
            s.len() - 1
        } else {
            -1
        }
    }
}

proof fn lemma_first_with_path(s: Seq<SclView>, path: Seq<char>, i: int)
    requires
        0 <= i <= s.len(),
        forall|j: int| 0 <= j < i ==> scl_path(#[trigger] s[j]) != path,
    ensures
        first_with_path(s.subrange(0, i), path) == -1,
        i < s.len() && scl_path(s[i]) == path ==> first_with_path(s.subrange(0, i + 1), path) == i,
        i < s.len() && scl_path(s[i]) == path ==> first_with_path(s, path) == i,
        i == s.len() ==> first_with_path(s, path) == -1,
    decreases s.len(),
{
    lemma_first_with_path_prefix(s, path, i);
    if i < s.len() && scl_path(s[i]) == path {
        let t = s.subrange(0, i + 1);
        assert(t.drop_last() =~= s.subrange(0, i));
        lemma_first_with_path_extends(s, path, i + 1);
    }
    if i == s.len() {
        assert(s.subrange(0, i) =~= s);
    }
}

proof fn lemma_first_with_path_prefix(s: Seq<SclView>, path: Seq<char>, i: int)
    requires
        0 <= i <= s.len(),
        forall|j: int| 0 <= j < i ==> scl_path(#[trigger] s[j]) != path,
    ensures
        first_with_path(s.subrange(0, i), path) == -1,
    decreases i,
{
    if i > 0 {
        let t = s.subrange(0, i);
        assert(t.drop_last() =~= s.subrange(0, i - 1));
        lemma_first_with_path_prefix(s, path, i - 1);
        assert(t.last() == s[i - 1]);
    }
}

proof fn lemma_first_with_path_extends(s: Seq<SclView>, path: Seq<char>, k: int)
    requires
        0 <= k <= s.len(),
        first_with_path(s.subrange(0, k), path) >= 0,
    ensures
        first_with_path(s, path) == first_with_path(s.subrange(0, k), path),
    decreases s.len() - k,
{
    if k < s.len() {
        let t = s.subrange(0, k + 1);
        assert(t.drop_last() =~= s.subrange(0, k));
        lemma_first_with_path_extends(s, path, k + 1);
    } else {
        assert(s.subrange(0, k) =~= s);
    }
}

/// Finds the first command line in `s` that builds the file at `path`.
pub fn find_by_path(s: &Vec<SourceCommandLine>, path: &str) -> (r: Option<usize>)
    ensures
        match r {
            Some(i) => i < s@.len() && i as int == first_with_path(scl_views(s@), path@),
            None => first_with_path(scl_views(s@), path@) == -1,
        },
{
    let ghost v = scl_views(s@);
    let mut i: usize = 0;
    while i < s.len()
        invariant
            0 <= i <= s@.len(),
            v == scl_views(s@),
            forall|j: int| 0 <= j < i ==> scl_path(#[trigger] v[j]) != path@,
        decreases s@.len() - i,
    {
        let p = s[i].path();
        if crate::paths::str_equal(p.as_str(), path) {
            proof {
                lemma_first_with_path(v, path@, i as int);
            }
            return Some(i);
        }
        i = i + 1;
    }
    proof {
        lemma_first_with_path(v, path@, i as int);
    }
    None
}

proof fn lemma_first_with_filename(s: Seq<SclView>, name: Seq<char>, i: int)
    requires
        0 <= i <= s.len(),
        forall|j: int| 0 <= j < i ==> (#[trigger] s[j]).filename != name,
    ensures
        i < s.len() && s[i].filename == name ==> first_with_filename(s, name) == i,
        i == s.len() ==> first_with_filename(s, name) == -1,
    decreases s.len(),
{
    if s.len() > 0 {
        let t = s.drop_last();
        if i < s.len() - 1 {
            lemma_first_with_filename(t, name, i);
        } else if i == s.len() - 1 {
            lemma_first_with_filename(t, name, i);
        } else {
            lemma_first_with_filename(t, name, i - 1);
        }
    }
}

/// Finds the first command line in `s` whose file name is `name`.
pub fn find_by_filename(s: &Vec<SourceCommandLine>, name: &str) -> (r: Option<usize>)
    ensures
        match r {
            Some(i) => i < s@.len() && i as int == first_with_filename(scl_views(s@), name@),
            None => first_with_filename(scl_views(s@), name@) == -1,
        },
{
    let ghost v = scl_views(s@);
    let mut i: usize = 0;
    while i < s.len()
        invariant
            0 <= i <= s@.len(),
            v == scl_views(s@),
            forall|j: int| 0 <= j < i ==> (#[trigger] v[j]).filename != name@,
        decreases s@.len() - i,
    {
        if crate::paths::str_equal(s[i].filename.as_str(), name) {
            proof {
                lemma_first_with_filename(v, name@, i as int);
            }
            return Some(i);
        }
        i = i + 1;
    }
    proof {
        lemma_first_with_filename(v, name@, i as int);
    }
    None
}

/// The command lines of the sources of all the targets, target after target.
pub open spec fn all_target_sources(entries: Seq<(Seq<char>, TargetView)>) -> Seq<SclView>
    decreases entries.len(),
{
    if entries.len() == 0 {
        Seq::empty()
    } else {
        all_target_sources(entries.drop_last()) + entries.last().1.sources
    }
}

/// The cached command line of the translation unit at `path` with file name `filename`,
/// for the kind `kind`.
pub open spec fn cmd_for_kind(
    cache: &ZorkCache,
    path: Seq<char>,
    filename: Seq<char>,
    kind: TranslationUnitKind,
) -> Option<SclView> {
    let m = cache.generated_commands.modules@;
    match kind {
        TranslationUnitKind::ModuleInterface => {
            let i = first_with_path(m.interfaces, path);
            if i >= 0 { Some(m.interfaces[i]) } else { None }
        },
        TranslationUnitKind::ModuleImplementation => {
            let i = first_with_path(m.implementations, path);
            if i >= 0 { Some(m.implementations[i]) } else { None }
        },
        TranslationUnitKind::SourceFile(target) => {
            let entries = cached_target_entries(cache.generated_commands.targets);
            if has_name(entries, target@) {
                let t = choose|t: int| 0 <= t < entries.len() && #[trigger] entries[t].0 == target@;
                let i = first_with_path(entries[t].1.sources, path);
                if i >= 0 { Some(entries[t].1.sources[i]) } else { None }
            } else {
                None
            }
        },
        TranslationUnitKind::SystemHeader => {
            let i = first_with_filename(m.system_modules, filename);
            if i >= 0 { Some(m.system_modules[i]) } else { None }
        },
        TranslationUnitKind::ModularStdLib(mode) => stdlib_slot(m, mode),
    }
}

/// The command line of a modular standard library.
pub open spec fn stdlib_slot(m: crate::command_lines::ModulesCommandsView, mode: StdLibMode) -> Option<SclView> {
    match mode {
        StdLibMode::Cpp => m.cpp_stdlib,
        StdLibMode::CCompat => m.c_compat_stdlib,
    }
}

/// The number of command lines of translation units: the user's modules, the system
/// headers, a place for each modular standard library, and the sources of every target.
pub open spec fn total_generated_commands(cache: &ZorkCache) -> int {
    let m = cache.generated_commands.modules@;
    (m.interfaces.len() + m.implementations.len() + m.system_modules.len() + 2
        + all_target_sources(cached_target_entries(cache.generated_commands.targets)).len()) as int
}

/// The command lines that go to the compilation database: the modular standard
/// libraries, the user's modules and the sources of every target.
pub open spec fn all_commands(cache: &ZorkCache) -> Seq<SclView> {
    let m = cache.generated_commands.modules@;
    opt_seq(m.cpp_stdlib) + opt_seq(m.c_compat_stdlib) + m.interfaces + m.implementations
        + all_target_sources(cached_target_entries(cache.generated_commands.targets))
}

proof fn lemma_all_target_sources_step(entries: Seq<(Seq<char>, TargetView)>, i: int)
    requires
        0 <= i < entries.len(),
    ensures
        all_target_sources(entries.subrange(0, i + 1)) == all_target_sources(entries.subrange(0, i)) + entries[i].1.sources,
{
    let t = entries.subrange(0, i + 1);
    assert(t.drop_last() =~= entries.subrange(0, i));
}

impl ZorkCache {
    /// The cached command line of `translation_unit` for the kind `kind`: interfaces,
    /// implementations and sources are found by the path of their file (the first match),
    /// system headers by their file name, the modular standard libraries by their slot.
    pub fn get_cmd_for_translation_unit_kind<T: TranslationUnit>(
        &self,
        translation_unit: &T,
        translation_unit_kind: &TranslationUnitKind,
    ) -> (r: Option<&SourceCommandLine>)
        ensures
            match r {
                Some(c) => cmd_for_kind(
                    self,
                    tu_path(translation_unit),
                    tu_filename(translation_unit.spec_file_stem(), translation_unit.spec_extension()),
                    *translation_unit_kind,
                ) == Some(c@),
                None => cmd_for_kind(
                    self,
                    tu_path(translation_unit),
                    tu_filename(translation_unit.spec_file_stem(), translation_unit.spec_extension()),
                    *translation_unit_kind,
                ) is None,
            },
    {
        let modules = &self.generated_commands.modules;
        match translation_unit_kind {
            TranslationUnitKind::ModuleInterface => {
                let p = translation_unit.path();
                match find_by_path(&modules.interfaces, p.as_str()) {
                    Some(i) => Some(&modules.interfaces[i]),
                    None => None,
                }
            },
            TranslationUnitKind::ModuleImplementation => {
                let p = translation_unit.path();
                match find_by_path(&modules.implementations, p.as_str()) {
                    Some(i) => Some(&modules.implementations[i]),
                    None => None,
                }
            },
            TranslationUnitKind::SourceFile(for_target) => {
                let targets = &self.generated_commands.targets;
                match cached_target_index_of(targets, for_target) {
                    Some(t) => {
                        let (_, target) = cached_target_at(targets, t);
                        let p = translation_unit.path();
                        proof {
                            let entries = cached_target_entries(*targets);
                            assert(entries[t as int].0 == for_target@);
                            let c = choose|c: int| 0 <= c < entries.len() && #[trigger] entries[c].0 == for_target@;
                            assert(c == t);
                        }
                        match find_by_path(&target.sources, p.as_str()) {
                            Some(i) => Some(&target.sources[i]),
                            None => None,
                        }
                    },
                    None => None,
                }
            },
            TranslationUnitKind::SystemHeader => {
                let name = translation_unit.filename();
                match find_by_filename(&modules.system_modules, name.as_str()) {
                    Some(i) => Some(&modules.system_modules[i]),
                    None => None,
                }
            },
            TranslationUnitKind::ModularStdLib(mode) => self.get_cpp_stdlib_cmd_by_kind(*mode),
        }
    }

    /// The command line of the modular standard library `stdlib_mode`.
    pub fn get_cpp_stdlib_cmd_by_kind(&self, stdlib_mode: StdLibMode) -> (r: Option<&SourceCommandLine>)
        ensures
            match r {
                Some(c) => stdlib_slot(self.generated_commands.modules@, stdlib_mode) == Some(c@),
                None => stdlib_slot(self.generated_commands.modules@, stdlib_mode) is None,
            },
    {
        match stdlib_mode {
            StdLibMode::Cpp => self.generated_commands.modules.cpp_stdlib.as_ref(),
            StdLibMode::CCompat => self.generated_commands.modules.c_compat_stdlib.as_ref(),
        }
    }

    /// Puts `cmd_line` in the slot of the modular standard library `stdlib_mode`.
    pub fn set_cpp_stdlib_cmd_by_kind(&mut self, stdlib_mode: StdLibMode, cmd_line: Option<SourceCommandLine>)
        ensures
            stdlib_slot(final(self).generated_commands.modules@, stdlib_mode) == opt_view(cmd_line),
            stdlib_mode == StdLibMode::Cpp ==> final(self).generated_commands.modules@.c_compat_stdlib == old(self).generated_commands.modules@.c_compat_stdlib,
            stdlib_mode == StdLibMode::CCompat ==> final(self).generated_commands.modules@.cpp_stdlib == old(self).generated_commands.modules@.cpp_stdlib,
            final(self).generated_commands.modules@.system_modules == old(self).generated_commands.modules@.system_modules,
            final(self).generated_commands.modules@.interfaces == old(self).generated_commands.modules@.interfaces,
            final(self).generated_commands.modules@.implementations == old(self).generated_commands.modules@.implementations,
            final(self).generated_commands.targets == old(self).generated_commands.targets,
            final(self).generated_commands.flyweight_data == old(self).generated_commands.flyweight_data,
            final(self).metadata == old(self).metadata,
            final(self).compilers_metadata == old(self).compilers_metadata,
    {
        match stdlib_mode {
            StdLibMode::Cpp => self.generated_commands.modules.cpp_stdlib = cmd_line,
            StdLibMode::CCompat => self.generated_commands.modules.c_compat_stdlib = cmd_line,
        }
    }

    /// The environment of the shell in which `compiler` runs.
    pub fn get_process_env_args(&self, compiler: CppCompiler) -> (r: &EnvVars)
        ensures
            r == match compiler {
                CppCompiler::MSVC => &self.compilers_metadata.msvc.env_vars,
                CppCompiler::CLANG => &self.compilers_metadata.clang.env_vars,
                CppCompiler::GCC => &self.compilers_metadata.gcc.env_vars,
            },
    {
        match compiler {
            CppCompiler::MSVC => &self.compilers_metadata.msvc.env_vars,
            CppCompiler::CLANG => &self.compilers_metadata.clang.env_vars,
            CppCompiler::GCC => &self.compilers_metadata.gcc.env_vars,
        }
    }

    /// Copies of the command lines that go to the compilation database, in the order of
    /// `all_commands`.
    pub fn get_all_commands_iter(&self) -> (r: Vec<SourceCommandLine>)
        ensures
            scl_views(r@) == all_commands(self),
    {
        let modules = &self.generated_commands.modules;
        let mut r: Vec<SourceCommandLine> = Vec::new();
        if let Some(s) = &modules.cpp_stdlib {
            r.push(s.duplicate());
        }
        if let Some(s) = &modules.c_compat_stdlib {
            r.push(s.duplicate());
        }
        proof {
            assert(scl_views(r@) =~= opt_seq(modules@.cpp_stdlib) + opt_seq(modules@.c_compat_stdlib));
        }
        crate::command_lines::push_all(&mut r, &modules.interfaces);
        crate::command_lines::push_all(&mut r, &modules.implementations);
        let ghost base = scl_views(r@);
        let targets = &self.generated_commands.targets;
        let ghost entries = cached_target_entries(*targets);
        let n = cached_targets_len(targets);
        let mut t: usize = 0;
        while t < n
            invariant
                0 <= t <= n == entries.len(),
                entries == cached_target_entries(*targets),
                scl_views(r@) == base + all_target_sources(entries.subrange(0, t as int)),
            decreases n - t,
        {
            let (_, target) = cached_target_at(targets, t);
            crate::command_lines::push_all(&mut r, &target.sources);
            proof {
                lemma_all_target_sources_step(entries, t as int);
            }
            t = t + 1;
        }
        proof {
            assert(entries.subrange(0, n as int) =~= entries);
            assert(scl_views(r@) =~= all_commands(self));
        }
        r
    }

    /// The number of command lines of translation units (see `total_generated_commands`).
    pub fn count_total_generated_commands(&self) -> (r: usize)
        requires
            total_generated_commands(self) <= usize::MAX,
        ensures
            r == total_generated_commands(self),
    {
        let modules = &self.generated_commands.modules;
        let targets = &self.generated_commands.targets;
        let ghost entries = cached_target_entries(*targets);
        let n = cached_targets_len(targets);
        let mut sources: usize = 0;
        let mut t: usize = 0;
        while t < n
            invariant
                0 <= t <= n == entries.len(),
                entries == cached_target_entries(*targets),
                sources == all_target_sources(entries.subrange(0, t as int)).len(),
                all_target_sources(entries).len() <= usize::MAX,
            decreases n - t,
        {
            let (_, target) = cached_target_at(targets, t);
            proof {
                lemma_all_target_sources_step(entries, t as int);
                lemma_all_target_sources_prefix_len(entries, t + 1);
            }
            sources = sources + target.sources.len();
            t = t + 1;
        }
        proof {
            assert(entries.subrange(0, n as int) =~= entries);
        }
        modules.interfaces.len() + modules.implementations.len() + modules.system_modules.len() + 2 + sources
    }
}

proof fn lemma_all_target_sources_prefix_len(entries: Seq<(Seq<char>, TargetView)>, k: int)
    requires
        0 <= k <= entries.len(),
    ensures
        all_target_sources(entries.subrange(0, k)).len() <= all_target_sources(entries).len(),
    decreases entries.len() - k,
{
    if k < entries.len() {
        lemma_all_target_sources_step(entries, k);
        lemma_all_target_sources_prefix_len(entries, k + 1);
    } else {
        assert(entries.subrange(0, k) =~= entries);
    }
}

impl Commands {
    /// The build products of the sources of every target, target after target: the
    /// files that `clear_targets` makes obsolete.
    pub fn targets_byproducts(&self) -> (r: Vec<String>)
        ensures
            r@.map_values(|p: String| p@) == crate::command_lines::byproducts_of(
                all_target_sources(cached_target_entries(self.targets)),
            ),
    {
        let ghost entries = cached_target_entries(self.targets);
        let n = cached_targets_len(&self.targets);
        let mut r: Vec<String> = Vec::new();
        let mut t: usize = 0;
        while t < n
            invariant
                0 <= t <= n == entries.len(),
                entries == cached_target_entries(self.targets),
                r@.map_values(|p: String| p@) == crate::command_lines::byproducts_of(all_target_sources(entries.subrange(0, t as int))),
            decreases n - t,
        {
            let (_, target) = cached_target_at(&self.targets, t);
            let mut more = crate::command_lines::collect_byproducts(&target.sources);
            let ghost r0 = r@;
            let ghost m0 = more@;
            r.append(&mut more);
            proof {
                lemma_all_target_sources_step(entries, t as int);
                assert(r@ =~= r0 + m0);
                assert(r@.map_values(|p: String| p@) =~= r0.map_values(|p: String| p@) + m0.map_values(|p: String| p@));
                assert(crate::command_lines::byproducts_of(all_target_sources(entries.subrange(0, t + 1))) =~= crate::command_lines::byproducts_of(
                    all_target_sources(entries.subrange(0, t as int)),
                ) + crate::command_lines::byproducts_of(entries[t as int].1.sources));
            }
            t = t + 1;
        }
        proof {
            assert(entries.subrange(0, n as int) =~= entries);
        }
        r
    }

    /// Forgets every target.
    pub fn clear_targets(&mut self)
        ensures
            cached_target_entries(final(self).targets) == Seq::<(Seq<char>, TargetView)>::empty(),
            final(self).modules@ == old(self).modules@,
            final(self).flyweight_data == old(self).flyweight_data,
    {
        self.targets = crate::target::new_cached_targets();
    }
}

} // verus!
