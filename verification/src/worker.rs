//! The decisions of a run of the build that sit between the reads and writes of the
//! filesystem: which configuration files are taken, where the output and the cache go,
//! how the cache is obtained, whether the model of the project is built again, and what
//! the logger prints.

use vstd::prelude::*;

use crate::cache::{CacheMetadata, ClangMetadata, CompilersMetadata, GccMetadata, MsvcMetadata, ZorkCache};
use crate::command_lines::{Commands, ModulesCommands, ModulesCommandsView};
use crate::env_vars::EnvVars;
use crate::cache_cleanup::{check_user_files_removals, retained, tu_paths};
use crate::execution::{
    compile_command_of, driver_of, map_generated_commands_to_compilation_db, CompilationDatabaseError,
    CompileCommand,
};
use crate::project_model::ZorkModel;
use crate::target::{has_name, model_target_entries};
use crate::project_model::SourceFile;
use crate::target::{cached_target_entries, new_cached_targets, TargetView};
use crate::compiler_model::{compiler_name, CppCompiler};
use crate::config_file::{opt_string_view, ZorkConfigFile};
use crate::paths::{join, join_path, set_extension, with_extension};

verus! {

/// Whether `s` begins with `prefix`.
pub open spec fn starts_with(s: Seq<char>, prefix: Seq<char>) -> bool {
    prefix.len() <= s.len() && s.take(prefix.len() as int) == prefix
}

/// Whether `s` ends with `suffix`.
pub open spec fn ends_with(s: Seq<char>, suffix: Seq<char>) -> bool {
    suffix.len() <= s.len() && s.skip(s.len() - suffix.len()) == suffix
}

/// Whether `needle` occurs in `s`.
pub open spec fn contains_text(s: Seq<char>, needle: Seq<char>) -> bool {
    exists|i: int| 0 <= i <= s.len() - needle.len() && #[trigger] s.subrange(i, i + needle.len()) == needle
}

/// Whether `needle` occurs in `s` at position `i`.
fn occurs_at(s: &str, needle: &str, i: usize) -> (r: bool)
    requires
        i + needle@.len() <= s@.len(),
    ensures
        r == (s@.subrange(i as int, i + needle@.len()) == needle@),
{
    let len = s.unicode_len();
    let n = needle.unicode_len();
    let mut k: usize = 0;
    while k < n
        invariant
            0 <= k <= n == needle@.len(),
            i + n <= s@.len() == len,
            forall|j: int| 0 <= j < k ==> s@[i + j] == needle@[j],
        decreases n - k,
    {
        if s.get_char(i + k) != needle.get_char(k) {
            proof {
                assert(s@.subrange(i as int, i + needle@.len())[k as int] != needle@[k as int]);
            }
            return false;
        }
        k = k + 1;
    }
    proof {
        assert(s@.subrange(i as int, i + needle@.len()) =~= needle@);
    }
    true
}

/// Whether `s` begins with `prefix`.
pub fn text_starts_with(s: &str, prefix: &str) -> (r: bool)
    ensures
        r == starts_with(s@, prefix@),
{
    if prefix.unicode_len() > s.unicode_len() {
        return false;
    }
    proof {
        assert(s@.subrange(0, prefix@.len() as int) == s@.take(prefix@.len() as int));
    }
    occurs_at(s, prefix, 0)
}

/// Whether `s` ends with `suffix`.
pub fn text_ends_with(s: &str, suffix: &str) -> (r: bool)
    ensures
        r == ends_with(s@, suffix@),
{
    let n = s.unicode_len();
    let m = suffix.unicode_len();
    if m > n {
        return false;
    }
    proof {
        assert(s@.subrange((n - m) as int, n as int) =~= s@.skip(n - m));
    }
    occurs_at(s, suffix, n - m)
}

/// Whether `needle` occurs in `s`.
pub fn text_contains(s: &str, needle: &str) -> (r: bool)
    ensures
        r == contains_text(s@, needle@),
{
    let n = s.unicode_len();
    let m = needle.unicode_len();
    if m > n {
        return false;
    }
    if m == 0 {
        proof {
            assert(s@.subrange(0int, 0int + needle@.len()) =~= needle@);
        }
        return true;
    }
    let mut i: usize = 0;
    while i <= n - m
        invariant
            1 <= m <= n,
            n == s@.len(),
            m == needle@.len(),
            0 <= i <= n - m + 1,
            forall|j: int| 0 <= j < i ==> #[trigger] s@.subrange(j, j + m) != needle@,
        decreases n - m + 1 - i,
    {
        if occurs_at(s, needle, i) {
            return true;
        }
        i = i + 1;
    }
    false
}

/// Whether a file is a configuration file of the build: its name begins with `zork`,
/// ends with `.toml` and holds `filename_match` when the command line gives one.
pub open spec fn is_config_file_name(filename: Seq<char>, filename_match: Option<Seq<char>>) -> bool {
    &&& starts_with(filename, "zork"@)
    &&& ends_with(filename, ".toml"@)
    &&& match filename_match {
        Some(m) => contains_text(filename, m),
        None => true,
    }
}

/// An entry found under the project root.
#[derive(Debug, Clone, PartialEq, Eq)]
pub struct DirEntryInfo {
    pub path: String,
    pub file_name: String,
    pub is_file: bool,
    /// When it was last modified, in microseconds since the Unix epoch.
    pub last_time_modified: i64,
}

/// A configuration file found for the project.
#[derive(Debug, Clone, PartialEq, Eq)]
pub struct ConfigFile {
    pub path: String,
    /// When it was last modified, in microseconds since the Unix epoch.
    pub last_time_modified: i64,
}

/// Why no configuration file was taken.
#[derive(Debug, Clone, Copy, PartialEq, Eq, Structural)]
pub enum ConfigFilesError {
    NoConfigurationFiles,
}

/// Whether an entry is a configuration file of the build.
pub open spec fn is_config_entry(e: DirEntryInfo, filename_match: Option<String>) -> bool {
    e.is_file && is_config_file_name(e.file_name@, opt_string_view(filename_match))
}

/// The configuration files among `entries` (see `is_config_file_name`), in their order.
pub open spec fn config_files_among(entries: Seq<DirEntryInfo>, filename_match: Option<String>) -> Seq<DirEntryInfo>
    decreases entries.len(),
{
    if entries.len() == 0 {
        Seq::empty()
    } else {
        let r = config_files_among(entries.drop_last(), filename_match);
        if is_config_entry(entries.last(), filename_match) {
            r.push(entries.last())
        } else {
            r
        }
    }
}

/// The configuration files among the entries found under the project root, in their
/// order. Fails when there is none.
pub fn find_config_files(entries: &Vec<DirEntryInfo>, filename_match: &Option<String>) -> (r: Result<Vec<ConfigFile>, ConfigFilesError>)
    ensures
        ({
            let found = config_files_among(entries@, *filename_match);
            match r {
                Ok(files) => found.len() > 0 && files@.len() == found.len() && forall|i: int|
                    0 <= i < found.len() ==> (#[trigger] files@[i]).path@ == found[i].path@ && files@[i].last_time_modified
                        == found[i].last_time_modified,
                Err(e) => found.len() == 0 && e == ConfigFilesError::NoConfigurationFiles,
            }
        }),
{
    let mut files: Vec<ConfigFile> = Vec::new();
    let mut i: usize = 0;
    while i < entries.len()
        invariant
            0 <= i <= entries@.len(),
            files@.len() == config_files_among(entries@.take(i as int), *filename_match).len(),
            forall|k: int|
                0 <= k < files@.len() ==> (#[trigger] files@[k]).path@ == config_files_among(
                    entries@.take(i as int),
                    *filename_match,
                )[k].path@ && files@[k].last_time_modified == config_files_among(
                    entries@.take(i as int),
                    *filename_match,
                )[k].last_time_modified,
        decreases entries@.len() - i,
    {
        let e = &entries[i];
        let name = e.file_name.as_str();
        let file_match = match filename_match {
            Some(m) => text_contains(name, m.as_str()),
            None => true,
        };
        proof {
            assert(entries@.take(i + 1).drop_last() =~= entries@.take(i as int));
            assert(entries@.take(i + 1).last() == entries@[i as int]);
            reveal_strlit("zork");
            reveal_strlit(".toml");
        }
        if e.is_file && text_starts_with(name, "zork") && text_ends_with(name, ".toml") && file_match {
            files.push(ConfigFile { path: e.path.clone(), last_time_modified: e.last_time_modified });
        }
        i = i + 1;
    }
    proof {
        assert(entries@.take(entries@.len() as int) =~= entries@);
    }
    if files.len() == 0 {
        Err(ConfigFilesError::NoConfigurationFiles)
    } else {
        Ok(files)
    }
}

/// Where the model of the project comes from in a run.
#[derive(Debug, Clone, Copy, PartialEq, Eq, Structural)]
pub enum ModelSource {
    /// The configuration file changed after the last run: the model is built from it
    /// (and saved at the end of the run).
    BuildFromConfig,
    /// The model that the last run saved is loaded.
    LoadFromCache,
}

/// Decides where the model of the project comes from: the configuration file when it
/// was modified after the last run (and then the model is to be saved), the cache
/// otherwise.
pub fn load_zork_model(cache: &mut ZorkCache, config_last_time_modified: i64) -> (r: ModelSource)
    ensures
        r == if config_last_time_modified > old(cache).metadata.last_program_execution {
            ModelSource::BuildFromConfig
        } else {
            ModelSource::LoadFromCache
        },
        final(cache).metadata == (CacheMetadata {
            save_project_model: old(cache).metadata.save_project_model || r == ModelSource::BuildFromConfig,
            ..old(cache).metadata
        }),
        final(cache).generated_commands.modules@ == old(cache).generated_commands.modules@,
        final(cache).generated_commands.flyweight_data == old(cache).generated_commands.flyweight_data,
        final(cache).generated_commands.targets == old(cache).generated_commands.targets,
        final(cache).compilers_metadata == old(cache).compilers_metadata,
{
    if config_last_time_modified > cache.metadata.last_program_execution {
        cache.metadata.save_project_model = true;
        ModelSource::BuildFromConfig
    } else {
        ModelSource::LoadFromCache
    }
}

/// The output directory that a configuration file declares, under the project root
/// (`out` when it declares none).
pub open spec fn output_dir_of(config: &ZorkConfigFile, project_root: Seq<char>) -> Seq<char> {
    let declared = match config.build {
        Some(b) => opt_string_view(b.output_dir),
        None => None,
    };
    join(
        project_root,
        match declared {
            Some(o) => o,
            None => "out"@,
        },
    )
}

/// The output directory that the configuration file declares, under the project root.
pub fn output_directory_of(config: &ZorkConfigFile, project_root: &str) -> (r: String)
    ensures
        r@ == output_dir_of(config, project_root@),
{
    proof {
        reveal_strlit("out");
    }
    let declared: Option<&String> = match &config.build {
        Some(b) => match &b.output_dir {
            Some(o) => Some(o),
            None => None,
        },
        None => None,
    };
    match declared {
        Some(o) => join_path(project_root, o.as_str()),
        None => join_path(project_root, "out"),
    }
}

/// The directories of the build products under `out_dir` for `compiler`: the object
/// files, the module interfaces, implementations and standard libraries, and the cache
/// and intrinsics of the build system.
pub open spec fn output_directories_for(out_dir: Seq<char>, compiler: CppCompiler) -> Seq<Seq<char>> {
    let base = join(out_dir, compiler_name(compiler));
    let modules = join(base, "modules"@);
    let zork = join(out_dir, "zork"@);
    seq![
        join(base, "obj_files"@),
        join(modules, "interfaces"@),
        join(modules, "implementations"@),
        join(modules, "std"@),
        join(zork, "cache"@),
        join(zork, "intrinsics"@),
    ]
}

/// The directories to create under `out_dir` for `compiler`, in order.
pub fn output_directories(out_dir: &str, compiler: CppCompiler) -> (r: Vec<String>)
    ensures
        strings_of(r@) == output_directories_for(out_dir@, compiler),
{
    let base = join_path(out_dir, compiler.as_str());
    let modules = join_path(base.as_str(), "modules");
    let zork = join_path(out_dir, "zork");
    let mut r: Vec<String> = Vec::new();
    r.push(join_path(base.as_str(), "obj_files"));
    r.push(join_path(modules.as_str(), "interfaces"));
    r.push(join_path(modules.as_str(), "implementations"));
    r.push(join_path(modules.as_str(), "std"));
    r.push(join_path(zork.as_str(), "cache"));
    r.push(join_path(zork.as_str(), "intrinsics"));
    proof {
        assert(strings_of(r@) =~= output_directories_for(out_dir@, compiler));
    }
    r
}

/// The texts of a sequence of strings.
pub open spec fn strings_of(s: Seq<String>) -> Seq<Seq<char>> {
    s.map_values(|x: String| x@)
}

/// Whether the intrinsics (a header and a module map for the standard library) are
/// written to the output directory: with Clang on Windows.
pub fn needs_intrinsic_files(compiler: CppCompiler, on_windows: bool) -> (r: bool)
    ensures
        r == (compiler == CppCompiler::CLANG && on_windows),
{
    compiler == CppCompiler::CLANG && on_windows
}

/// Whether a new cache learns the installation of the compiler from its environment:
/// with MSVC on Windows (its developer command prompt).
pub fn loads_msvc_metadata(compiler: CppCompiler, on_windows: bool) -> (r: bool)
    ensures
        r == (compiler == CppCompiler::MSVC && on_windows),
{
    compiler == CppCompiler::MSVC && on_windows
}

/// Where the cache of a configuration goes: its directory under the output directory,
/// and its file, named after the compiler.
pub open spec fn cache_dir_of(output_dir: Seq<char>) -> Seq<char> {
    join(join(output_dir, "zork"@), "cache"@)
}

/// The file of the cache for `compiler` in the cache directory `cache_dir`.
pub open spec fn cache_file_of(cache_dir: Seq<char>, compiler: CppCompiler) -> Seq<char> {
    with_extension(join(cache_dir, compiler_name(compiler)), "json"@)
}

/// The file of the cached model of the project for `compiler` in `cache_dir`.
pub open spec fn project_model_file_of(cache_dir: Seq<char>, compiler: CppCompiler) -> Seq<char> {
    with_extension(join(cache_dir, compiler_name(compiler) + "_pm"@), "json"@)
}

/// The directory and the file of the cache for `compiler` under the output directory.
pub fn cache_paths(output_dir: &str, compiler: CppCompiler) -> (r: (String, String))
    ensures
        r.0@ == cache_dir_of(output_dir@),
        r.1@ == cache_file_of(cache_dir_of(output_dir@), compiler),
{
    let p = join_path(output_dir, "zork");
    let cache_path = join_path(p.as_str(), "cache");
    let f = join_path(cache_path.as_str(), compiler.as_str());
    let cache_file_path = set_extension(f.as_str(), "json");
    (cache_path, cache_file_path)
}

/// How the cache of a run is obtained.
#[derive(Debug, Clone, Copy, PartialEq, Eq, Structural)]
pub enum CacheLoadAction {
    /// There is no cache file: it is created and a new cache is made.
    Initialize,
    /// The user asked to clear the cache: its directory is emptied and a new cache is made.
    ClearAndInitialize,
    /// The cache file is read.
    Load,
}

/// Decides how the cache is obtained, given whether its file and its directory exist
/// and whether the user asked to clear it.
pub fn cache_load_action(cache_file_exists: bool, cache_dir_exists: bool, clear_cache: bool) -> (r: CacheLoadAction)
    ensures
        r == if !cache_file_exists {
            CacheLoadAction::Initialize
        } else if cache_dir_exists && clear_cache {
            CacheLoadAction::ClearAndInitialize
        } else {
            CacheLoadAction::Load
        },
{
    if !cache_file_exists {
        CacheLoadAction::Initialize
    } else if cache_dir_exists && clear_cache {
        CacheLoadAction::ClearAndInitialize
    } else {
        CacheLoadAction::Load
    }
}

/// Whether `m` is the metadata of MSVC before anything is learnt about its
/// installation: no version, no developer prompt, no paths and no environment.
pub open spec fn fresh_msvc_metadata(m: MsvcMetadata) -> bool {
    let no_file = crate::project_model::SourceFileView {
        path: Seq::empty(),
        file_stem: Seq::empty(),
        extension: Seq::empty(),
    };
    &&& m.compiler_version is None
    &&& m.dev_commands_prompt is None
    &&& m.vs_stdlib_path@ == no_file
    &&& m.vs_ccompat_stdlib_path@ == no_file
    &&& m.stdlib_bmi_path@.len() == 0
    &&& m.stdlib_obj_path@.len() == 0
    &&& m.ccompat_stdlib_bmi_path@.len() == 0
    &&& m.ccompat_stdlib_obj_path@.len() == 0
    &&& m.env_vars@ == Map::<Seq<char>, Seq<char>>::empty()
}

/// Whether `m` is the metadata of the compilers before anything is learnt about their
/// installations: MSVC's is fresh, Clang's has major version 0, no paths and no
/// environment, and GCC's has no environment.
pub open spec fn fresh_compilers_metadata(m: CompilersMetadata) -> bool {
    &&& fresh_msvc_metadata(m.msvc)
    &&& m.clang.major == 0
    &&& m.clang.libcpp_path@.len() == 0
    &&& m.clang.stdlib_pcm@.len() == 0
    &&& m.clang.ccompat_pcm@.len() == 0
    &&& m.clang.env_vars@ == Map::<Seq<char>, Seq<char>>::empty()
    &&& m.gcc.env_vars@ == Map::<Seq<char>, Seq<char>>::empty()
}

/// The metadata of MSVC before anything is learnt about its installation.
pub fn empty_msvc_metadata() -> (r: MsvcMetadata)
    ensures
        fresh_msvc_metadata(r),
{
    MsvcMetadata {
        compiler_version: None,
        dev_commands_prompt: None,
        vs_stdlib_path: SourceFile { path: String::new(), file_stem: String::new(), extension: String::new() },
        vs_ccompat_stdlib_path: SourceFile { path: String::new(), file_stem: String::new(), extension: String::new() },
        stdlib_bmi_path: String::new(),
        stdlib_obj_path: String::new(),
        ccompat_stdlib_bmi_path: String::new(),
        ccompat_stdlib_obj_path: String::new(),
        env_vars: EnvVars::new(),
    }
}

/// A new cache for `compiler` whose files are in `cache_dir`: no command lines, nothing
/// known of the compilers, no run yet.
pub fn initialize_cache(cache_dir: &str, cache_file_path: String, compiler: CppCompiler) -> (r: ZorkCache)
    ensures
        r.metadata.cache_file_path@ == cache_file_path@,
        r.metadata.project_model_file_path@ == project_model_file_of(cache_dir@, compiler),
        r.metadata.process_no == 0,
        r.metadata.last_program_execution == 0,
        !r.metadata.generate_compilation_database,
        !r.metadata.save_project_model,
        r.generated_commands.flyweight_data is None,
        fresh_compilers_metadata(r.compilers_metadata),
        r.generated_commands.modules@ == (ModulesCommandsView {
            cpp_stdlib: None,
            c_compat_stdlib: None,
            system_modules: Seq::empty(),
            interfaces: Seq::empty(),
            implementations: Seq::empty(),
        }),
        cached_target_entries(r.generated_commands.targets) == Seq::<(Seq<char>, TargetView)>::empty(),
{
    let mut name = String::from_str(compiler.as_str());
    name.append("_pm");
    let f = join_path(cache_dir, name.as_str());
    let project_model_file_path = set_extension(f.as_str(), "json");
    proof {
        reveal_strlit("_pm");
    }
    let modules = ModulesCommands {
        cpp_stdlib: None,
        c_compat_stdlib: None,
        system_modules: Vec::new(),
        interfaces: Vec::new(),
        implementations: Vec::new(),
    };
    proof {
        assert(crate::command_lines::scl_views(modules.system_modules@) =~= Seq::<crate::command_lines::SclView>::empty());
        assert(crate::command_lines::scl_views(modules.interfaces@) =~= Seq::<crate::command_lines::SclView>::empty());
        assert(crate::command_lines::scl_views(modules.implementations@) =~= Seq::<crate::command_lines::SclView>::empty());
        assert(modules@ == (ModulesCommandsView {
            cpp_stdlib: None,
            c_compat_stdlib: None,
            system_modules: Seq::empty(),
            interfaces: Seq::empty(),
            implementations: Seq::empty(),
        }));
    }
    ZorkCache {
        compilers_metadata: CompilersMetadata {
            msvc: empty_msvc_metadata(),
            clang: ClangMetadata {
                major: 0,
                libcpp_path: String::new(),
                stdlib_pcm: String::new(),
                ccompat_pcm: String::new(),
                env_vars: EnvVars::new(),
            },
            gcc: GccMetadata { env_vars: EnvVars::new() },
        },
        generated_commands: Commands { flyweight_data: None, modules, targets: new_cached_targets() },
        metadata: CacheMetadata {
            process_no: 0,
            last_program_execution: 0,
            cache_file_path,
            project_model_file_path,
            generate_compilation_database: false,
            save_project_model: false,
        },
    }
}

/// Counts a new run in the cache.
pub fn count_process(cache: &mut ZorkCache)
    requires
        old(cache).metadata.process_no < i32::MAX,
    ensures
        final(cache).metadata == (CacheMetadata { process_no: (old(cache).metadata.process_no + 1) as i32, ..old(cache).metadata }),
        final(cache).generated_commands.modules@ == old(cache).generated_commands.modules@,
        final(cache).generated_commands.flyweight_data == old(cache).generated_commands.flyweight_data,
        final(cache).generated_commands.targets == old(cache).generated_commands.targets,
        final(cache).compilers_metadata == old(cache).compilers_metadata,
{
    cache.metadata.process_no = cache.metadata.process_no + 1;
}

/// What remains to be written at the end of a run.
#[derive(Debug)]
pub struct FinalTasks {
    /// Whether the model of the project is to be saved.
    pub save_project_model: bool,
    /// The entries of the compilation database, when it is to be written.
    pub compilation_database: Option<Vec<CompileCommand>>,
}

/// Whether a command line of the user's modules, of the system headers or of the
/// sources of a target was dropped between the caches `o` and `n`.
pub open spec fn commands_dropped(o: &ZorkCache, n: &ZorkCache) -> bool {
    let oe = cached_target_entries(o.generated_commands.targets);
    let ne = cached_target_entries(n.generated_commands.targets);
    ||| n.generated_commands.modules@.interfaces.len() < o.generated_commands.modules@.interfaces.len()
    ||| n.generated_commands.modules@.implementations.len() < o.generated_commands.modules@.implementations.len()
    ||| n.generated_commands.modules@.system_modules.len() < o.generated_commands.modules@.system_modules.len()
    ||| exists|t: int| 0 <= t < oe.len() && (#[trigger] ne[t]).1.sources.len() < oe[t].1.sources.len()
}

/// The tasks at the end of a run: drops from the cache the command lines of the
/// translation units that are gone (see `check_user_files_removals`), and tells whether
/// the model is to be saved and, when the project wants a compilation database and a
/// command line was added or dropped, its entries. Fails when the database is wanted and
/// the cache holds no shared arguments.
pub fn run_final_tasks(cache: &mut ZorkCache, program_data: &ZorkModel) -> (r: Result<FinalTasks, CompilationDatabaseError>)
    requires
        forall|t: int|
            0 <= t < cached_target_entries(old(cache).generated_commands.targets).len() ==> has_name(
                model_target_entries(program_data.targets),
                #[trigger] cached_target_entries(old(cache).generated_commands.targets)[t].0,
            ),
    ensures
        ({
            let wanted = program_data.project.compilation_db && (old(cache).metadata.generate_compilation_database
                || commands_dropped(old(cache), final(cache)));
            match r {
                Ok(tasks) => {
                    &&& tasks.save_project_model == old(cache).metadata.save_project_model
                    &&& (tasks.compilation_database is Some <==> wanted)
                    &&& match tasks.compilation_database {
                        Some(entries) => {
                            &&& final(cache).generated_commands.flyweight_data is Some
                            &&& entries@.map_values(|e: CompileCommand| e@) == crate::cache::all_commands(final(cache)).map_values(
                                |c: crate::command_lines::SclView|
                                    compile_command_of(
                                        driver_of(program_data),
                                        &final(cache).generated_commands.flyweight_data->0,
                                        c,
                                    ),
                            )
                        },
                        None => true,
                    }
                },
                Err(e) => wanted && final(cache).generated_commands.flyweight_data is None
                    && e == CompilationDatabaseError::FlyweightDataNotFound,
            }
        }),
        final(cache).metadata == old(cache).metadata,
        final(cache).compilers_metadata == old(cache).compilers_metadata,
        final(cache).generated_commands.flyweight_data == old(cache).generated_commands.flyweight_data,
{
    let ghost o = cached_target_entries(cache.generated_commands.targets);
    let ghost om = cache.generated_commands.modules@;
    let deletions = check_user_files_removals(cache, program_data);
    proof {
        let n = cached_target_entries(cache.generated_commands.targets);
        let nm = cache.generated_commands.modules@;
        let m = model_target_entries(program_data.targets);
        assert forall|t: int| 0 <= t < o.len() implies (#[trigger] n[t]).1.sources.len() < o[t].1.sources.len()
            <==> crate::cache_cleanup::target_loses_commands(o, m, t) by {
            assert(n[t] == crate::cache_cleanup::cleaned_target(o, m, t));
        }
        if deletions == commands_dropped(old(cache), cache) {
        } else {
            if exists|t: int| 0 <= t < o.len() && #[trigger] crate::cache_cleanup::target_loses_commands(o, m, t) {
                let t = choose|t: int| 0 <= t < o.len() && #[trigger] crate::cache_cleanup::target_loses_commands(o, m, t);
                assert(n[t].1.sources.len() < o[t].1.sources.len());
            }
            if exists|t: int| 0 <= t < o.len() && (#[trigger] n[t]).1.sources.len() < o[t].1.sources.len() {
                let t = choose|t: int| 0 <= t < o.len() && (#[trigger] n[t]).1.sources.len() < o[t].1.sources.len();
                assert(crate::cache_cleanup::target_loses_commands(o, m, t));
            }
        }
        assert(deletions == commands_dropped(old(cache), cache));
    }
    let save_project_model = cache.metadata.save_project_model;
    if program_data.project.compilation_db && (cache.metadata.generate_compilation_database || deletions) {
        match map_generated_commands_to_compilation_db(program_data, cache) {
            Ok(entries) => Ok(FinalTasks { save_project_model, compilation_database: Some(entries) }),
            Err(e) => Err(e),
        }
    } else {
        Ok(FinalTasks { save_project_model, compilation_database: None })
    }
}

} // verus!
