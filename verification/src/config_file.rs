//! The configuration file of a project, as the user writes it: every attribute that the
//! file may hold, most of them optional.

use vstd::prelude::*;

use indexmap::IndexMap;

use crate::compiler_model;
use crate::target::TargetKind;

verus! {

/// The metadata of the project: its name, its authors, whether a compilation database is
/// wanted and where its code lives.
#[derive(Debug, Clone, PartialEq, Eq, Default)]
pub struct ProjectAttribute {
    pub name: String,
    pub authors: Option<Vec<String>>,
    pub compilation_db: Option<bool>,
    pub project_root: Option<String>,
}

/// The compilers that can be chosen.
#[derive(Debug, Clone, Copy, PartialEq, Eq, Structural)]
pub enum CppCompiler {
    CLANG,
    MSVC,
    GCC,
}

impl From<CppCompiler> for compiler_model::CppCompiler {
    fn from(value: CppCompiler) -> (r: compiler_model::CppCompiler) {
        match value {
            CppCompiler::CLANG => compiler_model::CppCompiler::CLANG,
            CppCompiler::MSVC => compiler_model::CppCompiler::MSVC,
            CppCompiler::GCC => compiler_model::CppCompiler::GCC,
        }
    }
}

impl vstd::std_specs::convert::FromSpecImpl<CppCompiler> for compiler_model::CppCompiler {
    open spec fn obeys_from_spec() -> bool {
        true
    }

    open spec fn from_spec(v: CppCompiler) -> compiler_model::CppCompiler {
        compiler_of(v)
    }
}

/// The compiler of the model that a compiler of the configuration names.
pub open spec fn compiler_of(v: CppCompiler) -> compiler_model::CppCompiler {
    match v {
        CppCompiler::CLANG => compiler_model::CppCompiler::CLANG,
        CppCompiler::MSVC => compiler_model::CppCompiler::MSVC,
        CppCompiler::GCC => compiler_model::CppCompiler::GCC,
    }
}

/// The levels of the ISO C++ standard that can be chosen.
#[derive(Debug, Clone, Copy, PartialEq, Eq, Structural)]
pub enum LanguageLevel {
    CPP20,
    CPP23,
    CPP2A,
    CPP2B,
    LATEST,
}

/// The language level of the model that a level of the configuration names.
pub open spec fn language_level_of(v: LanguageLevel) -> compiler_model::LanguageLevel {
    match v {
        LanguageLevel::CPP20 => compiler_model::LanguageLevel::CPP20,
        LanguageLevel::CPP23 => compiler_model::LanguageLevel::CPP23,
        LanguageLevel::CPP2A => compiler_model::LanguageLevel::CPP2A,
        LanguageLevel::CPP2B => compiler_model::LanguageLevel::CPP2B,
        LanguageLevel::LATEST => compiler_model::LanguageLevel::LATEST,
    }
}

impl From<LanguageLevel> for compiler_model::LanguageLevel {
    fn from(value: LanguageLevel) -> (r: compiler_model::LanguageLevel) {
        match value {
            LanguageLevel::CPP20 => compiler_model::LanguageLevel::CPP20,
            LanguageLevel::CPP23 => compiler_model::LanguageLevel::CPP23,
            LanguageLevel::CPP2A => compiler_model::LanguageLevel::CPP2A,
            LanguageLevel::CPP2B => compiler_model::LanguageLevel::CPP2B,
            LanguageLevel::LATEST => compiler_model::LanguageLevel::LATEST,
        }
    }
}

impl vstd::std_specs::convert::FromSpecImpl<LanguageLevel> for compiler_model::LanguageLevel {
    open spec fn obeys_from_spec() -> bool {
        true
    }

    open spec fn from_spec(v: LanguageLevel) -> compiler_model::LanguageLevel {
        language_level_of(v)
    }
}

/// The vendor standard libraries that can be chosen.
#[derive(Debug, Clone, Copy, PartialEq, Eq, Structural)]
pub enum StdLib {
    STDLIBCPP,
    LIBCPP,
}

/// The standard library of the model that a library of the configuration names.
pub open spec fn std_lib_of(v: StdLib) -> compiler_model::StdLib {
    match v {
        StdLib::STDLIBCPP => compiler_model::StdLib::STDLIBCPP,
        StdLib::LIBCPP => compiler_model::StdLib::LIBCPP,
    }
}

impl From<StdLib> for compiler_model::StdLib {
    fn from(value: StdLib) -> (r: compiler_model::StdLib) {
        match value {
            StdLib::STDLIBCPP => compiler_model::StdLib::STDLIBCPP,
            StdLib::LIBCPP => compiler_model::StdLib::LIBCPP,
        }
    }
}

impl vstd::std_specs::convert::FromSpecImpl<StdLib> for compiler_model::StdLib {
    open spec fn obeys_from_spec() -> bool {
        true
    }

    open spec fn from_spec(v: StdLib) -> compiler_model::StdLib {
        std_lib_of(v)
    }
}

/// The compiler settings: the compiler, its driver, the language level, the standard
/// library and the arguments that every command line takes.
#[derive(Debug, Clone, PartialEq, Eq)]
pub struct CompilerAttribute {
    pub cpp_compiler: CppCompiler,
    pub driver_path: Option<String>,
    pub cpp_standard: LanguageLevel,
    pub std_lib: Option<StdLib>,
    pub extra_args: Option<Vec<String>>,
    pub system_headers_path: Option<String>,
}

/// Where the build products go, relative to the project root.
#[derive(Debug, Clone, PartialEq, Eq, Default)]
pub struct BuildAttribute {
    pub output_dir: Option<String>,
}

/// A module partition: the module that it belongs to, its name and whether it is an
/// implementation (internal) partition.
#[derive(Debug, Clone, PartialEq, Eq)]
pub struct ModulePartition {
    pub module: String,
    pub partition_name: Option<String>,
    pub is_internal_partition: Option<bool>,
}

/// A module interface unit: its file (relative to the interfaces directory), the module
/// that it declares, its partition and the interfaces that it depends on.
#[derive(Debug, Clone, PartialEq, Eq)]
pub struct ModuleInterface {
    pub file: String,
    pub module_name: Option<String>,
    pub partition: Option<ModulePartition>,
    pub dependencies: Option<Vec<String>>,
}

/// A module implementation unit: its file (relative to the implementations directory)
/// and the interfaces that it depends on.
#[derive(Debug, Clone, PartialEq, Eq)]
pub struct ModuleImplementation {
    pub file: String,
    pub dependencies: Option<Vec<String>>,
}

/// The modules of the project and the system headers to build as modules.
#[derive(Debug, Clone, PartialEq, Eq, Default)]
pub struct ModulesAttribute {
    pub base_ifcs_dir: Option<String>,
    pub interfaces: Option<Vec<ModuleInterface>>,
    pub base_impls_dir: Option<String>,
    pub implementations: Option<Vec<ModuleImplementation>>,
    pub sys_modules: Option<Vec<String>>,
}

/// A target: the name of its product, its sources, its extra arguments and its kind.
#[derive(Debug, Clone, PartialEq, Eq, Default)]
pub struct TargetAttribute {
    pub output_name: Option<String>,
    pub sources: Vec<String>,
    pub extra_args: Option<Vec<String>>,
    pub kind: Option<TargetKind>,
}

/// The model of a [`TargetAttribute`].
pub struct TargetAttributeView {
    pub output_name: Option<Seq<char>>,
    pub sources: Seq<Seq<char>>,
    pub extra_args: Option<Seq<Seq<char>>>,
    pub kind: Option<TargetKind>,
}

/// The texts of a sequence of strings.
pub open spec fn strings_view(s: Seq<String>) -> Seq<Seq<char>> {
    s.map_values(|x: String| x@)
}

/// The texts of an optional sequence of strings.
pub open spec fn opt_strings_view(o: Option<Vec<String>>) -> Option<Seq<Seq<char>>> {
    match o {
        Some(v) => Some(strings_view(v@)),
        None => None,
    }
}

/// The text of an optional string.
pub open spec fn opt_string_view(o: Option<String>) -> Option<Seq<char>> {
    match o {
        Some(s) => Some(s@),
        None => None,
    }
}

impl View for TargetAttribute {
    type V = TargetAttributeView;

    open spec fn view(&self) -> TargetAttributeView {
        TargetAttributeView {
            output_name: opt_string_view(self.output_name),
            sources: strings_view(self.sources@),
            extra_args: opt_strings_view(self.extra_args),
            kind: self.kind,
        }
    }
}

/// What a configuration says of the language: its standard level, the standard library
/// and whether modules are used.
#[derive(Debug, Clone, PartialEq, Eq, Default)]
pub struct LanguageAttribute {
    pub cpp_standard: u16,
    pub std_lib: Option<String>,
    pub modules: Option<bool>,
}

/// What a configuration says of the executable of the project.
#[derive(Debug, Clone, PartialEq, Eq, Default)]
pub struct ExecutableAttribute {
    pub executable_name: Option<String>,
    pub sources_base_path: Option<String>,
    pub sources: Option<Vec<String>>,
    pub extra_args: Option<Vec<String>>,
}

/// What a configuration says of the tests executable of the project.
#[derive(Debug, Clone, PartialEq, Eq, Default)]
pub struct TestsAttribute {
    pub test_executable_name: Option<String>,
    pub sources_base_path: Option<String>,
    pub sources: Option<Vec<String>>,
    pub extra_args: Option<Vec<String>>,
}

/// The projects that a workspace groups.
#[derive(Debug, Clone, PartialEq, Eq, Default)]
pub struct WorkspaceAttribute {
    pub members: Vec<String>,
}

/// The whole configuration file.
#[derive(Debug)]
pub struct ZorkConfigFile {
    pub project: ProjectAttribute,
    pub compiler: CompilerAttribute,
    pub build: Option<BuildAttribute>,
    pub modules: Option<ModulesAttribute>,
    pub targets: IndexMap<String, TargetAttribute>,
}

/// The entries of the table of targets of a configuration file, in their order: the name
/// of each target and what the file says of it.
pub uninterp spec fn config_target_entries(m: IndexMap<String, TargetAttribute>) -> Seq<(Seq<char>, TargetAttributeView)>;

/// `IndexMap::len`: the number of entries.
#[verifier::external_body]
pub fn config_targets_len(m: &IndexMap<String, TargetAttribute>) -> (r: usize)
    ensures
        r == config_target_entries(*m).len(),
{
    m.len()
}

/// `IndexMap::get_index`: the entry at position `i`; no other entry has its name.
#[verifier::external_body]
pub fn config_target_at(m: &IndexMap<String, TargetAttribute>, i: usize) -> (r: (&String, &TargetAttribute))
    requires
        i < config_target_entries(*m).len(),
    ensures
        r.0@ == config_target_entries(*m)[i as int].0,
        r.1@ == config_target_entries(*m)[i as int].1,
        forall|j: int| 0 <= j < config_target_entries(*m).len() && j != i ==> #[trigger] config_target_entries(*m)[j].0 != r.0@,
{
    m.get_index(i).unwrap()
}

} // verus!
