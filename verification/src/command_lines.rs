//! The command lines that are generated for the translation units and the targets of a
//! project, and the status of each of them across the runs of the build.

use vstd::prelude::*;

use indexmap::IndexMap;

use crate::arguments::{Argument, Arguments};
use crate::compiler_model::CppCompiler;
use crate::flyweight_data::FlyweightData;
use crate::paths::{join, join_path};
use crate::project_model::{tu_filename, TranslationUnit};
use crate::target::{Target, TargetIdentifier};

verus! {

/// The states of a translation unit along the build and across the runs of the build.
#[derive(Debug, Clone, Copy, PartialEq, Eq, Structural, Default)]
pub enum TranslationUnitStatus {
    /// Its command ran and succeeded.
    Success,
    /// It is skipped, since a former run built it and it did not change.
    Cached,
    /// Its command ran and reported a failure.
    Failed,
    /// It must be built (again).
    #[default]
    PendingToBuild,
    /// It was removed from the configuration or from the filesystem, so its data and its
    /// products must go.
    ToDelete,
    /// Its command could not be run.
    Error,
}

/// The status that the outcome of running a command gives: `None` when the command
/// could not be run, otherwise whether it reported success.
pub open spec fn status_of_outcome(outcome: Option<bool>) -> TranslationUnitStatus {
    match outcome {
        Some(true) => TranslationUnitStatus::Success,
        Some(false) => TranslationUnitStatus::Failed,
        None => TranslationUnitStatus::Error,
    }
}

impl TranslationUnitStatus {
    /// The status that the outcome of running a command gives: `None` when the command
    /// could not be run, otherwise whether it reported success.
    pub fn from_outcome(outcome: Option<bool>) -> (r: TranslationUnitStatus)
        ensures
            r == status_of_outcome(outcome),
    {
        handle_command_execution_result(outcome)
    }
}

/// Maps the outcome of running a command to the status of its translation unit.
pub fn handle_command_execution_result(outcome: Option<bool>) -> (r: TranslationUnitStatus)
    ensures
        r == status_of_outcome(outcome),
{
    match outcome {
        Some(success) => {
            if success {
                TranslationUnitStatus::Success
            } else {
                TranslationUnitStatus::Failed
            }
        },
        None => TranslationUnitStatus::Error,
    }
}

/// The command line that builds one translation unit.
///
/// * `directory`: where the translation unit lives
/// * `filename`: its file name, with its extension
/// * `args`: the arguments that are particular to it
/// * `status`: where it stands in the build
/// * `byproduct`: where its build product goes
#[derive(Debug, Clone, PartialEq, Eq)]
pub struct SourceCommandLine {
    pub directory: String,
    pub filename: String,
    pub args: Arguments,
    pub status: TranslationUnitStatus,
    pub byproduct: Argument,
}

/// The model of a [`SourceCommandLine`].
pub struct SclView {
    pub directory: Seq<char>,
    pub filename: Seq<char>,
    pub args: Seq<Seq<char>>,
    pub status: TranslationUnitStatus,
    pub byproduct: Seq<char>,
}

impl View for SourceCommandLine {
    type V = SclView;

    open spec fn view(&self) -> SclView {
        SclView {
            directory: self.directory@,
            filename: self.filename@,
            args: self.args@,
            status: self.status,
            byproduct: self.byproduct@,
        }
    }
}

/// The full path of the translation unit of a command line.
pub open spec fn scl_path(scl: SclView) -> Seq<char> {
    join(scl.directory, scl.filename)
}

/// The models of a sequence of command lines.
pub open spec fn scl_views(s: Seq<SourceCommandLine>) -> Seq<SclView> {
    s.map_values(|c: SourceCommandLine| c@)
}

impl SourceCommandLine {
    /// The command line for `tu`, pending to be built.
    pub fn new<T: TranslationUnit>(tu: &T, args: Arguments, byproduct: Argument) -> (r: SourceCommandLine)
        ensures
            r.directory@ == tu.spec_parent(),
            r.filename@ == tu_filename(tu.spec_file_stem(), tu.spec_extension()),
            r.args@ == args@,
            r.status == TranslationUnitStatus::PendingToBuild,
            r.byproduct@ == byproduct@,
    {
        SourceCommandLine {
            directory: tu.parent().clone(),
            filename: tu.filename(),
            args,
            status: TranslationUnitStatus::PendingToBuild,
            byproduct,
        }
    }

    /// The full path of the translation unit.
    pub fn path(&self) -> (r: String)
        ensures
            r@ == scl_path(self@),
    {
        join_path(self.directory.as_str(), self.filename.as_str())
    }

    /// The file name of the translation unit.
    pub fn filename(&self) -> (r: &String)
        ensures
            r@ == self.filename@,
    {
        &self.filename
    }
}

/// The command line that links the final product of a target.
#[derive(Debug, Clone, PartialEq, Eq, Default)]
pub struct LinkerCommandLine {
    pub target: Argument,
    pub args: Arguments,
    pub extra_args: Arguments,
    pub execution_result: TranslationUnitStatus,
}

/// The model of a [`LinkerCommandLine`].
pub struct LinkerView {
    pub target: Seq<char>,
    pub args: Seq<Seq<char>>,
    pub extra_args: Seq<Seq<char>>,
    pub execution_result: TranslationUnitStatus,
}

impl View for LinkerCommandLine {
    type V = LinkerView;

    open spec fn view(&self) -> LinkerView {
        LinkerView {
            target: self.target@,
            args: self.args@,
            extra_args: self.extra_args@,
            execution_result: self.execution_result,
        }
    }
}

/// The linker command line that has no target and no arguments and has not run.
pub open spec fn empty_linker() -> LinkerView {
    LinkerView {
        target: Seq::empty(),
        args: Seq::empty(),
        extra_args: Seq::empty(),
        execution_result: TranslationUnitStatus::PendingToBuild,
    }
}

/// The arguments that name the product of a link for a compiler.
pub open spec fn target_output_texts(compiler: CppCompiler, target: Seq<char>) -> Seq<Seq<char>> {
    match compiler {
        CppCompiler::CLANG | CppCompiler::GCC => seq!["-o"@, target],
        CppCompiler::MSVC => seq![target],
    }
}

impl LinkerCommandLine {
    /// A linker command line with no target and no arguments, pending to run.
    pub fn new_empty() -> (r: LinkerCommandLine)
        ensures
            r@ == empty_linker(),
    {
        LinkerCommandLine {
            target: Argument::new(String::new()),
            args: Arguments::new(),
            extra_args: Arguments::new(),
            execution_result: TranslationUnitStatus::PendingToBuild,
        }
    }

    /// The arguments that name the product of the link: `-o <target>` for Clang and
    /// GCC, the target argument alone for MSVC (where it already holds `/Fe`).
    pub fn get_target_output_for(&self, compiler: CppCompiler) -> (r: Vec<Argument>)
        ensures
            r@.map_values(|a: Argument| a@) == target_output_texts(compiler, self.target@),
    {
        let mut v: Vec<Argument> = Vec::new();
        match compiler {
            CppCompiler::CLANG | CppCompiler::GCC => {
                v.push(Argument::from_str("-o"));
                v.push(self.target.duplicate());
            },
            CppCompiler::MSVC => {
                v.push(self.target.duplicate());
            },
        }
        proof {
            assert(v@.map_values(|a: Argument| a@) =~= target_output_texts(compiler, self.target@));
        }
        v
    }

    /// Adds `path`, the place of a build product, to the files that are linked.
    pub fn add_byproduct_path(&mut self, path: String)
        ensures
            final(self)@ == (LinkerView { args: old(self)@.args.push(path@), ..old(self)@ }),
    {
        self.args.push(Argument::new(path));
    }
}

/// The command lines of the modules of a project: the modular standard libraries, the
/// system headers built as modules, and the user's module interfaces and implementations.
#[derive(Debug, Clone, PartialEq, Eq, Default)]
pub struct ModulesCommands {
    pub cpp_stdlib: Option<SourceCommandLine>,
    pub c_compat_stdlib: Option<SourceCommandLine>,
    pub system_modules: Vec<SourceCommandLine>,
    pub interfaces: Vec<SourceCommandLine>,
    pub implementations: Vec<SourceCommandLine>,
}

/// The model of [`ModulesCommands`].
pub struct ModulesCommandsView {
    pub cpp_stdlib: Option<SclView>,
    pub c_compat_stdlib: Option<SclView>,
    pub system_modules: Seq<SclView>,
    pub interfaces: Seq<SclView>,
    pub implementations: Seq<SclView>,
}

/// The model of a command line in an optional slot.
pub open spec fn opt_view(o: Option<SourceCommandLine>) -> Option<SclView> {
    match o {
        Some(s) => Some(s@),
        None => None,
    }
}

impl View for ModulesCommands {
    type V = ModulesCommandsView;

    open spec fn view(&self) -> ModulesCommandsView {
        ModulesCommandsView {
            cpp_stdlib: opt_view(self.cpp_stdlib),
            c_compat_stdlib: opt_view(self.c_compat_stdlib),
            system_modules: scl_views(self.system_modules@),
            interfaces: scl_views(self.interfaces@),
            implementations: scl_views(self.implementations@),
        }
    }
}

/// The sequence of the command line in an optional slot.
pub open spec fn opt_seq(o: Option<SclView>) -> Seq<SclView> {
    match o {
        Some(s) => seq![s],
        None => Seq::empty(),
    }
}

/// The build products of a sequence of command lines.
pub open spec fn byproducts_of(s: Seq<SclView>) -> Seq<Seq<char>> {
    s.map_values(|scl: SclView| scl.byproduct)
}

/// Collects the build products of `s`, in their order.
pub fn collect_byproducts(s: &Vec<SourceCommandLine>) -> (r: Vec<String>)
    ensures
        r@.map_values(|p: String| p@) == byproducts_of(scl_views(s@)),
{
    let mut r: Vec<String> = Vec::new();
    let mut i: usize = 0;
    while i < s.len()
        invariant
            0 <= i <= s@.len(),
            r@.map_values(|p: String| p@) == byproducts_of(scl_views(s@.subrange(0, i as int))),
        decreases s@.len() - i,
    {
        r.push(s[i].byproduct.value().clone());
        proof {
            assert(byproducts_of(scl_views(s@.subrange(0, i + 1))) =~= byproducts_of(scl_views(s@.subrange(0, i as int))).push(s@[i as int].byproduct@));
            assert(r@.map_values(|p: String| p@) =~= byproducts_of(scl_views(s@.subrange(0, i + 1))));
        }
        i = i + 1;
    }
    proof {
        assert(s@.subrange(0, s@.len() as int) =~= s@);
    }
    r
}

impl ModulesCommands {
    /// The build products of the user's module interfaces and then of the user's module
    /// implementations: the files that `clear` makes obsolete.
    pub fn user_modules_byproducts(&self) -> (r: Vec<String>)
        ensures
            r@.map_values(|p: String| p@) == byproducts_of(self@.interfaces) + byproducts_of(self@.implementations),
    {
        let mut r = collect_byproducts(&self.interfaces);
        let mut other = collect_byproducts(&self.implementations);
        let ghost r0 = r@;
        let ghost o0 = other@;
        r.append(&mut other);
        proof {
            assert(r@ =~= r0 + o0);
            assert(r@.map_values(|p: String| p@) =~= r0.map_values(|p: String| p@) + o0.map_values(|p: String| p@));
        }
        r
    }

    /// Forgets the command lines of the user's module interfaces and implementations.
    pub fn clear(&mut self)
        ensures
            final(self)@ == (ModulesCommandsView {
                interfaces: Seq::empty(),
                implementations: Seq::empty(),
                ..old(self)@
            }),
    {
        self.interfaces.clear();
        self.implementations.clear();
        proof {
            assert(scl_views(self.interfaces@) =~= Seq::<SclView>::empty());
            assert(scl_views(self.implementations@) =~= Seq::<SclView>::empty());
        }
    }
}

/// Every command line of the modules: the modular standard libraries, the system
/// headers, the interfaces and the implementations, in this order.
pub open spec fn all_modules_command_lines(m: ModulesCommandsView) -> Seq<SclView> {
    opt_seq(m.cpp_stdlib) + opt_seq(m.c_compat_stdlib) + m.system_modules + m.interfaces
        + m.implementations
}

/// Appends copies of the command lines of `src` to `dst`.
pub fn push_all(dst: &mut Vec<SourceCommandLine>, src: &Vec<SourceCommandLine>)
    ensures
        scl_views(final(dst)@) == scl_views(old(dst)@) + scl_views(src@),
{
    let mut i: usize = 0;
    while i < src.len()
        invariant
            0 <= i <= src@.len(),
            scl_views(dst@) == scl_views(old(dst)@) + scl_views(src@.subrange(0, i as int)),
        decreases src@.len() - i,
    {
        let ghost d0 = dst@;
        dst.push(src[i].duplicate());
        proof {
            assert(scl_views(dst@) =~= scl_views(d0).push(src@[i as int]@));
            assert(scl_views(src@.subrange(0, i + 1)) =~= scl_views(src@.subrange(0, i as int)).push(src@[i as int]@));
            assert(scl_views(dst@) =~= scl_views(old(dst)@) + scl_views(src@.subrange(0, i + 1)));
        }
        i = i + 1;
    }
    proof {
        assert(src@.subrange(0, src@.len() as int) =~= src@);
    }
}

impl SourceCommandLine {
    /// A copy of the command line.
    pub fn duplicate(&self) -> (r: SourceCommandLine)
        ensures
            r@ == self@,
    {
        SourceCommandLine {
            directory: self.directory.clone(),
            filename: self.filename.clone(),
            args: self.args.duplicate(),
            status: self.status,
            byproduct: self.byproduct.duplicate(),
        }
    }
}

/// The generated command lines of a project, kept between runs.
#[derive(Debug)]
pub struct Commands {
    pub flyweight_data: Option<FlyweightData>,
    pub modules: ModulesCommands,
    pub targets: IndexMap<TargetIdentifier, Target>,
}

impl Commands {
    /// Copies of every command line of the modules, in the order of
    /// `all_modules_command_lines`.
    pub fn get_all_modules_command_lines(&self) -> (r: Vec<SourceCommandLine>)
        ensures
            scl_views(r@) == all_modules_command_lines(self.modules@),
    {
        let mut r: Vec<SourceCommandLine> = Vec::new();
        if let Some(s) = &self.modules.cpp_stdlib {
            r.push(s.duplicate());
        }
        if let Some(s) = &self.modules.c_compat_stdlib {
            r.push(s.duplicate());
        }
        proof {
            assert(scl_views(r@) =~= opt_seq(self.modules@.cpp_stdlib) + opt_seq(self.modules@.c_compat_stdlib));
        }
        push_all(&mut r, &self.modules.system_modules);
        push_all(&mut r, &self.modules.interfaces);
        push_all(&mut r, &self.modules.implementations);
        proof {
            assert(scl_views(r@) =~= all_modules_command_lines(self.modules@));
        }
        r
    }
}

} // verus!
