//! The project model: the read-only description of a project that the build works on,
//! assembled from the user's configuration file.

use vstd::prelude::*;

use indexmap::IndexMap;

use crate::arguments::Argument;
use crate::compiler_model::CompilerModel;
use crate::paths::{join, join_path};
use crate::target::{TargetIdentifier, TargetKind};

verus! {

/// The file name of a translation unit: its stem and its extension joined by a dot.
pub open spec fn tu_filename(stem: Seq<char>, ext: Seq<char>) -> Seq<char> {
    stem + "."@ + ext
}

/// Any file that the compiler builds on its own: a module interface or implementation,
/// a system header built as a module, or a plain source file.
pub trait TranslationUnit {
    /// The directory where the file lives.
    spec fn spec_parent(&self) -> Seq<char>;

    /// The file name without its extension.
    spec fn spec_file_stem(&self) -> Seq<char>;

    /// The extension of the file.
    spec fn spec_extension(&self) -> Seq<char>;

    /// The directory where the file lives.
    fn parent(&self) -> (r: &String)
        ensures
            r@ == self.spec_parent(),
    ;

    /// The file name without its extension.
    fn file_stem(&self) -> (r: &String)
        ensures
            r@ == self.spec_file_stem(),
    ;

    /// The extension of the file.
    fn extension(&self) -> (r: &String)
        ensures
            r@ == self.spec_extension(),
    ;

    /// The file stem and the extension joined by a dot.
    fn filename(&self) -> (r: String)
        ensures
            r@ == tu_filename(self.spec_file_stem(), self.spec_extension()),
    {
        let mut s = self.file_stem().clone();
        s.append(".");
        s.append(self.extension().as_str());
        s
    }

    /// The full path of the file: its directory joined with its file name.
    fn path(&self) -> (r: String)
        ensures
            r@ == join(self.spec_parent(), tu_filename(self.spec_file_stem(), self.spec_extension())),
    {
        let name = self.filename();
        join_path(self.parent().as_str(), name.as_str())
    }
}

/// The full path of a translation unit.
pub open spec fn tu_path<T: TranslationUnit>(tu: &T) -> Seq<char> {
    join(tu.spec_parent(), tu_filename(tu.spec_file_stem(), tu.spec_extension()))
}

/// A plain (non modular) source file.
#[derive(Debug, Clone, PartialEq, Eq, Default)]
pub struct SourceFile {
    pub path: String,
    pub file_stem: String,
    pub extension: String,
}

impl TranslationUnit for SourceFile {
    open spec fn spec_parent(&self) -> Seq<char> {
        self.path@
    }

    open spec fn spec_file_stem(&self) -> Seq<char> {
        self.file_stem@
    }

    open spec fn spec_extension(&self) -> Seq<char> {
        self.extension@
    }

    fn parent(&self) -> (r: &String) {
        &self.path
    }

    fn file_stem(&self) -> (r: &String) {
        &self.file_stem
    }

    fn extension(&self) -> (r: &String) {
        &self.extension
    }
}

/// A module interface unit (a primary interface or a partition).
#[derive(Debug, Clone, PartialEq, Eq, Default)]
pub struct ModuleInterfaceModel {
    pub path: String,
    pub file_stem: String,
    pub extension: String,
    pub module_name: String,
    pub partition: Option<ModulePartitionModel>,
    pub dependencies: Vec<String>,
}

impl TranslationUnit for ModuleInterfaceModel {
    open spec fn spec_parent(&self) -> Seq<char> {
        self.path@
    }

    open spec fn spec_file_stem(&self) -> Seq<char> {
        self.file_stem@
    }

    open spec fn spec_extension(&self) -> Seq<char> {
        self.extension@
    }

    fn parent(&self) -> (r: &String) {
        &self.path
    }

    fn file_stem(&self) -> (r: &String) {
        &self.file_stem
    }

    fn extension(&self) -> (r: &String) {
        &self.extension
    }
}

/// The partition details of a module interface unit.
#[derive(Debug, Clone, PartialEq, Eq, Default)]
pub struct ModulePartitionModel {
    /// The primary module interface that the partition belongs to.
    pub module: String,
    /// The declared name of the partition (empty when none was declared).
    pub partition_name: String,
    /// Whether it is an implementation (internal) partition.
    pub is_internal_partition: bool,
}

/// A module implementation unit.
#[derive(Debug, Clone, PartialEq, Eq, Default)]
pub struct ModuleImplementationModel {
    pub path: String,
    pub file_stem: String,
    pub extension: String,
    pub dependencies: Vec<String>,
}

impl TranslationUnit for ModuleImplementationModel {
    open spec fn spec_parent(&self) -> Seq<char> {
        self.path@
    }

    open spec fn spec_file_stem(&self) -> Seq<char> {
        self.file_stem@
    }

    open spec fn spec_extension(&self) -> Seq<char> {
        self.extension@
    }

    fn parent(&self) -> (r: &String) {
        &self.path
    }

    fn file_stem(&self) -> (r: &String) {
        &self.file_stem
    }

    fn extension(&self) -> (r: &String) {
        &self.extension
    }
}

/// A system header that is built as a module so that it can be imported.
#[derive(Debug, Clone, PartialEq, Eq, Default)]
pub struct SystemModule {
    pub path: String,
    pub file_stem: String,
    pub extension: String,
}

impl TranslationUnit for SystemModule {
    open spec fn spec_parent(&self) -> Seq<char> {
        self.path@
    }

    open spec fn spec_file_stem(&self) -> Seq<char> {
        self.file_stem@
    }

    open spec fn spec_extension(&self) -> Seq<char> {
        self.extension@
    }

    fn parent(&self) -> (r: &String) {
        &self.path
    }

    fn file_stem(&self) -> (r: &String) {
        &self.file_stem
    }

    fn extension(&self) -> (r: &String) {
        &self.extension
    }
}

/// The modules of a project.
#[derive(Debug, Clone, PartialEq, Eq, Default)]
pub struct ModulesModel {
    pub base_ifcs_dir: String,
    pub interfaces: Vec<ModuleInterfaceModel>,
    pub base_impls_dir: String,
    pub implementations: Vec<ModuleImplementationModel>,
    pub sys_modules: Vec<SystemModule>,
}

/// The metadata of a project.
#[derive(Debug, Clone, PartialEq, Eq, Default)]
pub struct ProjectModel {
    pub name: String,
    pub authors: Vec<String>,
    pub compilation_db: bool,
    pub code_root: Option<String>,
}

/// Where the build products go.
#[derive(Debug, Clone, PartialEq, Eq, Default)]
pub struct BuildModel {
    pub output_dir: String,
}

/// A source declared in the configuration: a file, or a pattern of files.
#[derive(Debug, Clone, PartialEq, Eq)]
pub enum Source {
    File(String),
    Glob(GlobPattern),
}

/// A path pattern that names several files.
#[derive(Debug, Clone, PartialEq, Eq)]
pub struct GlobPattern(pub String);

/// The source files of a target.
#[derive(Debug, Clone, PartialEq, Eq, Default)]
pub struct SourceSet {
    pub sources: Vec<SourceFile>,
}

impl SourceSet {
    /// Appends to `dst` an argument with the full path of every source file, in their order.
    pub fn as_args_to(&self, dst: &mut Vec<Argument>)
        ensures
            final(dst)@.len() == old(dst)@.len() + self.sources@.len(),
            forall|i: int| 0 <= i < old(dst)@.len() ==> #[trigger] final(dst)@[i] == old(dst)@[i],
            forall|i: int|
                0 <= i < self.sources@.len() ==> #[trigger] final(dst)@[old(dst)@.len() + i]@
                    == tu_path(&self.sources@[i]),
    {
        let ghost old_dst = dst@;
        let mut i: usize = 0;
        while i < self.sources.len()
            invariant
                0 <= i <= self.sources@.len(),
                dst@.len() == old_dst.len() + i,
                forall|j: int| 0 <= j < old_dst.len() ==> #[trigger] dst@[j] == old_dst[j],
                forall|j: int|
                    0 <= j < i ==> #[trigger] dst@[old_dst.len() + j]@ == tu_path(&self.sources@[j]),
            decreases self.sources@.len() - i,
        {
            let p = self.sources[i].path();
            dst.push(Argument::new(p));
            i = i + 1;
        }
    }
}

/// The model of a [`SourceFile`].
pub struct SourceFileView {
    pub path: Seq<char>,
    pub file_stem: Seq<char>,
    pub extension: Seq<char>,
}

impl View for SourceFile {
    type V = SourceFileView;

    open spec fn view(&self) -> SourceFileView {
        SourceFileView { path: self.path@, file_stem: self.file_stem@, extension: self.extension@ }
    }
}

/// The full path of a source file.
pub open spec fn source_file_path(f: SourceFileView) -> Seq<char> {
    join(f.path, tu_filename(f.file_stem, f.extension))
}

/// The models of a sequence of source files.
pub open spec fn source_file_views(s: Seq<SourceFile>) -> Seq<SourceFileView> {
    s.map_values(|f: SourceFile| f@)
}

/// The texts of a sequence of arguments.
pub open spec fn argument_texts(s: Seq<Argument>) -> Seq<Seq<char>> {
    s.map_values(|a: Argument| a@)
}

/// The model of a [`TargetModel`].
pub struct TargetModelView {
    pub output_name: Seq<char>,
    pub sources: Seq<SourceFileView>,
    pub extra_args: Seq<Seq<char>>,
    pub kind: TargetKind,
    pub enabled_for_current_program_iteration: bool,
}

impl View for TargetModel {
    type V = TargetModelView;

    open spec fn view(&self) -> TargetModelView {
        TargetModelView {
            output_name: self.output_name@,
            sources: source_file_views(self.sources.sources@),
            extra_args: argument_texts(self.extra_args@),
            kind: self.kind,
            enabled_for_current_program_iteration: self.enabled_for_current_program_iteration,
        }
    }
}

/// A target declared by the user: a final product and the sources that make it.
#[derive(Debug, Clone, PartialEq, Eq)]
pub struct TargetModel {
    pub output_name: String,
    pub sources: SourceSet,
    pub extra_args: Vec<Argument>,
    pub kind: TargetKind,
    pub enabled_for_current_program_iteration: bool,
}

/// The description of the executable of a project.
#[derive(Debug, Clone, PartialEq, Eq)]
pub struct ExecutableModel {
    pub executable_name: String,
    pub sourceset: SourceSet,
    pub extra_args: Vec<Argument>,
}

/// The description of the tests executable of a project.
#[derive(Debug, Clone, PartialEq, Eq)]
pub struct TestsModel {
    pub test_executable_name: String,
    pub sourceset: SourceSet,
    pub extra_args: Vec<Argument>,
}

/// The projects that a workspace groups.
#[derive(Debug, Clone, PartialEq, Eq)]
pub struct WorkspaceModel {
    pub members: Vec<String>,
}

/// The arguments that the user adds to the command lines of something.
pub trait ExtraArgs {
    spec fn spec_extra_args(&self) -> Seq<Argument>;

    fn extra_args(&self) -> (r: &Vec<Argument>)
        ensures
            r@ == self.spec_extra_args(),
    ;
}

/// What an executable product declares.
pub trait ExecutableTarget: ExtraArgs {
    spec fn spec_name(&self) -> Seq<char>;

    fn name(&self) -> (r: &String)
        ensures
            r@ == self.spec_name(),
    ;

    fn sourceset(&self) -> (r: &SourceSet);
}

impl ExtraArgs for CompilerModel {
    open spec fn spec_extra_args(&self) -> Seq<Argument> {
        self.extra_args@
    }

    fn extra_args(&self) -> (r: &Vec<Argument>) {
        &self.extra_args
    }
}

impl ExtraArgs for ExecutableModel {
    open spec fn spec_extra_args(&self) -> Seq<Argument> {
        self.extra_args@
    }

    fn extra_args(&self) -> (r: &Vec<Argument>) {
        &self.extra_args
    }
}

impl ExecutableTarget for ExecutableModel {
    open spec fn spec_name(&self) -> Seq<char> {
        self.executable_name@
    }

    fn name(&self) -> (r: &String) {
        &self.executable_name
    }

    fn sourceset(&self) -> (r: &SourceSet)
        ensures
            r == &self.sourceset,
    {
        &self.sourceset
    }
}

impl ExtraArgs for TestsModel {
    open spec fn spec_extra_args(&self) -> Seq<Argument> {
        self.extra_args@
    }

    fn extra_args(&self) -> (r: &Vec<Argument>) {
        &self.extra_args
    }
}

impl ExecutableTarget for TestsModel {
    open spec fn spec_name(&self) -> Seq<char> {
        self.test_executable_name@
    }

    fn name(&self) -> (r: &String) {
        &self.test_executable_name
    }

    fn sourceset(&self) -> (r: &SourceSet)
        ensures
            r == &self.sourceset,
    {
        &self.sourceset
    }
}

/// The whole description of a project.
#[derive(Debug)]
pub struct ZorkModel {
    pub project: ProjectModel,
    pub compiler: CompilerModel,
    pub build: BuildModel,
    pub modules: ModulesModel,
    pub targets: IndexMap<TargetIdentifier, TargetModel>,
}

} // verus!
