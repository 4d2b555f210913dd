//! Generation of the command lines: for every translation unit of a project, the
//! arguments that build it with the chosen compiler, and for every target the linker
//! command line; and, for the ones that a former run generated, whether they must be
//! built again.

use vstd::prelude::*;

use crate::arguments::{
    add_direct_module_interfaces_dependencies, add_prebuilt_module_path, clang_module_file_arg,
    clang_prebuilt_dir, Argument, Arguments,
};
use crate::cache::{first_with_filename, first_with_path, find_by_filename, find_by_path, ZorkCache};
use crate::command_lines::{scl_path, scl_views, SclView, SourceCommandLine, TranslationUnitStatus};
use crate::compiler_model::{bmi_extension, compiler_name, obj_extension, CppCompiler};
use crate::paths::{join, join_path, set_extension, with_extension};
use crate::project_model::{
    tu_filename, tu_path, ModuleImplementationModel, ModuleInterfaceModel, SourceFile, SystemModule,
    TranslationUnit, ZorkModel,
};

verus! {

/// Where a binary module interface goes: MSVC places the object file that it produces
/// with the other object files; the other compilers place their module interfaces in the
/// modules directory of the compiler.
pub open spec fn bmi_file_path(out_dir: Seq<char>, compiler: CppCompiler, module_name: Seq<char>) -> Seq<char> {
    let base = join(out_dir, compiler_name(compiler));
    let intermediate = if compiler == CppCompiler::MSVC {
        join(base, "obj_files"@)
    } else {
        join(join(base, "modules"@), "interfaces"@)
    };
    let ext = if compiler == CppCompiler::MSVC {
        obj_extension(compiler)
    } else {
        bmi_extension(compiler)
    };
    join(join(base, intermediate), module_name + "."@ + ext)
}

/// Generates the path where the binary module interface of `module_name` goes.
///
/// The extension is appended rather than substituted, since module names may hold dots.
pub fn generate_bmi_file_path(out_dir: &str, compiler: CppCompiler, module_name: &str) -> (r: String)
    ensures
        r@ == bmi_file_path(out_dir@, compiler, module_name@),
{
    let base = join_path(out_dir, compiler.as_str());
    let (intermediate, extension) = if compiler == CppCompiler::MSVC {
        (join_path(base.as_str(), "obj_files"), compiler.get_obj_file_extension())
    } else {
        let m = join_path(base.as_str(), "modules");
        (join_path(m.as_str(), "interfaces"), compiler.get_typical_bmi_extension())
    };
    let mut file = String::from_str(module_name);
    file.append(".");
    file.append(extension);
    let p = join_path(base.as_str(), intermediate.as_str());
    join_path(p.as_str(), file.as_str())
}

/// The name under which the binary module interface of an interface unit is built: for
/// Clang, a partition is named after its module and its partition name (its file stem
/// when it declares none), as `module-partition`; otherwise the module name is used.
pub open spec fn prebuilt_miu_name(compiler: CppCompiler, interface: &ModuleInterfaceModel) -> Seq<char> {
    if compiler == CppCompiler::CLANG {
        match interface.partition {
            Some(partition) => partition.module@ + "-"@ + if partition.partition_name@.len() > 0 {
                partition.partition_name@
            } else {
                interface.file_stem@
            },
            None => interface.module_name@,
        }
    } else {
        interface.module_name@
    }
}

/// Generates the path of the binary module interface of `interface`.
pub fn generate_prebuilt_miu(compiler: CppCompiler, out_dir: &str, interface: &ModuleInterfaceModel) -> (r: String)
    ensures
        r@ == bmi_file_path(out_dir@, compiler, prebuilt_miu_name(compiler, interface)),
{
    let mod_unit = if compiler == CppCompiler::CLANG {
        match &interface.partition {
            Some(partition) => {
                let mut temp = partition.module.clone();
                temp.append("-");
                if partition.partition_name.as_str().unicode_len() > 0 {
                    temp.append(partition.partition_name.as_str());
                } else {
                    temp.append(interface.file_stem.as_str());
                }
                temp
            },
            None => interface.module_name.clone(),
        }
    } else {
        interface.module_name.clone()
    };
    generate_bmi_file_path(out_dir, compiler, mod_unit.as_str())
}

/// Where the object file of a translation unit goes.
pub open spec fn obj_file_path(out_dir: Seq<char>, compiler: CppCompiler, file_stem: Seq<char>) -> Seq<char> {
    with_extension(
        join(join(join(out_dir, compiler_name(compiler)), "obj_files"@), file_stem),
        obj_extension(compiler),
    )
}

/// Generates the path of the object file of `translation_unit`.
pub fn generate_obj_file<T: TranslationUnit>(compiler: CppCompiler, out_dir: &str, translation_unit: &T) -> (r: String)
    ensures
        r@ == obj_file_path(out_dir@, compiler, translation_unit.spec_file_stem()),
{
    let p = join_path(out_dir, compiler.as_str());
    let p = join_path(p.as_str(), "obj_files");
    let p = join_path(p.as_str(), translation_unit.file_stem().as_str());
    set_extension(p.as_str(), compiler.get_obj_file_extension())
}

/// The status that a cached command line takes in a new run: `ToDelete` when its file is
/// gone, `PendingToBuild` when the file changed since the last run (or always with Clang
/// on Windows), otherwise the status that its last outcome gives.
pub open spec fn refreshed_status(
    compiler: CppCompiler,
    on_windows: bool,
    exists: bool,
    changed: bool,
    status: TranslationUnitStatus,
) -> TranslationUnitStatus {
    if !exists {
        TranslationUnitStatus::ToDelete
    } else if (compiler == CppCompiler::CLANG && on_windows) || changed {
        TranslationUnitStatus::PendingToBuild
    } else {
        carried_status(status)
    }
}

/// What a former outcome means for a translation unit that did not change: a built one is
/// taken from the cache, any other one is built.
pub open spec fn carried_status(status: TranslationUnitStatus) -> TranslationUnitStatus {
    match status {
        TranslationUnitStatus::Success | TranslationUnitStatus::Cached => TranslationUnitStatus::Cached,
        _ => TranslationUnitStatus::PendingToBuild,
    }
}

/// Determines the status of a cached command line from its former outcome.
pub fn compute_translation_unit_status(scl: &SourceCommandLine) -> (r: TranslationUnitStatus)
    ensures
        r == carried_status(scl.status),
{
    match scl.status {
        TranslationUnitStatus::Success | TranslationUnitStatus::Cached => TranslationUnitStatus::Cached,
        _ => TranslationUnitStatus::PendingToBuild,
    }
}

/// Whether a translation unit is always built again, whatever happened to its file: with
/// Clang on Windows.
pub fn particular_checks_for_sent_to_build(compiler: CppCompiler, on_windows: bool) -> (r: bool)
    ensures
        r == (compiler == CppCompiler::CLANG && on_windows),
{
    compiler == CppCompiler::CLANG && on_windows
}

/// Determines the status of a cached command line, given whether its file still exists
/// and whether it changed after the last run.
pub fn determine_translation_unit_status(
    compiler: CppCompiler,
    on_windows: bool,
    exists: bool,
    changed: bool,
    cached_source_cmd: &SourceCommandLine,
) -> (r: TranslationUnitStatus)
    ensures
        r == refreshed_status(compiler, on_windows, exists, changed, cached_source_cmd.status),
{
    if !exists {
        return TranslationUnitStatus::ToDelete;
    }
    let need_to_build = particular_checks_for_sent_to_build(compiler, on_windows) || changed;
    if need_to_build {
        TranslationUnitStatus::PendingToBuild
    } else {
        compute_translation_unit_status(cached_source_cmd)
    }
}

/// What the build knows about the file at a path at the start of a run.
#[derive(Debug, Clone, PartialEq, Eq)]
pub struct FileState {
    pub path: String,
    /// Whether the file is there.
    pub exists: bool,
    /// Whether it was modified after the last run (also when that could not be learnt).
    pub changed: bool,
}

/// Whether a file changed since the last run: it was modified after it (`modified` is
/// its modification time; when that could not be learnt, it counts as changed).
pub open spec fn changed_since(modified: Option<i64>, last_program_execution: i64) -> bool {
    match modified {
        Some(t) => t > last_program_execution,
        None => true,
    }
}

/// What a run knows of the file at `path`, given whether it exists and its modification
/// time (see `changed_since`).
pub fn file_state_of(path: String, exists: bool, modified: Option<i64>, last_program_execution: i64) -> (r: FileState)
    ensures
        r.path@ == path@,
        r.exists == exists,
        r.changed == changed_since(modified, last_program_execution),
{
    let changed = match modified {
        Some(t) => t > last_program_execution,
        None => true,
    };
    FileState { path, exists, changed }
}

/// The facts about the file at `path`: the first entry of `table` for it; a file that
/// the table does not list is taken as present and changed.
pub open spec fn facts_for(table: Seq<FileState>, path: Seq<char>) -> (bool, bool)
    decreases table.len(),
{
    if table.len() == 0 {
        (true, true)
    } else if table[0].path@ == path {
        (table[0].exists, table[0].changed)
    } else {
        facts_for(table.drop_first(), path)
    }
}

/// Looks up the facts about the file at `path`.
pub fn lookup_file_state(table: &Vec<FileState>, path: &str) -> (r: (bool, bool))
    ensures
        r == facts_for(table@, path@),
{
    proof {
        assert(table@.subrange(0, table@.len() as int) =~= table@);
    }
    let mut i: usize = 0;
    while i < table.len()
        invariant
            0 <= i <= table@.len(),
            facts_for(table@.subrange(i as int, table@.len() as int), path@) == facts_for(table@, path@),
        decreases table@.len() - i,
    {
        proof {
            let t = table@.subrange(i as int, table@.len() as int);
            assert(t.drop_first() =~= table@.subrange(i + 1, table@.len() as int));
        }
        if crate::paths::str_equal(table[i].path.as_str(), path) {
            return (table[i].exists, table[i].changed);
        }
        i = i + 1;
    }
    (true, true)
}

/// The argument texts of a sequence of strings.
pub open spec fn string_views(s: Seq<String>) -> Seq<Seq<char>> {
    s.map_values(|x: String| x@)
}

/// The Clang arguments that load the module files of the dependencies `deps`.
pub open spec fn clang_deps_args(deps: Seq<Seq<char>>, out_dir: Seq<char>, clang_major_version: i32) -> Seq<Seq<char>> {
    Seq::new(deps.len(), |i: int| clang_module_file_arg(deps[i], out_dir, clang_major_version))
}

/// The arguments that build a module interface unit.
pub open spec fn interface_args(
    compiler: CppCompiler,
    out_dir: Seq<char>,
    interface: &ModuleInterfaceModel,
    clang_major_version: i32,
) -> Seq<Seq<char>> {
    let bmi = bmi_file_path(out_dir, compiler, prebuilt_miu_name(compiler, interface));
    match compiler {
        CppCompiler::CLANG => seq!["-x"@, "c++-module"@, "--precompile"@, "-fprebuilt-module-path="@ + clang_prebuilt_dir(out_dir)]
            + clang_deps_args(string_views(interface.dependencies@), out_dir, clang_major_version)
            + seq!["-o"@, bmi, tu_path(interface)],
        CppCompiler::MSVC => seq![
            "/ifcOutput"@,
            join(join(join(out_dir, compiler_name(compiler)), "modules"@), "interfaces"@),
            "/Fo"@ + bmi,
            match interface.partition {
                Some(p) => if p.is_internal_partition { "/internalPartition"@ } else { "/interface"@ },
                None => "/interface"@,
            },
            "/TP"@,
            tu_path(interface),
        ],
        CppCompiler::GCC => seq!["-x"@, "c++"@, "-o"@, bmi, tu_path(interface)],
    }
}

/// The command line that builds a module interface unit.
pub open spec fn interface_cmd(
    compiler: CppCompiler,
    out_dir: Seq<char>,
    interface: &ModuleInterfaceModel,
    clang_major_version: i32,
) -> SclView {
    SclView {
        directory: interface.path@,
        filename: tu_filename(interface.file_stem@, interface.extension@),
        args: interface_args(compiler, out_dir, interface, clang_major_version),
        status: TranslationUnitStatus::PendingToBuild,
        byproduct: bmi_file_path(out_dir, compiler, prebuilt_miu_name(compiler, interface)),
    }
}

/// Appends the arguments of `more` to `args`.
fn append_args(args: &mut Arguments, more: Arguments)
    ensures
        final(args)@ == old(args)@ + more@,
{
    let mut i: usize = 0;
    while i < more.len()
        invariant
            0 <= i <= more@.len(),
            args@ == old(args)@ + more@.subrange(0, i as int),
        decreases more@.len() - i,
    {
        args.push(more.get(i).duplicate());
        proof {
            assert(more@.subrange(0, i + 1) =~= more@.subrange(0, i as int).push(more@[i as int]));
        }
        i = i + 1;
    }
    proof {
        assert(more@.subrange(0, more@.len() as int) =~= more@);
    }
}

/// A new argument: `prefix` followed by `s`.
fn prefixed(prefix: &str, s: &str) -> (r: Argument)
    ensures
        r@ == prefix@ + s@,
{
    let mut v = String::from_str(prefix);
    v.append(s);
    Argument::new(v)
}

/// Generates the command line that builds the module interface unit `interface`.
pub fn generate_module_interface_cmd(
    compiler: CppCompiler,
    out_dir: &str,
    interface: &ModuleInterfaceModel,
    clang_major_version: i32,
) -> (r: SourceCommandLine)
    ensures
        r@ == interface_cmd(compiler, out_dir@, interface, clang_major_version),
{
    let mut arguments = Arguments::new();
    let binary_module_ifc = generate_prebuilt_miu(compiler, out_dir, interface);
    match compiler {
        CppCompiler::CLANG => {
            arguments.push_str("-x");
            arguments.push_str("c++-module");
            arguments.push_str("--precompile");
            arguments.push(Argument::new(add_prebuilt_module_path(out_dir)));
            let deps = add_direct_module_interfaces_dependencies(&interface.dependencies, out_dir, clang_major_version);
            append_args(&mut arguments, deps);
            arguments.push_str("-o");
            arguments.push_str(binary_module_ifc.as_str());
        },
        CppCompiler::MSVC => {
            arguments.push_str("/ifcOutput");
            let p = join_path(out_dir, compiler.as_str());
            let p = join_path(p.as_str(), "modules");
            let p = join_path(p.as_str(), "interfaces");
            arguments.push(Argument::new(p));
            arguments.push(prefixed("/Fo", binary_module_ifc.as_str()));
            match &interface.partition {
                Some(partition) => {
                    if partition.is_internal_partition {
                        arguments.push_str("/internalPartition");
                    } else {
                        arguments.push_str("/interface");
                    }
                },
                None => arguments.push_str("/interface"),
            }
            arguments.push_str("/TP");
        },
        CppCompiler::GCC => {
            arguments.push_str("-x");
            arguments.push_str("c++");
            arguments.push_str("-o");
            arguments.push_str(binary_module_ifc.as_str());
        },
    }
    arguments.push(Argument::new(interface.path()));
    proof {
        reveal_strlit("-");
        assert(arguments@ =~= interface_args(compiler, out_dir@, interface, clang_major_version));
    }
    SourceCommandLine::new(interface, arguments, Argument::new(binary_module_ifc))
}

/// The arguments that build a module implementation unit.
pub open spec fn implementation_args(
    compiler: CppCompiler,
    out_dir: Seq<char>,
    implementation: &ModuleImplementationModel,
    clang_major_version: i32,
) -> Seq<Seq<char>> {
    let obj = obj_file_path(out_dir, compiler, implementation.file_stem@);
    match compiler {
        CppCompiler::CLANG => seq![tu_path(implementation), "-o"@, obj, "-fprebuilt-module-path="@ + clang_prebuilt_dir(out_dir)]
            + clang_deps_args(string_views(implementation.dependencies@), out_dir, clang_major_version),
        CppCompiler::MSVC => seq![tu_path(implementation), "/Fo"@ + obj],
        CppCompiler::GCC => seq![tu_path(implementation), "-o"@, obj],
    }
}

/// The command line that builds a module implementation unit.
pub open spec fn implementation_cmd(
    compiler: CppCompiler,
    out_dir: Seq<char>,
    implementation: &ModuleImplementationModel,
    clang_major_version: i32,
) -> SclView {
    SclView {
        directory: implementation.path@,
        filename: tu_filename(implementation.file_stem@, implementation.extension@),
        args: implementation_args(compiler, out_dir, implementation, clang_major_version),
        status: TranslationUnitStatus::PendingToBuild,
        byproduct: obj_file_path(out_dir, compiler, implementation.file_stem@),
    }
}

/// Generates the command line that builds the module implementation unit
/// `implementation`.
pub fn generate_module_implementation_cmd(
    compiler: CppCompiler,
    out_dir: &str,
    implementation: &ModuleImplementationModel,
    clang_major_version: i32,
) -> (r: SourceCommandLine)
    ensures
        r@ == implementation_cmd(compiler, out_dir@, implementation, clang_major_version),
{
    let mut arguments = Arguments::new();
    arguments.push(Argument::new(implementation.path()));
    let obj_file_path = generate_obj_file(compiler, out_dir, implementation);
    match compiler {
        CppCompiler::CLANG => {
            arguments.push_str("-o");
            arguments.push_str(obj_file_path.as_str());
            arguments.push(Argument::new(add_prebuilt_module_path(out_dir)));
            let deps = add_direct_module_interfaces_dependencies(&implementation.dependencies, out_dir, clang_major_version);
            append_args(&mut arguments, deps);
        },
        CppCompiler::MSVC => {
            arguments.push(prefixed("/Fo", obj_file_path.as_str()));
        },
        CppCompiler::GCC => {
            arguments.push_str("-o");
            arguments.push_str(obj_file_path.as_str());
        },
    }
    proof {
        assert(arguments@ =~= implementation_args(compiler, out_dir@, implementation, clang_major_version));
    }
    SourceCommandLine::new(implementation, arguments, Argument::new(obj_file_path))
}

/// The arguments that build a system header as a module.
pub open spec fn system_module_args(compiler: CppCompiler, out_dir: Seq<char>, sys_module: &SystemModule) -> Seq<Seq<char>> {
    let bmi = bmi_file_path(out_dir, compiler, sys_module.file_stem@);
    seq!["-x"@, "c++-system-header"@, sys_module.file_stem@] + match compiler {
        CppCompiler::CLANG => seq!["-o"@, bmi],
        CppCompiler::GCC => seq!["-fmodules-ts"@],
        CppCompiler::MSVC => Seq::empty(),
    }
}

/// The command line that builds a system header as a module (GCC places the product in
/// its own module cache). It is kept under the directory and the file name of the
/// header, by which it is found again.
pub open spec fn system_module_cmd(compiler: CppCompiler, out_dir: Seq<char>, sys_module: &SystemModule) -> SclView {
    SclView {
        directory: sys_module.path@,
        filename: tu_filename(sys_module.file_stem@, sys_module.extension@),
        args: system_module_args(compiler, out_dir, sys_module),
        status: TranslationUnitStatus::PendingToBuild,
        byproduct: bmi_file_path(out_dir, compiler, sys_module.file_stem@),
    }
}

/// Generates the command line that builds the system header `sys_module` as a module.
pub fn generate_sys_module_cmd(compiler: CppCompiler, out_dir: &str, sys_module: &SystemModule) -> (r: SourceCommandLine)
    ensures
        r@ == system_module_cmd(compiler, out_dir@, sys_module),
{
    let sys_module_name = sys_module.file_stem.as_str();
    let generated_bmi_path = generate_bmi_file_path(out_dir, compiler, sys_module_name);
    let mut args = Arguments::new();
    args.push_str("-x");
    args.push_str("c++-system-header");
    args.push_str(sys_module_name);
    match compiler {
        CppCompiler::CLANG => {
            args.push_str("-o");
            args.push_str(generated_bmi_path.as_str());
        },
        CppCompiler::GCC => {
            args.push_str("-fmodules-ts");
        },
        CppCompiler::MSVC => {},
    }
    proof {
        assert(args@ =~= system_module_args(compiler, out_dir@, sys_module));
    }
    SourceCommandLine::new(sys_module, args, Argument::new(generated_bmi_path))
}

/// The arguments that build a plain source file.
pub open spec fn source_args(compiler: CppCompiler, out_dir: Seq<char>, source: &SourceFile) -> Seq<Seq<char>> {
    let obj = obj_file_path(out_dir, compiler, source.file_stem@);
    let fo = if compiler == CppCompiler::MSVC { "/Fo"@ } else { "-o"@ };
    (if compiler == CppCompiler::CLANG {
        seq!["-fprebuilt-module-path="@ + clang_prebuilt_dir(out_dir)]
    } else {
        Seq::empty()
    }) + seq![fo + obj, tu_path(source)]
}

/// The command line that builds a plain source file.
pub open spec fn source_cmd(compiler: CppCompiler, out_dir: Seq<char>, source: &SourceFile) -> SclView {
    SclView {
        directory: source.path@,
        filename: tu_filename(source.file_stem@, source.extension@),
        args: source_args(compiler, out_dir, source),
        status: TranslationUnitStatus::PendingToBuild,
        byproduct: obj_file_path(out_dir, compiler, source.file_stem@),
    }
}

/// Generates the command line that builds the plain source file `source`.
pub fn generate_sources_arguments(compiler: CppCompiler, out_dir: &str, source: &SourceFile) -> (r: SourceCommandLine)
    ensures
        r@ == source_cmd(compiler, out_dir@, source),
{
    let mut arguments = Arguments::new();
    if compiler == CppCompiler::CLANG {
        arguments.push(Argument::new(add_prebuilt_module_path(out_dir)));
    }
    let obj_file = generate_obj_file(compiler, out_dir, source);
    let fo = if compiler == CppCompiler::MSVC { "/Fo" } else { "-o" };
    arguments.push(prefixed(fo, obj_file.as_str()));
    arguments.push(Argument::new(source.path()));
    proof {
        assert(arguments@ =~= source_args(compiler, out_dir@, source));
    }
    SourceCommandLine::new(source, arguments, Argument::new(obj_file))
}

/// The extension of executables on the platform.
pub open spec fn binary_extension(on_windows: bool) -> Seq<char> {
    if on_windows { "exe"@ } else { Seq::empty() }
}

/// The path of the final product of the target `name`.
pub open spec fn target_output_path(out_dir: Seq<char>, compiler: CppCompiler, name: Seq<char>, on_windows: bool) -> Seq<char> {
    with_extension(join(join(out_dir, compiler_name(compiler)), name), binary_extension(on_windows))
}

/// The target argument of the linker for the product at `output`: MSVC takes it after `/Fe`.
pub open spec fn linker_target_arg(compiler: CppCompiler, output: Seq<char>) -> Seq<char> {
    if compiler == CppCompiler::MSVC { "/Fe"@ + output } else { output }
}

/// Generates the path of the final product of the target `name`.
pub fn generate_target_output(out_dir: &str, compiler: CppCompiler, name: &str, on_windows: bool) -> (r: String)
    ensures
        r@ == target_output_path(out_dir@, compiler, name@, on_windows),
{
    let p = join_path(out_dir, compiler.as_str());
    let p = join_path(p.as_str(), name);
    let ext = if on_windows { "exe" } else { "" };
    proof {
        reveal_strlit("");
    }
    set_extension(p.as_str(), ext)
}

/// What the generation of a command line depends on besides the translation unit.
#[derive(Debug, Clone, PartialEq, Eq)]
pub struct BuildContext {
    pub compiler: CppCompiler,
    pub out_dir: String,
    pub clang_major_version: i32,
    pub on_windows: bool,
}

/// A kind of translation unit that the build generates command lines for.
pub trait BuildableUnit: TranslationUnit {
    /// Whether the cached command line with `directory` and `filename` is the one of
    /// this unit.
    spec fn spec_matches(&self, directory: Seq<char>, filename: Seq<char>) -> bool;

    /// The command line that builds the unit.
    spec fn spec_cmd(&self, ctx: BuildContext) -> SclView;

    /// The command line generated for the unit is found again by `matches`.
    proof fn lemma_finds_own(&self, ctx: BuildContext)
        ensures
            self.spec_matches(self.spec_cmd(ctx).directory, self.spec_cmd(ctx).filename),
    ;

    fn matches(&self, cmd: &SourceCommandLine) -> (r: bool)
        ensures
            r == self.spec_matches(cmd.directory@, cmd.filename@),
    ;

    fn build_cmd(&self, ctx: &BuildContext) -> (r: SourceCommandLine)
        ensures
            r@ == self.spec_cmd(*ctx),
    ;
}

impl BuildableUnit for ModuleInterfaceModel {
    open spec fn spec_matches(&self, directory: Seq<char>, filename: Seq<char>) -> bool {
        join(directory, filename) == tu_path(self)
    }

    open spec fn spec_cmd(&self, ctx: BuildContext) -> SclView {
        interface_cmd(ctx.compiler, ctx.out_dir@, self, ctx.clang_major_version)
    }

    proof fn lemma_finds_own(&self, ctx: BuildContext) {
    }

    fn matches(&self, cmd: &SourceCommandLine) -> (r: bool) {
        crate::paths::str_equal(cmd.path().as_str(), self.path().as_str())
    }

    fn build_cmd(&self, ctx: &BuildContext) -> (r: SourceCommandLine) {
        generate_module_interface_cmd(ctx.compiler, ctx.out_dir.as_str(), self, ctx.clang_major_version)
    }
}

impl BuildableUnit for ModuleImplementationModel {
    open spec fn spec_matches(&self, directory: Seq<char>, filename: Seq<char>) -> bool {
        join(directory, filename) == tu_path(self)
    }

    open spec fn spec_cmd(&self, ctx: BuildContext) -> SclView {
        implementation_cmd(ctx.compiler, ctx.out_dir@, self, ctx.clang_major_version)
    }

    proof fn lemma_finds_own(&self, ctx: BuildContext) {
    }

    fn matches(&self, cmd: &SourceCommandLine) -> (r: bool) {
        crate::paths::str_equal(cmd.path().as_str(), self.path().as_str())
    }

    fn build_cmd(&self, ctx: &BuildContext) -> (r: SourceCommandLine) {
        generate_module_implementation_cmd(ctx.compiler, ctx.out_dir.as_str(), self, ctx.clang_major_version)
    }
}

impl BuildableUnit for SourceFile {
    open spec fn spec_matches(&self, directory: Seq<char>, filename: Seq<char>) -> bool {
        join(directory, filename) == tu_path(self)
    }

    open spec fn spec_cmd(&self, ctx: BuildContext) -> SclView {
        source_cmd(ctx.compiler, ctx.out_dir@, self)
    }

    proof fn lemma_finds_own(&self, ctx: BuildContext) {
    }

    fn matches(&self, cmd: &SourceCommandLine) -> (r: bool) {
        crate::paths::str_equal(cmd.path().as_str(), self.path().as_str())
    }

    fn build_cmd(&self, ctx: &BuildContext) -> (r: SourceCommandLine) {
        generate_sources_arguments(ctx.compiler, ctx.out_dir.as_str(), self)
    }
}

impl BuildableUnit for SystemModule {
    /// A system header is looked up by its file name among the file names of the cached
    /// command lines.
    open spec fn spec_matches(&self, directory: Seq<char>, filename: Seq<char>) -> bool {
        filename == tu_filename(self.file_stem@, self.extension@)
    }

    open spec fn spec_cmd(&self, ctx: BuildContext) -> SclView {
        system_module_cmd(ctx.compiler, ctx.out_dir@, self)
    }

    proof fn lemma_finds_own(&self, ctx: BuildContext) {
    }

    fn matches(&self, cmd: &SourceCommandLine) -> (r: bool) {
        let name = self.filename();
        crate::paths::str_equal(cmd.filename.as_str(), name.as_str())
    }

    fn build_cmd(&self, ctx: &BuildContext) -> (r: SourceCommandLine) {
        generate_sys_module_cmd(ctx.compiler, ctx.out_dir.as_str(), self)
    }
}

/// Whether two command lines agree on everything but their status.
pub open spec fn same_but_status(a: SclView, b: SclView) -> bool {
    &&& a.directory == b.directory
    &&& a.filename == b.filename
    &&& a.args == b.args
    &&& a.byproduct == b.byproduct
}

/// The position of the first command line of `s` that is the one of `u`, or -1.
pub open spec fn first_match<T: BuildableUnit>(s: Seq<SclView>, u: &T) -> int
    decreases s.len(),
{
    if s.len() == 0 {
        -1
    } else {
        let r = first_match(s.drop_last(), u);
        if r >= 0 {
            r
        } else if u.spec_matches(s.last().directory, s.last().filename) {
            s.len() - 1
        } else {
            -1
        }
    }
}

pub proof fn lemma_first_match<T: BuildableUnit>(s: Seq<SclView>, u: &T)
    ensures
        -1 <= first_match(s, u) < s.len(),
        first_match(s, u) == -1 <==> forall|j: int| 0 <= j < s.len() ==> !u.spec_matches(#[trigger] s[j].directory, s[j].filename),
        first_match(s, u) >= 0 ==> u.spec_matches(s[first_match(s, u)].directory, s[first_match(s, u)].filename),
        forall|j: int| 0 <= j < first_match(s, u) ==> !u.spec_matches(#[trigger] s[j].directory, s[j].filename),
    decreases s.len(),
{
    if s.len() > 0 {
        let t = s.drop_last();
        lemma_first_match(t, u);
        assert forall|j: int| 0 <= j < t.len() implies #[trigger] t[j] == s[j] by {}
        if first_match(t, u) == -1 {
            assert forall|j: int| 0 <= j < t.len() implies !u.spec_matches(#[trigger] s[j].directory, s[j].filename) by {
                assert(t[j] == s[j]);
                assert(!u.spec_matches(t[j].directory, t[j].filename));
            }
        } else {
            assert forall|j: int| 0 <= j < first_match(s, u) implies !u.spec_matches(#[trigger] s[j].directory, s[j].filename) by {
                assert(t[j] == s[j]);
                assert(!u.spec_matches(t[j].directory, t[j].filename));
            }
        }
    }
}

/// The first match is decided by the directories and file names alone.
pub proof fn lemma_first_match_keys<T: BuildableUnit>(s: Seq<SclView>, t: Seq<SclView>, u: &T)
    requires
        s.len() == t.len(),
        forall|i: int| 0 <= i < s.len() ==> #[trigger] s[i].directory == t[i].directory && s[i].filename == t[i].filename,
    ensures
        first_match(s, u) == first_match(t, u),
    decreases s.len(),
{
    if s.len() > 0 {
        lemma_first_match_keys(s.drop_last(), t.drop_last(), u);
    }
}

/// Adding command lines at the end does not move a first match.
pub proof fn lemma_first_match_prefix<T: BuildableUnit>(s: Seq<SclView>, k: int, u: &T)
    requires
        0 <= k <= s.len(),
    ensures
        first_match(s.subrange(0, k), u) >= 0 ==> first_match(s, u) == first_match(s.subrange(0, k), u),
        first_match(s.subrange(0, k), u) == -1 && first_match(s, u) >= 0 ==> first_match(s, u) >= k,
    decreases s.len() - k,
{
    lemma_first_match(s, u);
    lemma_first_match(s.subrange(0, k), u);
    if k < s.len() {
        lemma_first_match_prefix(s, k + 1, u);
        let a = s.subrange(0, k + 1);
        assert(a.drop_last() =~= s.subrange(0, k));
    } else {
        assert(s.subrange(0, k) =~= s);
    }
}

/// Finds the first cached command line of `u`.
pub fn find_first<T: BuildableUnit>(cached: &Vec<SourceCommandLine>, u: &T) -> (r: Option<usize>)
    ensures
        match r {
            Some(i) => i < cached@.len() && i as int == first_match(scl_views(cached@), u),
            None => first_match(scl_views(cached@), u) == -1,
        },
{
    let ghost v = scl_views(cached@);
    proof {
        lemma_first_match(v, u);
    }
    let mut i: usize = 0;
    while i < cached.len()
        invariant
            0 <= i <= cached@.len(),
            v == scl_views(cached@),
            forall|j: int| 0 <= j < i ==> !u.spec_matches(#[trigger] v[j].directory, v[j].filename),
            -1 <= first_match(v, u) < v.len(),
            first_match(v, u) == -1 <==> forall|j: int| 0 <= j < v.len() ==> !u.spec_matches(#[trigger] v[j].directory, v[j].filename),
            first_match(v, u) >= 0 ==> u.spec_matches(v[first_match(v, u)].directory, v[first_match(v, u)].filename),
            forall|j: int| 0 <= j < first_match(v, u) ==> !u.spec_matches(#[trigger] v[j].directory, v[j].filename),
        decreases cached@.len() - i,
    {
        if u.matches(&cached[i]) {
            proof {
                let f = first_match(v, u);
                assert(u.spec_matches(v[i as int].directory, v[i as int].filename));
                if f == -1 {
                    assert(!u.spec_matches(v[i as int].directory, v[i as int].filename));
                }
                if f < i {
                    assert(!u.spec_matches(v[f].directory, v[f].filename));
                }
                if f > i {
                    assert(!u.spec_matches(v[i as int].directory, v[i as int].filename));
                }
            }
            return Some(i);
        }
        i = i + 1;
    }
    None
}

/// The status that a refresh gives to a cached command line, given the facts of the run.
pub open spec fn refreshed(ctx: BuildContext, files: Seq<FileState>, c: SclView) -> TranslationUnitStatus {
    refreshed_status(
        ctx.compiler,
        ctx.on_windows,
        facts_for(files, scl_path(c)).0,
        facts_for(files, scl_path(c)).1,
        c.status,
    )
}

/// Refreshing twice gives what refreshing once gives.
pub proof fn lemma_refresh_idempotent(ctx: BuildContext, files: Seq<FileState>, c: SclView)
    ensures
        refreshed(ctx, files, SclView { status: refreshed(ctx, files, c), ..c }) == refreshed(ctx, files, c),
{
}

/// Refreshes the status of the cached command line at position `i`.
fn refresh_status_at(cached: &mut Vec<SourceCommandLine>, i: usize, ctx: &BuildContext, files: &Vec<FileState>)
    requires
        i < old(cached)@.len(),
    ensures
        scl_views(final(cached)@) == scl_views(old(cached)@).update(
            i as int,
            SclView { status: refreshed(*ctx, files@, old(cached)@[i as int]@), ..old(cached)@[i as int]@ },
        ),
{
    let mut c = cached[i].duplicate();
    let p = c.path();
    let (exists, changed) = lookup_file_state(files, p.as_str());
    c.status = determine_translation_unit_status(ctx.compiler, ctx.on_windows, exists, changed, &c);
    let ghost before = cached@;
    cached.set(i, c);
    proof {
        assert(scl_views(cached@) =~= scl_views(before).update(
            i as int,
            SclView { status: refreshed(*ctx, files@, before[i as int]@), ..before[i as int]@ },
        ));
    }
}

/// What one unit does to the cached command lines `s`: it refreshes the status of the
/// first one that is its own or, when there is none, appends its own.
pub open spec fn generation_step<T: BuildableUnit>(s: Seq<SclView>, u: &T, ctx: BuildContext, files: Seq<FileState>) -> Seq<SclView> {
    let i = first_match(s, u);
    if i >= 0 {
        s.update(i, SclView { status: refreshed(ctx, files, s[i]), ..s[i] })
    } else {
        s.push(u.spec_cmd(ctx))
    }
}

/// The cached command lines `s` after the units `units`, taken one after the other.
pub open spec fn generation_of<T: BuildableUnit>(
    s: Seq<SclView>,
    units: Seq<T>,
    ctx: BuildContext,
    files: Seq<FileState>,
) -> Seq<SclView>
    decreases units.len(),
{
    if units.len() == 0 {
        s
    } else {
        generation_step(generation_of(s, units.drop_last(), ctx, files), &units.last(), ctx, files)
    }
}

/// What `process_kind_translation_units` guarantees about the cached command lines
/// `n`, which were `o` before, for the units `units[..k]`: they are what the units make
/// of them one after the other, which means that the former ones keep their place and
/// only change status, that every unit that finds its own command line has one, and
/// that a command line is appended only for a unit that had none.
pub open spec fn processed<T: BuildableUnit>(
    o: Seq<SclView>,
    n: Seq<SclView>,
    units: Seq<T>,
    k: int,
    ctx: BuildContext,
    files: Seq<FileState>,
) -> bool {
    &&& n == generation_of(o, units.take(k), ctx, files)
    &&& n.len() >= o.len()
    &&& forall|i: int|
        0 <= i < o.len() ==> same_but_status(#[trigger] n[i], o[i]) && n[i].status == if exists|kk: int|
            0 <= kk < k && first_match(o, &#[trigger] units[kk]) == i {
            refreshed(ctx, files, o[i])
        } else {
            o[i].status
        }
    &&& forall|kk: int| 0 <= kk < k ==> first_match(n, &#[trigger] units[kk]) >= 0
    &&& forall|j: int|
        o.len() <= j < n.len() ==> exists|kk: int|
            0 <= kk < k && first_match(o, &units[kk]) < 0 && same_but_status(#[trigger] n[j], (#[trigger] units[kk]).spec_cmd(ctx))
}

/// Generates the command lines of `units` that `cached` does not hold yet, appending
/// them, and refreshes the status of those it holds (see `refreshed`). Returns whether a
/// command line was appended.
pub fn process_kind_translation_units<T: BuildableUnit>(
    cached: &mut Vec<SourceCommandLine>,
    units: &Vec<T>,
    ctx: &BuildContext,
    files: &Vec<FileState>,
) -> (appended: bool)
    ensures
        processed(scl_views(old(cached)@), scl_views(final(cached)@), units@, units@.len() as int, *ctx, files@),
        appended == (final(cached)@.len() > old(cached)@.len()),
{
    let ghost o = scl_views(cached@);
    let mut appended = false;
    let mut k: usize = 0;
    proof {
        assert(units@.take(0).len() == 0);
    }
    while k < units.len()
        invariant
            0 <= k <= units@.len(),
            o.len() <= cached@.len(),
            processed(o, scl_views(cached@), units@, k as int, *ctx, files@),
            appended == (cached@.len() > o.len()),
        decreases units@.len() - k,
    {
        let u = &units[k];
        let ghost n = scl_views(cached@);
        proof {
            lemma_first_match(n, u);
            lemma_first_match(o, u);
            lemma_first_match_prefix(n, o.len() as int, u);
            lemma_first_match_keys(n.subrange(0, o.len() as int), o, u);
            assert forall|i: int| 0 <= i < o.len() implies #[trigger] n.subrange(0, o.len() as int)[i].directory == o[i].directory
                && n.subrange(0, o.len() as int)[i].filename == o[i].filename by {
                assert(same_but_status(n[i], o[i]));
            }
            lemma_first_match_keys(n.subrange(0, o.len() as int), o, u);
        }
        match find_first(cached, u) {
            Some(i) => {
                refresh_status_at(cached, i, ctx, files);
                proof {
                    let n2 = scl_views(cached@);
                    assert(units@.take(k + 1).drop_last() =~= units@.take(k as int));
                    assert(units@.take(k + 1).last() == *u);
                    assert(n2 =~= generation_step(n, u, *ctx, files@));
                    assert forall|kk: int| 0 <= kk < k + 1 implies first_match(n2, &#[trigger] units@[kk]) >= 0 by {
                        lemma_first_match_keys(n2, n, &units@[kk]);
                        assert forall|x: int| 0 <= x < n2.len() implies #[trigger] n2[x].directory == n[x].directory && n2[x].filename == n[x].filename by {}
                    }
                    assert forall|j: int| o.len() <= j < n2.len() implies exists|kk: int|
                        0 <= kk < k + 1 && first_match(o, &units@[kk]) < 0 && same_but_status(#[trigger] n2[j], (#[trigger] units@[kk]).spec_cmd(*ctx)) by {
                        let kk = choose|kk: int|
                            0 <= kk < k && first_match(o, &units@[kk]) < 0 && same_but_status(#[trigger] n[j], (#[trigger] units@[kk]).spec_cmd(*ctx));
                        assert(same_but_status(n2[j], units@[kk].spec_cmd(*ctx)));
                    }
                    assert forall|x: int| 0 <= x < o.len() implies same_but_status(#[trigger] n2[x], o[x]) && n2[x].status == if exists|kk: int|
                        0 <= kk < k + 1 && first_match(o, &#[trigger] units@[kk]) == x {
                        refreshed(*ctx, files@, o[x])
                    } else {
                        o[x].status
                    } by {
                        if x == i {
                            assert(first_match(o, u) == x);
                            assert(units@[k as int] == *u);
                            lemma_refresh_idempotent(*ctx, files@, o[x]);
                            assert(refreshed(*ctx, files@, n[x]) == refreshed(*ctx, files@, o[x]));
                        } else {
                            if exists|kk: int| 0 <= kk < k + 1 && first_match(o, &#[trigger] units@[kk]) == x {
                                let kk = choose|kk: int| 0 <= kk < k + 1 && first_match(o, &#[trigger] units@[kk]) == x;
                                if kk == k {
                                    assert(units@[kk] == *u);
                                }
                            }
                        }
                    }
                }
            },
            None => {
                let cmd = u.build_cmd(ctx);
                cached.push(cmd);
                appended = true;
                proof {
                    let n2 = scl_views(cached@);
                    assert(n2 =~= n.push(u.spec_cmd(*ctx)));
                    assert(units@.take(k + 1).drop_last() =~= units@.take(k as int));
                    assert(units@.take(k + 1).last() == *u);
                    u.lemma_finds_own(*ctx);
                    assert(n2.subrange(0, n.len() as int) =~= n);
                    assert forall|kk: int| 0 <= kk < k + 1 implies first_match(n2, &#[trigger] units@[kk]) >= 0 by {
                        lemma_first_match_prefix(n2, n.len() as int, &units@[kk]);
                        lemma_first_match(n2, &units@[kk]);
                        if kk == k {
                            assert(units@[kk] == *u);
                            assert(n2[n.len() as int] == u.spec_cmd(*ctx));
                        }
                    }
                    assert forall|j: int| o.len() <= j < n2.len() implies exists|kk: int|
                        0 <= kk < k + 1 && first_match(o, &units@[kk]) < 0 && same_but_status(#[trigger] n2[j], (#[trigger] units@[kk]).spec_cmd(*ctx)) by {
                        if j == n.len() {
                            assert(units@[k as int] == *u);
                            assert(first_match(o, u) < 0);
                            assert(same_but_status(n2[j], units@[k as int].spec_cmd(*ctx)));
                        } else {
                            let kk = choose|kk: int|
                                0 <= kk < k && first_match(o, &units@[kk]) < 0 && same_but_status(#[trigger] n[j], (#[trigger] units@[kk]).spec_cmd(*ctx));
                            assert(n2[j] == n[j]);
                            assert(same_but_status(n2[j], units@[kk].spec_cmd(*ctx)));
                        }
                    }
                    assert forall|x: int| 0 <= x < o.len() implies same_but_status(#[trigger] n2[x], o[x]) && n2[x].status == if exists|kk: int|
                        0 <= kk < k + 1 && first_match(o, &#[trigger] units@[kk]) == x {
                        refreshed(*ctx, files@, o[x])
                    } else {
                        o[x].status
                    } by {
                        assert(n2[x] == n[x]);
                        if exists|kk: int| 0 <= kk < k + 1 && first_match(o, &#[trigger] units@[kk]) == x {
                            let kk = choose|kk: int| 0 <= kk < k + 1 && first_match(o, &#[trigger] units@[kk]) == x;
                            if kk == k {
                                assert(units@[kk] == *u);
                            }
                        }
                    }
                }
            },
        }
        k = k + 1;
    }
    appended
}

/// Units that take the same cached command lines as theirs are found at the same
/// position.
pub proof fn lemma_first_match_alike<T: BuildableUnit>(s: Seq<SclView>, a: &T, b: &T)
    requires
        forall|d: Seq<char>, f: Seq<char>| #[trigger] a.spec_matches(d, f) == b.spec_matches(d, f),
    ensures
        first_match(s, a) == first_match(s, b),
    decreases s.len(),
{
    if s.len() > 0 {
        lemma_first_match_alike(s.drop_last(), a, b);
        assert(a.spec_matches(s.last().directory, s.last().filename) == b.spec_matches(s.last().directory, s.last().filename));
    }
}

/// A second generation for units that take the same command lines as those of the first
/// one appends nothing, since every unit finds its own command line again, whatever the
/// context and the facts about the files of the second run: it only refreshes statuses.
pub proof fn lemma_regeneration_of_alike_units<T: BuildableUnit>(
    o: Seq<SclView>,
    n: Seq<SclView>,
    n2: Seq<SclView>,
    units: Seq<T>,
    units2: Seq<T>,
    ctx: BuildContext,
    files: Seq<FileState>,
    ctx2: BuildContext,
    files2: Seq<FileState>,
)
    requires
        processed(o, n, units, units.len() as int, ctx, files),
        processed(n, n2, units2, units2.len() as int, ctx2, files2),
        units2.len() == units.len(),
        forall|kk: int, d: Seq<char>, f: Seq<char>|
            0 <= kk < units.len() ==> #[trigger] units2[kk].spec_matches(d, f) == units[kk].spec_matches(d, f),
    ensures
        n2.len() == n.len(),
        forall|i: int| 0 <= i < n.len() ==> same_but_status(#[trigger] n2[i], n[i]),
{
    if n2.len() > n.len() {
        let j = n.len() as int;
        let kk = choose|kk: int|
            0 <= kk < units2.len() && first_match(n, &units2[kk]) < 0 && same_but_status(#[trigger] n2[j], (#[trigger] units2[kk]).spec_cmd(ctx2));
        assert(first_match(n, &units[kk]) >= 0);
        assert forall|d: Seq<char>, f: Seq<char>| #[trigger] units2[kk].spec_matches(d, f) == units[kk].spec_matches(d, f) by {}
        lemma_first_match_alike(n, &units2[kk], &units[kk]);
    }
}

/// Generating the command lines of a group of translation units a second time appends
/// none, since each of the units finds its command line again: the second run only
/// refreshes statuses.
pub proof fn lemma_second_generation_appends_nothing<T: BuildableUnit>(
    o: Seq<SclView>,
    n: Seq<SclView>,
    n2: Seq<SclView>,
    units: Seq<T>,
    ctx: BuildContext,
    files: Seq<FileState>,
)
    requires
        processed(o, n, units, units.len() as int, ctx, files),
        processed(n, n2, units, units.len() as int, ctx, files),
    ensures
        n2.len() == n.len(),
        forall|i: int| 0 <= i < n.len() ==> same_but_status(#[trigger] n2[i], n[i]),
{
    lemma_regeneration_of_alike_units(o, n, n2, units, units, ctx, files, ctx, files);
}

/// A path joined with a non-empty part ends with that part.
pub proof fn lemma_join_ends_with(base: Seq<char>, part: Seq<char>)
    requires
        part.len() > 0,
    ensures
        join(base, part).len() >= part.len(),
        join(base, part).subrange(join(base, part).len() - part.len(), join(base, part).len() as int) == part,
{
    let j = join(base, part);
    assert(j.subrange(j.len() - part.len(), j.len() as int) =~= part);
}

/// With MSVC a module interface unit is built as an interface (`/interface`) unless it
/// declares an internal partition, which is built as one (`/internalPartition`); its
/// command line never holds both flags.
pub proof fn lemma_msvc_interface_unit_kind(out_dir: Seq<char>, interface: &ModuleInterfaceModel, clang_major_version: i32)
    ensures
        ({
            let args = interface_cmd(CppCompiler::MSVC, out_dir, interface, clang_major_version).args;
            let internal = interface.partition matches Some(p) && p.is_internal_partition;
            &&& args.contains("/internalPartition"@) == internal
            &&& args.contains("/interface"@) == !internal
        }),
{
    reveal_strlit("/internalPartition");
    reveal_strlit("/interface");
    reveal_strlit("/ifcOutput");
    reveal_strlit("/TP");
    reveal_strlit("/Fo");
    reveal_strlit("interfaces");
    reveal_strlit(".");
    let args = interface_cmd(CppCompiler::MSVC, out_dir, interface, clang_major_version).args;
    let ip = "/internalPartition"@;
    let it = "/interface"@;
    let internal = interface.partition matches Some(p) && p.is_internal_partition;
    // The directory of the interfaces ends with `interfaces`.
    let dir = join(join(join(out_dir, compiler_name(CppCompiler::MSVC)), "modules"@), "interfaces"@);
    lemma_join_ends_with(join(join(out_dir, compiler_name(CppCompiler::MSVC)), "modules"@), "interfaces"@);
    assert(dir.last() == 's') by {
        assert(dir.subrange(dir.len() - 10, dir.len() as int)[9] == dir.last());
    }
    assert(dir != ip && dir != it) by {
        assert(ip.last() == 'n');
        assert(it.last() == 'e');
    }
    // The object file argument starts with `/Fo`.
    let fo = "/Fo"@ + bmi_file_path(out_dir, CppCompiler::MSVC, prebuilt_miu_name(CppCompiler::MSVC, interface));
    assert(fo[1] == 'F');
    assert(fo != ip && fo != it) by {
        assert(ip[1] == 'i');
        assert(it[1] == 'i');
    }
    // The file of the unit has a dot in its name; the flags have none.
    let name = tu_filename(interface.file_stem@, interface.extension@);
    let file = tu_path(interface);
    lemma_join_ends_with(interface.path@, name);
    assert(name[interface.file_stem@.len() as int] == '.');
    assert(file[file.len() - name.len() + interface.file_stem@.len()] == '.') by {
        assert(file.subrange(file.len() - name.len(), file.len() as int)[interface.file_stem@.len() as int]
            == file[file.len() - name.len() + interface.file_stem@.len()]);
    }
    assert(forall|i: int| 0 <= i < ip.len() ==> ip[i] != '.');
    assert(forall|i: int| 0 <= i < it.len() ==> it[i] != '.');
    assert(file != ip && file != it);
    assert("/ifcOutput"@ != ip && "/ifcOutput"@ != it) by {
        assert("/ifcOutput"@[2] == 'f');
        assert(ip[2] == 'n');
    }
    assert("/TP"@ != ip && "/TP"@ != it) by {
        assert("/TP"@.len() == 3);
        assert(ip.len() == 18);
        assert(it.len() == 10);
    }
    assert(ip != it);
    let flag = args[3];
    assert(args.len() == 6);
    assert(args[0] == "/ifcOutput"@ && args[1] == dir && args[2] == fo && args[4] == "/TP"@ && args[5] == file);
    if internal {
        assert(flag == ip);
        assert(args.contains(ip));
        assert(!args.contains(it)) by {
            assert forall|i: int| 0 <= i < args.len() implies args[i] != it by {}
        }
    } else {
        assert(flag == it);
        assert(args.contains(it));
        assert(!args.contains(ip)) by {
            assert forall|i: int| 0 <= i < args.len() implies args[i] != ip by {}
        }
    }
}

/// The command line of a plain source file builds that file into its object file: the
/// object file goes in the `obj_files` directory of the compiler under the output
/// directory, named after the source with the compiler's object extension (`obj` for
/// MSVC, `o` otherwise); the file comes last and the object file is given after `/Fo`
/// with MSVC and after `-o` otherwise.
pub proof fn lemma_source_cmd_builds_its_file(compiler: CppCompiler, out_dir: Seq<char>, source: &SourceFile)
    ensures
        ({
            let c = source_cmd(compiler, out_dir, source);
            let ext = if compiler == CppCompiler::MSVC { "obj"@ } else { "o"@ };
            &&& scl_path(c) == tu_path(source)
            &&& c.byproduct == with_extension(
                join(join(join(out_dir, compiler_name(compiler)), "obj_files"@), source.file_stem@),
                ext,
            )
            &&& c.args.last() == tu_path(source)
            &&& c.args.contains((if compiler == CppCompiler::MSVC { "/Fo"@ } else { "-o"@ }) + c.byproduct)
        }),
{
    let c = source_cmd(compiler, out_dir, source);
    let fo = if compiler == CppCompiler::MSVC { "/Fo"@ } else { "-o"@ };
    assert(c.args[c.args.len() - 2] == fo + c.byproduct);
}

/// The command line of a module implementation unit builds that file into its object
/// file: the file comes first, and the object file (in the `obj_files` directory of the
/// compiler, with the compiler's object extension) follows `-o` with Clang and GCC and is
/// given after `/Fo` with MSVC.
pub proof fn lemma_implementation_cmd_builds_its_file(
    compiler: CppCompiler,
    out_dir: Seq<char>,
    implementation: &ModuleImplementationModel,
    clang_major_version: i32,
)
    ensures
        ({
            let c = implementation_cmd(compiler, out_dir, implementation, clang_major_version);
            let ext = if compiler == CppCompiler::MSVC { "obj"@ } else { "o"@ };
            &&& scl_path(c) == tu_path(implementation)
            &&& c.byproduct == with_extension(
                join(join(join(out_dir, compiler_name(compiler)), "obj_files"@), implementation.file_stem@),
                ext,
            )
            &&& c.args[0] == tu_path(implementation)
            &&& compiler == CppCompiler::MSVC ==> c.args[1] == "/Fo"@ + c.byproduct
            &&& compiler != CppCompiler::MSVC ==> c.args[1] == "-o"@ && c.args[2] == c.byproduct
        }),
{
}

/// A translation unit that a former run built (or took from the cache), and whose file
/// is still there and did not change, is taken from the cache again (Clang on Windows
/// aside, which always builds again).
pub proof fn lemma_unchanged_built_unit_is_cached(ctx: BuildContext, files: Seq<FileState>, c: SclView)
    requires
        c.status == TranslationUnitStatus::Success || c.status == TranslationUnitStatus::Cached,
        facts_for(files, scl_path(c)) == (true, false),
        !(ctx.compiler == CppCompiler::CLANG && ctx.on_windows),
    ensures
        refreshed(ctx, files, c) == TranslationUnitStatus::Cached,
{
}

} // verus!
