//! What the build runner decides: which command lines run in a run, the full argument
//! list of each, the status that the outcome of a command gives, whether the run goes on;
//! and the entries of the compilation database. Running the commands is left to the
//! caller, which hands back the outcome of each.

use vstd::prelude::*;

use crate::arguments::{Argument, Arguments};
use crate::cache::{all_commands, ZorkCache};
use crate::command_lines::{
    byproducts_of, handle_command_execution_result, opt_seq, scl_views, status_of_outcome,
    target_output_texts, LinkerCommandLine, LinkerView, ModulesCommands, ModulesCommandsView,
    SclView, SourceCommandLine, TranslationUnitStatus,
};
use crate::compiler_model::{default_driver, CppCompiler};
use crate::flyweight_data::FlyweightData;
use crate::project_model::{argument_texts, ZorkModel};
use crate::target::{Target, TargetView};

verus! {

/// A command line of the modules, by its place in [`ModulesCommands`].
#[derive(Debug, Clone, Copy, PartialEq, Eq, Structural)]
pub enum ModuleCommandRef {
    CppStdlib,
    CCompatStdlib,
    SystemModule(usize),
    Interface(usize),
    Implementation(usize),
}

/// The command line that `r` designates, when there is one.
pub open spec fn module_cmd(m: ModulesCommandsView, r: ModuleCommandRef) -> Option<SclView> {
    match r {
        ModuleCommandRef::CppStdlib => m.cpp_stdlib,
        ModuleCommandRef::CCompatStdlib => m.c_compat_stdlib,
        ModuleCommandRef::SystemModule(i) => if i < m.system_modules.len() {
            Some(m.system_modules[i as int])
        } else {
            None
        },
        ModuleCommandRef::Interface(i) => if i < m.interfaces.len() {
            Some(m.interfaces[i as int])
        } else {
            None
        },
        ModuleCommandRef::Implementation(i) => if i < m.implementations.len() {
            Some(m.implementations[i as int])
        } else {
            None
        },
    }
}

/// Whether a command line is to run in this run.
pub open spec fn is_pending(c: SclView) -> bool {
    c.status == TranslationUnitStatus::PendingToBuild
}

/// The positions of the command lines of `s` that are to run, in their order.
pub open spec fn pending_positions(s: Seq<SclView>) -> Seq<int>
    decreases s.len(),
{
    if s.len() == 0 {
        Seq::empty()
    } else {
        pending_positions(s.drop_last()) + if is_pending(s.last()) {
            seq![s.len() - 1]
        } else {
            Seq::empty()
        }
    }
}

/// The modular standard libraries that are to run: `std`, then `std.compat`.
pub open spec fn pending_std_refs(m: ModulesCommandsView) -> Seq<ModuleCommandRef> {
    (if m.cpp_stdlib is Some && is_pending(m.cpp_stdlib->0) {
        seq![ModuleCommandRef::CppStdlib]
    } else {
        Seq::empty()
    }) + if m.c_compat_stdlib is Some && is_pending(m.c_compat_stdlib->0) {
        seq![ModuleCommandRef::CCompatStdlib]
    } else {
        Seq::empty()
    }
}

/// The user's modules that are to run: the system headers, then the interfaces, then
/// the implementations, each group in its order.
pub open spec fn pending_user_refs(m: ModulesCommandsView) -> Seq<ModuleCommandRef> {
    pending_positions(m.system_modules).map_values(|i: int| ref_of(0, i))
        + pending_positions(m.interfaces).map_values(|i: int| ref_of(1, i))
        + pending_positions(m.implementations).map_values(|i: int| ref_of(2, i))
}

/// The positions of the command lines of `s` that are to run, in their order.
pub fn pending_commands(s: &Vec<SourceCommandLine>) -> (r: Vec<usize>)
    ensures
        r@.map_values(|i: usize| i as int) == pending_positions(scl_views(s@)),
{
    let ghost v = scl_views(s@);
    let mut r: Vec<usize> = Vec::new();
    let mut i: usize = 0;
    while i < s.len()
        invariant
            0 <= i <= s@.len(),
            v == scl_views(s@),
            r@.map_values(|x: usize| x as int) == pending_positions(v.take(i as int)),
        decreases s@.len() - i,
    {
        proof {
            assert(v.take(i + 1).drop_last() =~= v.take(i as int));
            assert(v.take(i + 1).last() == v[i as int]);
        }
        if s[i].status == TranslationUnitStatus::PendingToBuild {
            r.push(i);
            proof {
                assert(r@.map_values(|x: usize| x as int) =~= pending_positions(v.take(i as int)).push(i as int));
            }
        } else {
            proof {
                assert(pending_positions(v.take(i + 1)) =~= pending_positions(v.take(i as int)));
            }
        }
        i = i + 1;
    }
    proof {
        assert(v.take(s@.len() as int) =~= v);
    }
    r
}

/// The modular standard libraries whose command lines are to run in this run.
pub fn get_std_modules_commands(generated_commands: &ModulesCommands) -> (r: Vec<ModuleCommandRef>)
    ensures
        r@ == pending_std_refs(generated_commands@),
{
    let mut r: Vec<ModuleCommandRef> = Vec::new();
    if let Some(c) = &generated_commands.cpp_stdlib {
        if c.status == TranslationUnitStatus::PendingToBuild {
            r.push(ModuleCommandRef::CppStdlib);
        }
    }
    if let Some(c) = &generated_commands.c_compat_stdlib {
        if c.status == TranslationUnitStatus::PendingToBuild {
            r.push(ModuleCommandRef::CCompatStdlib);
        }
    }
    proof {
        assert(r@ =~= pending_std_refs(generated_commands@));
    }
    r
}

/// The reference of kind `kind` (system headers, interfaces, implementations) to the
/// command line at position `i`.
pub open spec fn ref_of(kind: u8, i: int) -> ModuleCommandRef {
    if kind == 0 {
        ModuleCommandRef::SystemModule(i as usize)
    } else if kind == 1 {
        ModuleCommandRef::Interface(i as usize)
    } else {
        ModuleCommandRef::Implementation(i as usize)
    }
}

fn push_refs(r: &mut Vec<ModuleCommandRef>, positions: &Vec<usize>, kind: u8)
    ensures
        final(r)@ == old(r)@ + positions@.map_values(|i: usize| i as int).map_values(|i: int| ref_of(kind, i)),
{
    let mut k: usize = 0;
    while k < positions.len()
        invariant
            0 <= k <= positions@.len(),
            r@ == old(r)@ + positions@.take(k as int).map_values(|i: usize| i as int).map_values(|i: int| ref_of(kind, i)),
        decreases positions@.len() - k,
    {
        let p = positions[k];
        let item = if kind == 0 {
            ModuleCommandRef::SystemModule(p)
        } else if kind == 1 {
            ModuleCommandRef::Interface(p)
        } else {
            ModuleCommandRef::Implementation(p)
        };
        let ghost before = r@;
        r.push(item);
        proof {
            assert((p as int) as usize == p);
            assert(item == ref_of(kind, p as int));
            assert(positions@.take(k + 1).map_values(|i: usize| i as int).map_values(|i: int| ref_of(kind, i)) =~= positions@.take(
                k as int,
            ).map_values(|i: usize| i as int).map_values(|i: int| ref_of(kind, i)).push(ref_of(kind, p as int)));
        }
        k = k + 1;
    }
    proof {
        assert(positions@.take(positions@.len() as int) =~= positions@);
    }
}

/// The user's modules (and the system headers) whose command lines are to run in this
/// run: the system headers, then the interfaces, then the implementations.
pub fn get_user_modules_translation_units_commands(generated_commands: &ModulesCommands) -> (r: Vec<ModuleCommandRef>)
    ensures
        r@ == pending_user_refs(generated_commands@),
{
    let mut r: Vec<ModuleCommandRef> = Vec::new();
    let sys = pending_commands(&generated_commands.system_modules);
    push_refs(&mut r, &sys, 0);
    let ifcs = pending_commands(&generated_commands.interfaces);
    push_refs(&mut r, &ifcs, 1);
    let impls = pending_commands(&generated_commands.implementations);
    push_refs(&mut r, &impls, 2);
    proof {
        assert(r@ =~= pending_user_refs(generated_commands@));
    }
    r
}

/// Appends copies of the arguments of `more` to `args`.
fn append_all(args: &mut Arguments, more: &Arguments)
    ensures
        final(args)@ == old(args)@ + more@,
{
    args.extend_from_slice(more.as_slice());
}

/// The full arguments of the command line of a modular standard library.
pub open spec fn std_module_cmd_args(fw: &FlyweightData, c: SclView) -> Seq<Seq<char>> {
    fw.general_args@ + fw.shared_args@ + seq![fw.compile_but_dont_link@] + c.args
}

/// The full arguments of the command line of a modular standard library: the shared
/// ones, the flag that builds without linking and its own.
pub fn std_module_args(flyweight_data: &FlyweightData, scl: &SourceCommandLine) -> (r: Arguments)
    ensures
        r@ == std_module_cmd_args(flyweight_data, scl@),
{
    let mut args = Arguments::new();
    append_all(&mut args, &flyweight_data.general_args);
    append_all(&mut args, &flyweight_data.shared_args);
    args.push(flyweight_data.compile_but_dont_link.duplicate());
    append_all(&mut args, &scl.args);
    proof {
        assert(args@ =~= std_module_cmd_args(flyweight_data, scl@));
    }
    args
}

/// The full arguments of the command line of a user's module or a system header.
pub open spec fn user_module_cmd_args(fw: &FlyweightData, c: SclView) -> Seq<Seq<char>> {
    fw.general_args@ + fw.shared_args@ + fw.std_references@ + seq![fw.compile_but_dont_link@] + c.args
}

/// The full arguments of the command line of a user's module or a system header: the
/// shared ones, the references to the modular standard libraries, the flag that builds
/// without linking and its own.
pub fn user_module_args(flyweight_data: &FlyweightData, scl: &SourceCommandLine) -> (r: Arguments)
    ensures
        r@ == user_module_cmd_args(flyweight_data, scl@),
{
    let mut args = Arguments::new();
    append_all(&mut args, &flyweight_data.general_args);
    append_all(&mut args, &flyweight_data.shared_args);
    append_all(&mut args, &flyweight_data.std_references);
    args.push(flyweight_data.compile_but_dont_link.duplicate());
    append_all(&mut args, &scl.args);
    proof {
        assert(args@ =~= user_module_cmd_args(flyweight_data, scl@));
    }
    args
}

/// The arguments that every source file of a target takes.
pub open spec fn target_shared_cmd_args(fw: &FlyweightData, extra: Seq<Seq<char>>) -> Seq<Seq<char>> {
    fw.general_args@ + fw.shared_args@ + fw.std_references@ + seq![fw.compile_but_dont_link@] + extra
}

/// The arguments that every source file of a target takes: the shared ones, the
/// references to the modular standard libraries, the flag that builds without linking and
/// the extra arguments that the user declares for the target.
pub fn target_shared_args(flyweight_data: &FlyweightData, extra_args: &Vec<Argument>) -> (r: Arguments)
    ensures
        r@ == target_shared_cmd_args(flyweight_data, argument_texts(extra_args@)),
{
    let mut args = Arguments::new();
    append_all(&mut args, &flyweight_data.general_args);
    append_all(&mut args, &flyweight_data.shared_args);
    append_all(&mut args, &flyweight_data.std_references);
    args.push(flyweight_data.compile_but_dont_link.duplicate());
    args.extend_from_slice(extra_args.as_slice());
    proof {
        assert(args@ =~= target_shared_cmd_args(flyweight_data, argument_texts(extra_args@)));
    }
    args
}

/// The full arguments of the command line of a source file of a target.
pub fn source_command_args(target_shared: &Arguments, scl: &SourceCommandLine) -> (r: Arguments)
    ensures
        r@ == target_shared@ + scl@.args,
{
    let mut args = target_shared.duplicate();
    append_all(&mut args, &scl.args);
    args
}

/// The build products that the linker of a target takes: those of the modular standard
/// libraries, of the user's modules (and, with Clang, of the system headers), then those
/// of the sources of the target.
pub open spec fn linker_byproducts(compiler: CppCompiler, m: ModulesCommandsView, t: TargetView) -> Seq<Seq<char>> {
    byproducts_of(
        opt_seq(m.cpp_stdlib) + opt_seq(m.c_compat_stdlib) + m.interfaces + m.implementations + if compiler
            == CppCompiler::CLANG {
            m.system_modules
        } else {
            Seq::empty()
        },
    ) + byproducts_of(t.sources)
}

/// The full arguments of the linker command line of a target.
pub open spec fn linker_cmd_args(compiler: CppCompiler, fw: &FlyweightData, m: ModulesCommandsView, t: TargetView) -> Seq<Seq<char>> {
    fw.general_args@ + fw.shared_args@ + fw.std_references@ + t.linker.args + t.linker.extra_args
        + target_output_texts(compiler, t.linker.target) + linker_byproducts(compiler, m, t)
}

/// Appends the build products of `s` to `args`.
fn append_byproducts(args: &mut Arguments, s: &Vec<SourceCommandLine>)
    ensures
        final(args)@ == old(args)@ + byproducts_of(scl_views(s@)),
{
    let mut i: usize = 0;
    while i < s.len()
        invariant
            0 <= i <= s@.len(),
            args@ == old(args)@ + byproducts_of(scl_views(s@.take(i as int))),
        decreases s@.len() - i,
    {
        args.push(s[i].byproduct.duplicate());
        proof {
            assert(byproducts_of(scl_views(s@.take(i + 1))) =~= byproducts_of(scl_views(s@.take(i as int))).push(s@[i as int].byproduct@));
        }
        i = i + 1;
    }
    proof {
        assert(s@.take(s@.len() as int) =~= s@);
    }
}

/// The full arguments of the linker command line of a target: the shared arguments, the
/// linker's own and the extra ones of the user, the product, then every build product to
/// link (see `linker_byproducts`).
pub fn linker_args(
    compiler: CppCompiler,
    flyweight_data: &FlyweightData,
    modules: &ModulesCommands,
    target: &Target,
) -> (r: Arguments)
    ensures
        r@ == linker_cmd_args(compiler, flyweight_data, modules@, target@),
{
    let mut args = Arguments::new();
    append_all(&mut args, &flyweight_data.general_args);
    append_all(&mut args, &flyweight_data.shared_args);
    append_all(&mut args, &flyweight_data.std_references);
    append_all(&mut args, &target.linker.args);
    append_all(&mut args, &target.linker.extra_args);
    let output = target.linker.get_target_output_for(compiler);
    args.extend(output);
    let ghost before = args@;
    if let Some(c) = &modules.cpp_stdlib {
        args.push(c.byproduct.duplicate());
    }
    if let Some(c) = &modules.c_compat_stdlib {
        args.push(c.byproduct.duplicate());
    }
    append_byproducts(&mut args, &modules.interfaces);
    append_byproducts(&mut args, &modules.implementations);
    if compiler == CppCompiler::CLANG {
        append_byproducts(&mut args, &modules.system_modules);
    }
    append_byproducts(&mut args, &target.sources);
    proof {
        let m = modules@;
        let mods = opt_seq(m.cpp_stdlib) + opt_seq(m.c_compat_stdlib) + m.interfaces + m.implementations + if compiler
            == CppCompiler::CLANG {
            m.system_modules
        } else {
            Seq::empty()
        };
        assert(byproducts_of(mods) =~= byproducts_of(opt_seq(m.cpp_stdlib)) + byproducts_of(opt_seq(m.c_compat_stdlib))
            + byproducts_of(m.interfaces) + byproducts_of(m.implementations) + byproducts_of(
            if compiler == CppCompiler::CLANG {
                m.system_modules
            } else {
                Seq::empty()
            },
        ));
        assert(args@ =~= linker_cmd_args(compiler, flyweight_data, modules@, target@));
    }
    args
}

/// The command lines of the modules where the one that `r` designates took `status`.
pub open spec fn with_module_status(m: ModulesCommandsView, r: ModuleCommandRef, status: TranslationUnitStatus) -> ModulesCommandsView {
    match r {
        ModuleCommandRef::CppStdlib => ModulesCommandsView {
            cpp_stdlib: Some(SclView { status, ..m.cpp_stdlib->0 }),
            ..m
        },
        ModuleCommandRef::CCompatStdlib => ModulesCommandsView {
            c_compat_stdlib: Some(SclView { status, ..m.c_compat_stdlib->0 }),
            ..m
        },
        ModuleCommandRef::SystemModule(i) => ModulesCommandsView {
            system_modules: m.system_modules.update(i as int, SclView { status, ..m.system_modules[i as int] }),
            ..m
        },
        ModuleCommandRef::Interface(i) => ModulesCommandsView {
            interfaces: m.interfaces.update(i as int, SclView { status, ..m.interfaces[i as int] }),
            ..m
        },
        ModuleCommandRef::Implementation(i) => ModulesCommandsView {
            implementations: m.implementations.update(i as int, SclView { status, ..m.implementations[i as int] }),
            ..m
        },
    }
}

/// Sets the status of the command line at position `i` of `s`.
fn set_status_at(s: &mut Vec<SourceCommandLine>, i: usize, status: TranslationUnitStatus)
    requires
        i < old(s)@.len(),
    ensures
        scl_views(final(s)@) == scl_views(old(s)@).update(i as int, SclView { status, ..scl_views(old(s)@)[i as int] }),
{
    let mut c = s[i].duplicate();
    c.status = status;
    s.set(i, c);
    proof {
        assert(scl_views(s@) =~= scl_views(old(s)@).update(i as int, SclView { status, ..scl_views(old(s)@)[i as int] }));
    }
}

/// Records the outcome of running the command line of the module that `r` designates
/// (`None` when it could not be run, otherwise whether it succeeded). Returns whether the
/// run goes on: only after a success.
pub fn record_module_outcome(generated_commands: &mut ModulesCommands, r: ModuleCommandRef, outcome: Option<bool>) -> (go_on: bool)
    requires
        module_cmd(old(generated_commands)@, r) is Some,
    ensures
        final(generated_commands)@ == with_module_status(old(generated_commands)@, r, status_of_outcome(outcome)),
        go_on == (outcome == Some(true)),
{
    let status = handle_command_execution_result(outcome);
    match r {
        ModuleCommandRef::CppStdlib => {
            if let Some(c) = &mut generated_commands.cpp_stdlib {
                c.status = status;
            }
        },
        ModuleCommandRef::CCompatStdlib => {
            if let Some(c) = &mut generated_commands.c_compat_stdlib {
                c.status = status;
            }
        },
        ModuleCommandRef::SystemModule(i) => set_status_at(&mut generated_commands.system_modules, i, status),
        ModuleCommandRef::Interface(i) => set_status_at(&mut generated_commands.interfaces, i, status),
        ModuleCommandRef::Implementation(i) => set_status_at(&mut generated_commands.implementations, i, status),
    }
    proof {
        assert(generated_commands@ =~= with_module_status(old(generated_commands)@, r, status_of_outcome(outcome)));
    }
    match outcome {
        Some(success) => success,
        None => false,
    }
}

/// Records the outcome of running the command line of the source at position `i` of a
/// target. Returns whether the run goes on: only after a success.
pub fn record_source_outcome(target: &mut Target, i: usize, outcome: Option<bool>) -> (go_on: bool)
    requires
        i < old(target)@.sources.len(),
    ensures
        final(target)@ == (TargetView {
            sources: old(target)@.sources.update(
                i as int,
                SclView { status: status_of_outcome(outcome), ..old(target)@.sources[i as int] },
            ),
            ..old(target)@
        }),
        go_on == (outcome == Some(true)),
{
    let status = handle_command_execution_result(outcome);
    set_status_at(&mut target.sources, i, status);
    match outcome {
        Some(success) => success,
        None => false,
    }
}

/// Records the outcome of running the linker command line of a target. Returns whether
/// the run goes on: only after a success.
pub fn record_linker_outcome(linker: &mut LinkerCommandLine, outcome: Option<bool>) -> (go_on: bool)
    ensures
        final(linker)@ == (LinkerView { execution_result: status_of_outcome(outcome), ..old(linker)@ }),
        go_on == (outcome == Some(true)),
{
    linker.execution_result = handle_command_execution_result(outcome);
    match outcome {
        Some(success) => success,
        None => false,
    }
}

/// An entry of the compilation database: a translation unit and the full command line
/// that builds it.
#[derive(Debug, Clone, PartialEq, Eq)]
pub struct CompileCommand {
    pub directory: String,
    pub file: String,
    pub arguments: Vec<String>,
}

/// The model of a [`CompileCommand`].
pub struct CompileCommandView {
    pub directory: Seq<char>,
    pub file: Seq<char>,
    pub arguments: Seq<Seq<char>>,
}

impl View for CompileCommand {
    type V = CompileCommandView;

    open spec fn view(&self) -> CompileCommandView {
        CompileCommandView {
            directory: self.directory@,
            file: self.file@,
            arguments: self.arguments@.map_values(|a: String| a@),
        }
    }
}

/// Why the compilation database could not be made.
#[derive(Debug, Clone, Copy, PartialEq, Eq, Structural)]
pub enum CompilationDatabaseError {
    /// The cache holds no shared arguments yet.
    FlyweightDataNotFound,
}

/// The driver that a project invokes.
pub open spec fn driver_of(model: &ZorkModel) -> Seq<char> {
    if model.compiler.driver_path@.len() > 0 {
        model.compiler.driver_path@
    } else {
        default_driver(model.compiler.cpp_compiler)
    }
}

/// The entry of the compilation database for the command line `c`.
pub open spec fn compile_command_of(driver: Seq<char>, fw: &FlyweightData, c: SclView) -> CompileCommandView {
    CompileCommandView {
        directory: c.directory,
        file: c.filename,
        arguments: seq![driver] + fw.general_args@ + fw.shared_args@ + fw.std_references@ + seq![
            fw.compile_but_dont_link@,
        ] + c.args,
    }
}

/// The texts of a collection of arguments, as strings.
fn argument_strings(args: &Arguments) -> (r: Vec<String>)
    ensures
        r@.map_values(|a: String| a@) == args@,
{
    let slice = args.as_slice();
    let mut r: Vec<String> = Vec::new();
    let mut i: usize = 0;
    while i < slice.len()
        invariant
            0 <= i <= slice@.len(),
            crate::arguments::texts(slice@) == args@,
            r@.map_values(|a: String| a@) == crate::arguments::texts(slice@).take(i as int),
        decreases slice@.len() - i,
    {
        let ghost before = r@;
        let v = slice[i].value().clone();
        r.push(v);
        proof {
            assert(r@ =~= before.push(v));
            assert(v@ == crate::arguments::texts(slice@)[i as int]);
            assert(r@.map_values(|a: String| a@) =~= before.map_values(|a: String| a@).push(v@));
            assert(r@.map_values(|a: String| a@) =~= crate::arguments::texts(slice@).take(i + 1));
        }
        i = i + 1;
    }
    proof {
        assert(crate::arguments::texts(slice@).take(slice@.len() as int) =~= crate::arguments::texts(slice@));
    }
    r
}

/// The entries of the compilation database: one for every command line of the modular
/// standard libraries, of the user's modules and of the sources of the targets (see
/// `all_commands`), with the driver and the shared arguments before its own. Fails when
/// the cache holds no shared arguments yet.
pub fn map_generated_commands_to_compilation_db(program_data: &ZorkModel, cache: &ZorkCache) -> (r: Result<
    Vec<CompileCommand>,
    CompilationDatabaseError,
>)
    ensures
        match r {
            Ok(entries) => {
                &&& cache.generated_commands.flyweight_data is Some
                &&& entries@.map_values(|e: CompileCommand| e@) == all_commands(cache).map_values(
                    |c: SclView| compile_command_of(driver_of(program_data), &cache.generated_commands.flyweight_data->0, c),
                )
            },
            Err(e) => cache.generated_commands.flyweight_data is None && e == CompilationDatabaseError::FlyweightDataNotFound,
        },
{
    let flyweight_data = match &cache.generated_commands.flyweight_data {
        Some(f) => f,
        None => {
            return Err(CompilationDatabaseError::FlyweightDataNotFound);
        },
    };
    let generated_commands = cache.get_all_commands_iter();
    let driver = program_data.compiler.cpp_compiler.get_driver(&program_data.compiler);
    let ghost d = driver_of(program_data);
    let ghost all = all_commands(cache);
    let mut entries: Vec<CompileCommand> = Vec::new();
    let mut i: usize = 0;
    while i < generated_commands.len()
        invariant
            0 <= i <= generated_commands@.len(),
            scl_views(generated_commands@) == all,
            driver@ == d,
            entries@.map_values(|e: CompileCommand| e@) == all.take(i as int).map_values(
                |c: SclView| compile_command_of(d, flyweight_data, c),
            ),
        decreases generated_commands@.len() - i,
    {
        let scl = &generated_commands[i];
        let mut args = Arguments::new();
        args.push(Argument::new(driver.clone()));
        append_all(&mut args, &flyweight_data.general_args);
        append_all(&mut args, &flyweight_data.shared_args);
        append_all(&mut args, &flyweight_data.std_references);
        args.push(flyweight_data.compile_but_dont_link.duplicate());
        append_all(&mut args, &scl.args);
        proof {
            assert(args@ =~= compile_command_of(d, flyweight_data, scl@).arguments);
        }
        let arguments = argument_strings(&args);
        let entry = CompileCommand { directory: scl.directory.clone(), file: scl.filename.clone(), arguments };
        entries.push(entry);
        proof {
            assert(all[i as int] == scl@);
            assert(entry@ == compile_command_of(d, flyweight_data, all[i as int]));
            assert(all.take(i + 1).map_values(|c: SclView| compile_command_of(d, flyweight_data, c)) =~= all.take(
                i as int,
            ).map_values(|c: SclView| compile_command_of(d, flyweight_data, c)).push(compile_command_of(d, flyweight_data, all[i as int])));
            assert(entries@.map_values(|e: CompileCommand| e@) =~= all.take(i + 1).map_values(
                |c: SclView| compile_command_of(d, flyweight_data, c),
            ));
        }
        i = i + 1;
    }
    proof {
        assert(all.take(all.len() as int) =~= all);
    }
    Ok(entries)
}

/// The names of the enabled targets among `entries`, in their order.
pub open spec fn enabled_names(entries: Seq<(Seq<char>, TargetView)>) -> Seq<Seq<char>>
    decreases entries.len(),
{
    if entries.len() == 0 {
        Seq::empty()
    } else {
        enabled_names(entries.drop_last()) + if entries.last().1.enabled_for_current_program_iteration {
            seq![entries.last().0]
        } else {
            Seq::empty()
        }
    }
}

/// The names of the targets whose products are run after a build: the enabled ones, in
/// their order.
pub fn binaries_to_run(targets: &indexmap::IndexMap<crate::target::TargetIdentifier, Target>) -> (r: Vec<String>)
    ensures
        r@.map_values(|s: String| s@) == enabled_names(crate::target::cached_target_entries(*targets)),
{
    let ghost entries = crate::target::cached_target_entries(*targets);
    let n = crate::target::cached_targets_len(targets);
    let mut r: Vec<String> = Vec::new();
    let mut i: usize = 0;
    while i < n
        invariant
            0 <= i <= n == entries.len(),
            entries == crate::target::cached_target_entries(*targets),
            r@.map_values(|s: String| s@) == enabled_names(entries.take(i as int)),
        decreases n - i,
    {
        let (id, target) = crate::target::cached_target_at(targets, i);
        let ghost before = r@;
        proof {
            assert(entries.take(i + 1).drop_last() =~= entries.take(i as int));
            assert(entries.take(i + 1).last() == entries[i as int]);
        }
        if target.enabled_for_current_program_iteration {
            let name = String::from_str(id.name());
            r.push(name);
            proof {
                assert(r@.map_values(|s: String| s@) =~= before.map_values(|s: String| s@).push(name@));
            }
        } else {
            proof {
                assert(enabled_names(entries.take(i + 1)) =~= enabled_names(entries.take(i as int)));
            }
        }
        i = i + 1;
    }
    proof {
        assert(entries.take(n as int) =~= entries);
    }
    r
}

/// The program that runs the product of the target `name`, and how it is shown: with the
/// extension of executables of the platform.
pub fn generated_binary(out_dir: &str, compiler: CppCompiler, name: &str, on_windows: bool) -> (r: (String, String))
    ensures
        r.0@ == crate::paths::join(crate::paths::join(out_dir@, crate::compiler_model::compiler_name(compiler)), name@),
        r.1@ == crate::generator::target_output_path(out_dir@, compiler, name@, on_windows),
{
    let p = crate::paths::join_path(out_dir, compiler.as_str());
    let program = crate::paths::join_path(p.as_str(), name);
    let shown = crate::generator::generate_target_output(out_dir, compiler, name, on_windows);
    (program, shown)
}

/// The full arguments of the command line of a user's module (or of a system header)
/// are, in this order and nothing else: the general arguments, the shared ones, every
/// reference to the modular standard libraries, the flag that builds without linking,
/// and the command line's own arguments.
pub proof fn lemma_user_module_args_layout(fw: &FlyweightData, c: SclView)
    ensures
        ({
            let a = user_module_cmd_args(fw, c);
            let g = fw.general_args@.len() as int;
            let s = fw.shared_args@.len() as int;
            let r = fw.std_references@.len() as int;
            &&& a.len() == g + s + r + 1 + c.args.len()
            &&& a.subrange(0, g) == fw.general_args@
            &&& a.subrange(g, g + s) == fw.shared_args@
            &&& a.subrange(g + s, g + s + r) == fw.std_references@
            &&& a[g + s + r] == fw.compile_but_dont_link@
            &&& a.subrange(g + s + r + 1, a.len() as int) == c.args
            &&& forall|k: int| 0 <= k < r ==> a.contains(#[trigger] fw.std_references@[k])
        }),
{
    let a = user_module_cmd_args(fw, c);
    let g = fw.general_args@.len() as int;
    let s = fw.shared_args@.len() as int;
    let r = fw.std_references@.len() as int;
    assert(a.subrange(0, g) =~= fw.general_args@);
    assert(a.subrange(g, g + s) =~= fw.shared_args@);
    assert(a.subrange(g + s, g + s + r) =~= fw.std_references@);
    assert(a.subrange(g + s + r + 1, a.len() as int) =~= c.args);
    assert forall|k: int| 0 <= k < r implies a.contains(#[trigger] fw.std_references@[k]) by {
        assert(a[g + s + k] == fw.std_references@[k]);
    }
}

/// The full arguments of the command line of a modular standard library are, in this
/// order and nothing else: the general arguments, the shared ones, the flag that builds
/// without linking and the command line's own arguments (no reference to a modular
/// standard library, since it builds one).
pub proof fn lemma_std_module_args_layout(fw: &FlyweightData, c: SclView)
    ensures
        ({
            let a = std_module_cmd_args(fw, c);
            let g = fw.general_args@.len() as int;
            let s = fw.shared_args@.len() as int;
            &&& a.len() == g + s + 1 + c.args.len()
            &&& a.subrange(0, g) == fw.general_args@
            &&& a.subrange(g, g + s) == fw.shared_args@
            &&& a[g + s] == fw.compile_but_dont_link@
            &&& a.subrange(g + s + 1, a.len() as int) == c.args
        }),
{
    let a = std_module_cmd_args(fw, c);
    let g = fw.general_args@.len() as int;
    let s = fw.shared_args@.len() as int;
    assert(a.subrange(0, g) =~= fw.general_args@);
    assert(a.subrange(g, g + s) =~= fw.shared_args@);
    assert(a.subrange(g + s + 1, a.len() as int) =~= c.args);
}

/// The arguments that the sources of a target share are, in this order and nothing else:
/// the general arguments, the shared ones, every reference to the modular standard
/// libraries, the flag that builds without linking and the extra arguments of the target.
pub proof fn lemma_target_shared_args_layout(fw: &FlyweightData, extra: Seq<Seq<char>>)
    ensures
        ({
            let a = target_shared_cmd_args(fw, extra);
            let g = fw.general_args@.len() as int;
            let s = fw.shared_args@.len() as int;
            let r = fw.std_references@.len() as int;
            &&& a.len() == g + s + r + 1 + extra.len()
            &&& a.subrange(0, g) == fw.general_args@
            &&& a.subrange(g, g + s) == fw.shared_args@
            &&& a.subrange(g + s, g + s + r) == fw.std_references@
            &&& a[g + s + r] == fw.compile_but_dont_link@
            &&& a.subrange(g + s + r + 1, a.len() as int) == extra
        }),
{
    let a = target_shared_cmd_args(fw, extra);
    let g = fw.general_args@.len() as int;
    let s = fw.shared_args@.len() as int;
    let r = fw.std_references@.len() as int;
    assert(a.subrange(0, g) =~= fw.general_args@);
    assert(a.subrange(g, g + s) =~= fw.shared_args@);
    assert(a.subrange(g + s, g + s + r) =~= fw.std_references@);
    assert(a.subrange(g + s + r + 1, a.len() as int) =~= extra);
}

/// The linker command line of a target starts with the general arguments, the shared
/// ones and every reference to the modular standard libraries, in this order, followed by
/// the linker's own arguments and the extra ones of the target.
pub proof fn lemma_linker_args_layout(compiler: CppCompiler, fw: &FlyweightData, m: ModulesCommandsView, t: TargetView)
    ensures
        ({
            let a = linker_cmd_args(compiler, fw, m, t);
            let g = fw.general_args@.len() as int;
            let s = fw.shared_args@.len() as int;
            let r = fw.std_references@.len() as int;
            let l = t.linker.args.len() as int;
            let e = t.linker.extra_args.len() as int;
            &&& a.len() >= g + s + r + l + e
            &&& a.subrange(0, g) == fw.general_args@
            &&& a.subrange(g, g + s) == fw.shared_args@
            &&& a.subrange(g + s, g + s + r) == fw.std_references@
            &&& a.subrange(g + s + r, g + s + r + l) == t.linker.args
            &&& a.subrange(g + s + r + l, g + s + r + l + e) == t.linker.extra_args
        }),
{
    let a = linker_cmd_args(compiler, fw, m, t);
    let g = fw.general_args@.len() as int;
    let s = fw.shared_args@.len() as int;
    let r = fw.std_references@.len() as int;
    let l = t.linker.args.len() as int;
    let e = t.linker.extra_args.len() as int;
    assert(a.subrange(0, g) =~= fw.general_args@);
    assert(a.subrange(g, g + s) =~= fw.shared_args@);
    assert(a.subrange(g + s, g + s + r) =~= fw.std_references@);
    assert(a.subrange(g + s + r, g + s + r + l) =~= t.linker.args);
    assert(a.subrange(g + s + r + l, g + s + r + l + e) =~= t.linker.extra_args);
}

/// The entry of the compilation database of a command line names its directory and its
/// file, and its arguments are the driver followed by exactly the arguments with which a
/// user's module is built (see `lemma_user_module_args_layout`): every reference to the
/// modular standard libraries is among them.
pub proof fn lemma_compile_command_is_the_build_command(driver: Seq<char>, fw: &FlyweightData, c: SclView)
    ensures
        compile_command_of(driver, fw, c).directory == c.directory,
        compile_command_of(driver, fw, c).file == c.filename,
        compile_command_of(driver, fw, c).arguments == seq![driver] + user_module_cmd_args(fw, c),
        forall|k: int|
            0 <= k < fw.std_references@.len() ==> compile_command_of(driver, fw, c).arguments.contains(
                #[trigger] fw.std_references@[k],
            ),
{
    let e = compile_command_of(driver, fw, c).arguments;
    assert(e =~= seq![driver] + user_module_cmd_args(fw, c));
    lemma_user_module_args_layout(fw, c);
    let g = fw.general_args@.len() as int;
    let s = fw.shared_args@.len() as int;
    assert forall|k: int| 0 <= k < fw.std_references@.len() implies e.contains(#[trigger] fw.std_references@[k]) by {
        assert(user_module_cmd_args(fw, c)[g + s + k] == fw.std_references@[k]);
        assert(e[g + s + k + 1] == fw.std_references@[k]);
    }
}

} // verus!
