//! The generation of the command lines of a whole project, run after run: the shared
//! arguments, the modular standard libraries, the system headers, the user's modules and
//! the targets.

use vstd::prelude::*;

use crate::cache::{cmd_for_kind, first_with_filename, CompilersMetadata, TranslationUnitKind, ZorkCache};
use crate::command_lines::{ModulesCommandsView, SclView};
use crate::compiler_model::{CppCompiler, StdLibMode};
use crate::flyweight_data::{flyweight_for, FlyweightData};
use crate::generator::{
    lemma_regeneration_of_alike_units, process_kind_translation_units, processed, BuildContext, FileState,
};
use crate::generator::{first_match, system_module_cmd, BuildableUnit};
use crate::project_model::{source_file_views, ZorkModel};
use crate::std_modules::{generate_modular_stdlibs_cmds, stdlib_cmd_after};
use crate::project_model::{tu_filename, tu_path, SourceFile, SystemModule};
use crate::target::{cached_target_entries, has_name, model_target_entries, TargetView};
use crate::target_commands::{
    enabled_among, enabled_cached_upto, target_processed, process_targets, sources_appended, targets_processed, GenerationError,
};

verus! {

/// The context in which the command lines of `model` are generated.
pub open spec fn context_of(model: &ZorkModel, metadata: &CompilersMetadata, on_windows: bool) -> BuildContext {
    BuildContext {
        compiler: model.compiler.cpp_compiler,
        out_dir: model.build.output_dir,
        clang_major_version: metadata.clang.major,
        on_windows,
    }
}

/// The shared data after a run: the one that the cache held, or the one of the project.
pub open spec fn flyweight_loaded(
    o: Option<FlyweightData>,
    n: Option<FlyweightData>,
    model: &ZorkModel,
    metadata: &CompilersMetadata,
    on_windows: bool,
) -> bool {
    match o {
        Some(_) => n == o,
        None => n is Some && flyweight_for(&n->0, model, metadata, on_windows),
    }
}

/// Whether the command lines of the modules `n` are what a run makes of the former
/// ones `o` for the project `model`.
pub open spec fn modules_generated(
    o: ModulesCommandsView,
    n: ModulesCommandsView,
    model: &ZorkModel,
    metadata: &CompilersMetadata,
    ctx: BuildContext,
    files: Seq<FileState>,
) -> bool {
    &&& if ctx.compiler == CppCompiler::MSVC {
        &&& n.cpp_stdlib == Some(stdlib_cmd_after(o.cpp_stdlib, &metadata.msvc, StdLibMode::Cpp, ctx, files))
        &&& n.c_compat_stdlib == Some(stdlib_cmd_after(o.c_compat_stdlib, &metadata.msvc, StdLibMode::CCompat, ctx, files))
    } else {
        n.cpp_stdlib == o.cpp_stdlib && n.c_compat_stdlib == o.c_compat_stdlib
    }
    &&& if ctx.compiler != CppCompiler::MSVC && model.modules.sys_modules@.len() > 0 {
        processed(o.system_modules, n.system_modules, model.modules.sys_modules@, model.modules.sys_modules@.len() as int, ctx, files)
    } else {
        n.system_modules == o.system_modules
    }
    &&& processed(o.interfaces, n.interfaces, model.modules.interfaces@, model.modules.interfaces@.len() as int, ctx, files)
    &&& processed(o.implementations, n.implementations, model.modules.implementations@, model.modules.implementations@.len() as int, ctx, files)
}

/// Whether some module got a new command line.
pub open spec fn modules_appended(o: ModulesCommandsView, n: ModulesCommandsView) -> bool {
    n.system_modules.len() > o.system_modules.len() || n.interfaces.len() > o.interfaces.len()
        || n.implementations.len() > o.implementations.len()
}

/// Sets the shared data of the cache when it holds none yet.
pub fn load_flyweights_for_general_shared_data(model: &ZorkModel, cache: &mut ZorkCache, on_windows: bool)
    ensures
        flyweight_loaded(
            old(cache).generated_commands.flyweight_data,
            final(cache).generated_commands.flyweight_data,
            model,
            &old(cache).compilers_metadata,
            on_windows,
        ),
        final(cache).generated_commands.modules@ == old(cache).generated_commands.modules@,
        final(cache).generated_commands.targets == old(cache).generated_commands.targets,
        final(cache).metadata == old(cache).metadata,
        final(cache).compilers_metadata == old(cache).compilers_metadata,
{
    if cache.generated_commands.flyweight_data.is_none() {
        let f = FlyweightData::new(model, &cache.compilers_metadata, on_windows);
        cache.generated_commands.flyweight_data = Some(f);
    }
}

/// Generates (or refreshes) the command lines of the system headers built as modules.
/// Returns whether one was appended.
pub fn generate_sys_modules_commands(
    model: &ZorkModel,
    cache: &mut ZorkCache,
    ctx: &BuildContext,
    files: &Vec<FileState>,
) -> (appended: bool)
    ensures
        processed(
            old(cache).generated_commands.modules@.system_modules,
            final(cache).generated_commands.modules@.system_modules,
            model.modules.sys_modules@,
            model.modules.sys_modules@.len() as int,
            *ctx,
            files@,
        ),
        appended == (final(cache).generated_commands.modules@.system_modules.len()
            > old(cache).generated_commands.modules@.system_modules.len()),
        final(cache).generated_commands.modules@ == (ModulesCommandsView {
            system_modules: final(cache).generated_commands.modules@.system_modules,
            ..old(cache).generated_commands.modules@
        }),
        final(cache).generated_commands.flyweight_data == old(cache).generated_commands.flyweight_data,
        final(cache).generated_commands.targets == old(cache).generated_commands.targets,
        final(cache).metadata == old(cache).metadata,
        final(cache).compilers_metadata == old(cache).compilers_metadata,
{
    process_kind_translation_units(&mut cache.generated_commands.modules.system_modules, &model.modules.sys_modules, ctx, files)
}

/// Generates (or refreshes) the command lines of the user's module interfaces, then of
/// the module implementations. Returns whether one was appended.
pub fn process_modules(
    model: &ZorkModel,
    cache: &mut ZorkCache,
    ctx: &BuildContext,
    files: &Vec<FileState>,
) -> (appended: bool)
    ensures
        processed(
            old(cache).generated_commands.modules@.interfaces,
            final(cache).generated_commands.modules@.interfaces,
            model.modules.interfaces@,
            model.modules.interfaces@.len() as int,
            *ctx,
            files@,
        ),
        processed(
            old(cache).generated_commands.modules@.implementations,
            final(cache).generated_commands.modules@.implementations,
            model.modules.implementations@,
            model.modules.implementations@.len() as int,
            *ctx,
            files@,
        ),
        appended == (final(cache).generated_commands.modules@.interfaces.len()
            > old(cache).generated_commands.modules@.interfaces.len()
            || final(cache).generated_commands.modules@.implementations.len()
            > old(cache).generated_commands.modules@.implementations.len()),
        final(cache).generated_commands.modules@ == (ModulesCommandsView {
            interfaces: final(cache).generated_commands.modules@.interfaces,
            implementations: final(cache).generated_commands.modules@.implementations,
            ..old(cache).generated_commands.modules@
        }),
        final(cache).generated_commands.flyweight_data == old(cache).generated_commands.flyweight_data,
        final(cache).generated_commands.targets == old(cache).generated_commands.targets,
        final(cache).metadata == old(cache).metadata,
        final(cache).compilers_metadata == old(cache).compilers_metadata,
{
    let a = process_kind_translation_units(&mut cache.generated_commands.modules.interfaces, &model.modules.interfaces, ctx, files);
    let b = process_kind_translation_units(
        &mut cache.generated_commands.modules.implementations,
        &model.modules.implementations,
        ctx,
        files,
    );
    a || b
}

/// The core procedure: generates the command lines of every translation unit of the
/// project and of the linker of every enabled target, or refreshes the status of those
/// that the cache already holds. `files` tells which files exist and which changed since
/// the last run. The cache is marked for a new compilation database when a command line
/// was added. Fails when an enabled target has no entry in the cache.
pub fn generate_commands_arguments(
    model: &ZorkModel,
    cache: &mut ZorkCache,
    on_windows: bool,
    files: &Vec<FileState>,
) -> (r: Result<(), GenerationError>)
    ensures
        ({
            let ctx = context_of(model, &old(cache).compilers_metadata, on_windows);
            let om = old(cache).generated_commands.modules@;
            let nm = final(cache).generated_commands.modules@;
            let m = model_target_entries(model.targets);
            let o = cached_target_entries(old(cache).generated_commands.targets);
            let n = cached_target_entries(final(cache).generated_commands.targets);
            &&& flyweight_loaded(
                old(cache).generated_commands.flyweight_data,
                final(cache).generated_commands.flyweight_data,
                model,
                &old(cache).compilers_metadata,
                on_windows,
            )
            &&& modules_generated(om, nm, model, &old(cache).compilers_metadata, ctx, files@)
            &&& final(cache).compilers_metadata == old(cache).compilers_metadata
            &&& match r {
                Ok(()) => {
                    &&& enabled_cached_upto(m, o, m.len() as int)
                    &&& targets_processed(o, n, m, m.len() as int, ctx, files@)
                    &&& final(cache).metadata == (crate::cache::CacheMetadata {
                        generate_compilation_database: old(cache).metadata.generate_compilation_database
                            || modules_appended(om, nm) || sources_appended(o, n),
                        ..old(cache).metadata
                    })
                },
                Err(GenerationError::TargetEntryNotFound(id)) => exists|i: int|
                    0 <= i < m.len() && (#[trigger] m[i]).0 == id@ && m[i].1.enabled_for_current_program_iteration
                        && !has_name(o, m[i].0) && enabled_cached_upto(m, o, i),
            }
        }),
{
    load_flyweights_for_general_shared_data(model, cache, on_windows);
    let ctx = BuildContext {
        compiler: model.compiler.cpp_compiler,
        out_dir: model.build.output_dir.clone(),
        clang_major_version: cache.compilers_metadata.clang.major,
        on_windows,
    };
    generate_modular_stdlibs_cmds(cache, &ctx, files);
    let mut appended = false;
    if model.compiler.cpp_compiler != CppCompiler::MSVC && model.modules.sys_modules.len() > 0 {
        appended = generate_sys_modules_commands(model, cache, &ctx, files);
    }
    let modules_new = process_modules(model, cache, &ctx, files);
    appended = appended || modules_new;
    if appended {
        cache.metadata.generate_compilation_database = true;
    }
    match process_targets(model, cache, &ctx, files) {
        Ok(sources_new) => {
            if sources_new {
                cache.metadata.generate_compilation_database = true;
            }
            Ok(())
        },
        Err(e) => Err(e),
    }
}

/// Generating the command lines of a project a second time, for the same model, makes no
/// new command line for its system headers, its module interfaces, its module
/// implementations or the sources of its targets, whatever changed on disk in between:
/// the second run only refreshes statuses.
pub proof fn lemma_regeneration_adds_nothing(
    model: &ZorkModel,
    metadata: &CompilersMetadata,
    ctx: BuildContext,
    files: Seq<FileState>,
    metadata2: &CompilersMetadata,
    ctx2: BuildContext,
    files2: Seq<FileState>,
    om: ModulesCommandsView,
    nm: ModulesCommandsView,
    nm2: ModulesCommandsView,
    o: Seq<(Seq<char>, TargetView)>,
    n: Seq<(Seq<char>, TargetView)>,
    n2: Seq<(Seq<char>, TargetView)>,
)
    requires
        ctx.compiler == model.compiler.cpp_compiler,
        ctx2.compiler == model.compiler.cpp_compiler,
        modules_generated(om, nm, model, metadata, ctx, files),
        modules_generated(nm, nm2, model, metadata2, ctx2, files2),
        targets_processed(o, n, model_target_entries(model.targets), model_target_entries(model.targets).len() as int, ctx, files),
        targets_processed(n, n2, model_target_entries(model.targets), model_target_entries(model.targets).len() as int, ctx2, files2),
    ensures
        nm2.interfaces.len() == nm.interfaces.len(),
        nm2.implementations.len() == nm.implementations.len(),
        !sources_appended(n, n2),
        nm2.system_modules.len() == nm.system_modules.len(),
        !modules_appended(nm, nm2),
{
    let sys = model.modules.sys_modules@;
    if ctx.compiler != CppCompiler::MSVC && sys.len() > 0 {
        lemma_regeneration_of_alike_units(om.system_modules, nm.system_modules, nm2.system_modules, sys, sys, ctx, files, ctx2, files2);
    }
    let ifcs = model.modules.interfaces@;
    let impls = model.modules.implementations@;
    lemma_regeneration_of_alike_units(om.interfaces, nm.interfaces, nm2.interfaces, ifcs, ifcs, ctx, files, ctx2, files2);
    lemma_regeneration_of_alike_units(
        om.implementations,
        nm.implementations,
        nm2.implementations,
        impls,
        impls,
        ctx,
        files,
        ctx2,
        files2,
    );
    let m = model_target_entries(model.targets);
    let k = m.len() as int;
    assert forall|t: int| 0 <= t < n.len() implies (#[trigger] n2[t]).1.sources.len() == n[t].1.sources.len() by {
        if enabled_among(m, k, n[t].0) {
            let i = choose|i: int| 0 <= i < k && (#[trigger] m[i]).0 == n[t].0 && m[i].1.enabled_for_current_program_iteration;
            assert(target_processed(n[t].1, n2[t].1, n[t].0, m[i].1, ctx2, files2));
            assert(n[t].0 == o[t].0);
            assert(target_processed(o[t].1, n[t].1, o[t].0, m[i].1, ctx, files));
            let srcs1 = choose|srcs: Seq<SourceFile>|
                #[trigger] source_file_views(srcs) == m[i].1.sources && processed(
                    o[t].1.sources,
                    n[t].1.sources,
                    srcs,
                    srcs.len() as int,
                    ctx,
                    files,
                );
            let srcs2 = choose|srcs: Seq<SourceFile>|
                #[trigger] source_file_views(srcs) == m[i].1.sources && processed(
                    n[t].1.sources,
                    n2[t].1.sources,
                    srcs,
                    srcs.len() as int,
                    ctx2,
                    files2,
                );
            assert(srcs1.len() == srcs2.len()) by {
                assert(source_file_views(srcs1).len() == source_file_views(srcs2).len());
            }
            assert forall|kk: int, d: Seq<char>, f: Seq<char>|
                0 <= kk < srcs1.len() implies #[trigger] srcs2[kk].spec_matches(d, f) == srcs1[kk].spec_matches(d, f) by {
                assert(source_file_views(srcs1)[kk] == source_file_views(srcs2)[kk]);
            }
            lemma_regeneration_of_alike_units(
                o[t].1.sources,
                n[t].1.sources,
                n2[t].1.sources,
                srcs1,
                srcs2,
                ctx,
                files,
                ctx2,
                files2,
            );
        }
    }
}

/// Among cached command lines, the one that a system header takes as its own is the first
/// with the header's file name.
pub proof fn lemma_system_header_match(s: Seq<SclView>, sm: &SystemModule)
    ensures
        first_match(s, sm) == first_with_filename(s, tu_filename(sm.file_stem@, sm.extension@)),
    decreases s.len(),
{
    if s.len() > 0 {
        lemma_system_header_match(s.drop_last(), sm);
    }
}

/// The command line generated for a system header and added to the cache is the one that
/// the lookup of the cache gives for the header, when no command line before it has the
/// header's file name: the next run finds it again instead of adding another.
pub proof fn lemma_system_header_found_again(
    cache: &ZorkCache,
    sm: &SystemModule,
    compiler: CppCompiler,
    out_dir: Seq<char>,
    s: Seq<SclView>,
)
    requires
        cache.generated_commands.modules@.system_modules == s.push(system_module_cmd(compiler, out_dir, sm)),
        first_with_filename(s, tu_filename(sm.file_stem@, sm.extension@)) == -1,
    ensures
        cmd_for_kind(
            cache,
            tu_path(sm),
            tu_filename(sm.file_stem@, sm.extension@),
            TranslationUnitKind::SystemHeader,
        ) == Some(system_module_cmd(compiler, out_dir, sm)),
{
    let t = s.push(system_module_cmd(compiler, out_dir, sm));
    assert(t.drop_last() =~= s);
}

/// Once the command lines of the system headers of a project are generated, the lookup
/// of the cache finds, for every declared header, a command line with its file name.
pub proof fn lemma_generated_system_headers_found(
    cache: &ZorkCache,
    model: &ZorkModel,
    o: Seq<SclView>,
    ctx: BuildContext,
    files: Seq<FileState>,
)
    requires
        processed(
            o,
            cache.generated_commands.modules@.system_modules,
            model.modules.sys_modules@,
            model.modules.sys_modules@.len() as int,
            ctx,
            files,
        ),
    ensures
        forall|k: int|
            0 <= k < model.modules.sys_modules@.len() ==> {
                let sm = #[trigger] model.modules.sys_modules@[k];
                let name = tu_filename(sm.file_stem@, sm.extension@);
                cmd_for_kind(cache, tu_path(&sm), name, TranslationUnitKind::SystemHeader) matches Some(c)
                    && c.filename == name
            },
{
    let n = cache.generated_commands.modules@.system_modules;
    assert forall|k: int| 0 <= k < model.modules.sys_modules@.len() implies {
        let sm = #[trigger] model.modules.sys_modules@[k];
        let name = tu_filename(sm.file_stem@, sm.extension@);
        cmd_for_kind(cache, tu_path(&sm), name, TranslationUnitKind::SystemHeader) matches Some(c) && c.filename == name
    } by {
        let sm = model.modules.sys_modules@[k];
        assert(first_match(n, &sm) >= 0);
        lemma_system_header_match(n, &sm);
        crate::generator::lemma_first_match(n, &sm);
    }
}

} // verus!
