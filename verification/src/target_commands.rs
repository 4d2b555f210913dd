//! The command lines of the targets: those of their source files and the one of the
//! linker, for every target that is enabled in a run.

use vstd::prelude::*;

use crate::arguments::Arguments;
use crate::cache::ZorkCache;
use crate::command_lines::{LinkerCommandLine, LinkerView, SclView};
use crate::generator::{
    generate_target_output, linker_target_arg, process_kind_translation_units, processed,
    target_output_path, BuildContext, FileState,
};
use crate::paths::{join, with_extension};
use crate::compiler_model::compiler_name;
use crate::project_model::{source_file_views, SourceFile, SourceFileView, TargetModel, TargetModelView, ZorkModel};
use crate::target::{
    cached_target_entries, cached_target_index_of, has_name, model_target_at, model_target_entries,
    model_targets_len, replace_cached_target_at, Target, TargetIdentifier, TargetKind, TargetView,
};

verus! {

/// Why the command lines of the targets could not be generated.
#[derive(Debug, Clone, PartialEq, Eq)]
pub enum GenerationError {
    /// The cache holds no entry for the enabled target so named.
    TargetEntryNotFound(TargetIdentifier),
}

/// The target argument of a linker command line after a run: it stays when it already
/// names the product, otherwise it names the product as the compiler takes it.
pub open spec fn linker_target_after(old_target: Seq<char>, compiler: crate::compiler_model::CppCompiler, output: Seq<char>) -> Seq<char> {
    if old_target == output {
        old_target
    } else {
        linker_target_arg(compiler, output)
    }
}

/// A linker command line after a run for the target `name` with the extra arguments
/// `extra_args` that the user declares for it.
pub open spec fn linker_after(old: LinkerView, ctx: BuildContext, name: Seq<char>, extra_args: Seq<Seq<char>>) -> LinkerView {
    LinkerView {
        target: linker_target_after(
            old.target,
            ctx.compiler,
            target_output_path(ctx.out_dir@, ctx.compiler, name, ctx.on_windows),
        ),
        extra_args,
        ..old
    }
}

/// Whether the command lines `n` of the sources of a target are what the generation
/// makes of the former ones `o` for its source files `sources`.
pub open spec fn sources_processed(
    o: Seq<SclView>,
    n: Seq<SclView>,
    sources: Seq<SourceFileView>,
    ctx: BuildContext,
    files: Seq<FileState>,
) -> bool {
    exists|srcs: Seq<SourceFile>|
        #[trigger] source_file_views(srcs) == sources && processed(o, n, srcs, srcs.len() as int, ctx, files)
}

/// Whether the cached target `n` is what the generation makes of the former one `o`
/// for the declared target `model` named `name`.
pub open spec fn target_processed(
    o: TargetView,
    n: TargetView,
    name: Seq<char>,
    model: TargetModelView,
    ctx: BuildContext,
    files: Seq<FileState>,
) -> bool {
    &&& n.kind == o.kind
    &&& n.enabled_for_current_program_iteration == o.enabled_for_current_program_iteration
    &&& n.linker == linker_after(o.linker, ctx, name, model.extra_args)
    &&& sources_processed(o.sources, n.sources, model.sources, ctx, files)
}

/// Generates (or refreshes) the command lines of the source files of a target.
pub fn generate_sources_cmds_args(
    target: &mut Target,
    target_model: &TargetModel,
    ctx: &BuildContext,
    files: &Vec<FileState>,
) -> (appended: bool)
    ensures
        sources_processed(old(target)@.sources, final(target)@.sources, target_model@.sources, *ctx, files@),
        final(target)@.linker == old(target)@.linker,
        final(target)@.kind == old(target)@.kind,
        final(target)@.enabled_for_current_program_iteration == old(target)@.enabled_for_current_program_iteration,
        appended == (final(target)@.sources.len() > old(target)@.sources.len()),
{
    let appended = process_kind_translation_units(&mut target.sources, &target_model.sources.sources, ctx, files);
    proof {
        let srcs = target_model.sources.sources@;
        assert(source_file_views(srcs) == target_model@.sources);
    }
    appended
}

/// Updates the linker command line of the target `target_identifier`: the product it
/// names and the extra arguments that the user declares for it.
pub fn generate_linkage_targets_commands(
    linker: &mut LinkerCommandLine,
    ctx: &BuildContext,
    target_identifier: &TargetIdentifier,
    target_details: &TargetModel,
)
    ensures
        final(linker)@ == linker_after(old(linker)@, *ctx, target_identifier@, target_details@.extra_args),
{
    let output = generate_target_output(ctx.out_dir.as_str(), ctx.compiler, target_identifier.name(), ctx.on_windows);
    if !crate::paths::str_equal(linker.target.value().as_str(), output.as_str()) {
        match ctx.compiler {
            crate::compiler_model::CppCompiler::CLANG | crate::compiler_model::CppCompiler::GCC => {
                linker.target = crate::arguments::Argument::new(output);
            },
            crate::compiler_model::CppCompiler::MSVC => {
                let mut fe = String::from_str("/Fe");
                fe.append(output.as_str());
                linker.target = crate::arguments::Argument::new(fe);
            },
        }
    }
    let mut declared = Arguments::new();
    declared.extend_from_slice(target_details.extra_args.as_slice());
    if !linker.extra_args.same_as(&declared) {
        linker.extra_args.clear();
        linker.extra_args.extend_from_slice(target_details.extra_args.as_slice());
    }
    proof {
        assert(linker.extra_args@ =~= target_details@.extra_args);
    }
}

/// Whether every enabled target among the first `k` declared ones has an entry in the
/// cached targets `c`.
pub open spec fn enabled_cached_upto(
    m: Seq<(Seq<char>, TargetModelView)>,
    c: Seq<(Seq<char>, TargetView)>,
    k: int,
) -> bool {
    forall|i: int|
        0 <= i < k && (#[trigger] m[i]).1.enabled_for_current_program_iteration ==> has_name(c, m[i].0)
}

/// Whether a cached target named `name` is the one of an enabled target among the first
/// `k` declared ones.
pub open spec fn enabled_among(m: Seq<(Seq<char>, TargetModelView)>, k: int, name: Seq<char>) -> bool {
    exists|i: int| 0 <= i < k && (#[trigger] m[i]).0 == name && m[i].1.enabled_for_current_program_iteration
}

/// Whether the cached targets `n` are what the generation makes of the former ones `o`
/// for the first `k` declared targets `m`: the entries keep their names and order, the
/// entry of an enabled declared target is processed for it, the others stay as they were.
pub open spec fn targets_processed(
    o: Seq<(Seq<char>, TargetView)>,
    n: Seq<(Seq<char>, TargetView)>,
    m: Seq<(Seq<char>, TargetModelView)>,
    k: int,
    ctx: BuildContext,
    files: Seq<FileState>,
) -> bool {
    &&& n.len() == o.len()
    &&& forall|t: int| 0 <= t < o.len() ==> (#[trigger] n[t]).0 == o[t].0
    &&& forall|t: int| 0 <= t < o.len() && !enabled_among(m, k, o[t].0) ==> (#[trigger] n[t]).1 == o[t].1
    &&& forall|i: int, t: int|
        0 <= i < k && 0 <= t < o.len() && (#[trigger] m[i]).1.enabled_for_current_program_iteration && m[i].0
            == (#[trigger] o[t]).0 ==> target_processed(o[t].1, n[t].1, o[t].0, m[i].1, ctx, files)
}

/// Whether some cached target got new command lines for its sources.
pub open spec fn sources_appended(o: Seq<(Seq<char>, TargetView)>, n: Seq<(Seq<char>, TargetView)>) -> bool {
    exists|t: int| 0 <= t < o.len() && (#[trigger] n[t]).1.sources.len() > o[t].1.sources.len()
}

/// Generates the command lines of the sources and of the linker of every enabled target,
/// in the order in which the targets are declared. Fails on the first enabled target that
/// has no entry in the cache. Returns whether a command line of a source was appended.
pub fn process_targets(
    model: &ZorkModel,
    cache: &mut ZorkCache,
    ctx: &BuildContext,
    files: &Vec<FileState>,
) -> (r: Result<bool, GenerationError>)
    ensures
        ({
            let m = model_target_entries(model.targets);
            let o = cached_target_entries(old(cache).generated_commands.targets);
            let n = cached_target_entries(final(cache).generated_commands.targets);
            match r {
                Ok(appended) => {
                    &&& enabled_cached_upto(m, o, m.len() as int)
                    &&& targets_processed(o, n, m, m.len() as int, *ctx, files@)
                    &&& appended == sources_appended(o, n)
                },
                Err(GenerationError::TargetEntryNotFound(id)) => exists|i: int|
                    0 <= i < m.len() && (#[trigger] m[i]).0 == id@ && m[i].1.enabled_for_current_program_iteration
                        && !has_name(o, m[i].0) && enabled_cached_upto(m, o, i),
            }
        }),
        final(cache).generated_commands.modules@ == old(cache).generated_commands.modules@,
        final(cache).generated_commands.flyweight_data == old(cache).generated_commands.flyweight_data,
        final(cache).metadata == old(cache).metadata,
        final(cache).compilers_metadata == old(cache).compilers_metadata,
{
    let ghost m = model_target_entries(model.targets);
    let ghost o = cached_target_entries(cache.generated_commands.targets);
    let n_targets = model_targets_len(&model.targets);
    let mut appended = false;
    let mut i: usize = 0;
    while i < n_targets
        invariant
            0 <= i <= n_targets == m.len(),
            m == model_target_entries(model.targets),
            o == cached_target_entries(old(cache).generated_commands.targets),
            enabled_cached_upto(m, o, i as int),
            targets_processed(o, cached_target_entries(cache.generated_commands.targets), m, i as int, *ctx, files@),
            appended == sources_appended(o, cached_target_entries(cache.generated_commands.targets)),
            cache.generated_commands.modules@ == old(cache).generated_commands.modules@,
            cache.generated_commands.flyweight_data == old(cache).generated_commands.flyweight_data,
            cache.metadata == old(cache).metadata,
            cache.compilers_metadata == old(cache).compilers_metadata,
        decreases n_targets - i,
    {
        let ghost cur = cached_target_entries(cache.generated_commands.targets);
        let (id, tm) = model_target_at(&model.targets, i);
        if tm.enabled_for_current_program_iteration {
            match cached_target_index_of(&cache.generated_commands.targets, id) {
                None => {
                    proof {
                        if has_name(o, m[i as int].0) {
                            let t = choose|t: int| 0 <= t < o.len() && #[trigger] o[t].0 == m[i as int].0;
                            assert(cur[t].0 == o[t].0);
                            assert(has_name(cur, id@));
                        }
                        assert(m[i as int].0 == id@ && !has_name(o, m[i as int].0));
                    }
                    return Err(GenerationError::TargetEntryNotFound(id.duplicate()));
                },
                Some(t) => {
                    let placeholder = Target::new_default_for_kind(TargetKind::Executable);
                    let mut target = replace_cached_target_at(&mut cache.generated_commands.targets, t, placeholder);
                    let a = generate_sources_cmds_args(&mut target, tm, ctx, files);
                    generate_linkage_targets_commands(&mut target.linker, ctx, id, tm);
                    let _ = replace_cached_target_at(&mut cache.generated_commands.targets, t, target);
                    appended = appended || a;
                    proof {
                        let nw = cached_target_entries(cache.generated_commands.targets);
                        assert(nw == cur.update(t as int, (cur[t as int].0, target@)));
                        assert(o[t as int].0 == m[i as int].0);
                        assert(!enabled_among(m, i as int, o[t as int].0)) by {
                            if enabled_among(m, i as int, o[t as int].0) {
                                let i2 = choose|i2: int| 0 <= i2 < i && (#[trigger] m[i2]).0 == o[t as int].0
                                    && m[i2].1.enabled_for_current_program_iteration;
                                assert(m[i2].0 == m[i as int].0);
                            }
                        }
                        assert(cur[t as int].1 == o[t as int].1);
                        assert(target_processed(o[t as int].1, nw[t as int].1, o[t as int].0, m[i as int].1, *ctx, files@));
                        assert forall|t2: int| 0 <= t2 < o.len() && !enabled_among(m, i + 1, o[t2].0) implies (#[trigger] nw[t2]).1 == o[t2].1 by {
                            assert(!enabled_among(m, i as int, o[t2].0)) by {
                                if enabled_among(m, i as int, o[t2].0) {
                                    let i2 = choose|i2: int| 0 <= i2 < i && (#[trigger] m[i2]).0 == o[t2].0
                                        && m[i2].1.enabled_for_current_program_iteration;
                                    assert(0 <= i2 < i + 1);
                                }
                            }
                            if t2 == t {
                                assert(m[i as int].0 == o[t2].0);
                            }
                        }
                        assert forall|i2: int, t2: int|
                            0 <= i2 < i + 1 && 0 <= t2 < o.len() && (#[trigger] m[i2]).1.enabled_for_current_program_iteration
                                && m[i2].0 == (#[trigger] o[t2]).0 implies target_processed(o[t2].1, nw[t2].1, o[t2].0, m[i2].1, *ctx, files@) by {
                            if i2 == i {
                                if t2 != t {
                                    assert(cur[t2].0 == o[t2].0);
                                    assert(cur[t2].0 != id@);
                                }
                            } else if t2 == t {
                                assert(m[i2].0 != m[i as int].0);
                            }
                        }
                        if appended {
                            if a {
                                assert(nw[t as int].1.sources.len() > o[t as int].1.sources.len());
                            } else {
                                let t3 = choose|t3: int| 0 <= t3 < o.len() && (#[trigger] cur[t3]).1.sources.len() > o[t3].1.sources.len();
                                if t3 == t {
                                    assert(nw[t3].1.sources.len() >= cur[t3].1.sources.len());
                                }
                                assert(nw[t3].1.sources.len() > o[t3].1.sources.len());
                            }
                        } else {
                            assert forall|t3: int| 0 <= t3 < o.len() implies !((#[trigger] nw[t3]).1.sources.len() > o[t3].1.sources.len()) by {
                                if t3 != t {
                                    assert(!(cur[t3].1.sources.len() > o[t3].1.sources.len()));
                                }
                            }
                        }
                    }
                },
            }
        } else {
            proof {
                let nw = cached_target_entries(cache.generated_commands.targets);
                assert forall|t2: int| 0 <= t2 < o.len() && !enabled_among(m, i + 1, o[t2].0) implies (#[trigger] nw[t2]).1 == o[t2].1 by {
                    if enabled_among(m, i as int, o[t2].0) {
                        let i2 = choose|i2: int| 0 <= i2 < i && (#[trigger] m[i2]).0 == o[t2].0
                            && m[i2].1.enabled_for_current_program_iteration;
                        assert(0 <= i2 < i + 1);
                    }
                }
            }
        }
        i = i + 1;
    }
    Ok(appended)
}

/// The linker of a target names its product: after a run, with Clang and GCC its target
/// is the path of the product itself (the target's name in the directory of the compiler
/// under the output directory, with the platform's extension of executables); with MSVC
/// it is that path after `/Fe`, unless the linker already named the path itself. Its
/// extra arguments are those that the project declares for the target.
pub proof fn lemma_linker_target_names_the_product(
    old: LinkerView,
    ctx: BuildContext,
    name: Seq<char>,
    extra_args: Seq<Seq<char>>,
)
    ensures
        ({
            let product = with_extension(
                join(join(ctx.out_dir@, compiler_name(ctx.compiler)), name),
                if ctx.on_windows { "exe"@ } else { Seq::<char>::empty() },
            );
            let after = linker_after(old, ctx, name, extra_args);
            &&& ctx.compiler != crate::compiler_model::CppCompiler::MSVC ==> after.target == product
            &&& ctx.compiler == crate::compiler_model::CppCompiler::MSVC ==> (after.target == "/Fe"@ + product || (
            old.target == product && after.target == product))
            &&& after.extra_args == extra_args
            &&& after.args == old.args
        }),
{
}

} // verus!
