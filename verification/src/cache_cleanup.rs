//! Dropping from the cache the command lines of translation units that are gone: those
//! that a run found deleted from the disk, and those that the configuration no longer
//! declares.

use vstd::prelude::*;

use crate::cache::ZorkCache;
use crate::command_lines::{scl_path, scl_views, SclView, SourceCommandLine, TranslationUnitStatus};
use crate::project_model::{source_file_path, tu_path, SourceFileView, TranslationUnit, ZorkModel};
use crate::target::{
    cached_target_at, cached_target_entries, cached_targets_len, has_name, model_target_at,
    model_target_entries, model_target_index_of, replace_cached_target_at, Target, TargetKind,
    TargetView,
};

verus! {

/// The full paths of a sequence of translation units.
pub open spec fn tu_paths<T: TranslationUnit>(s: Seq<T>) -> Seq<Seq<char>> {
    s.map_values(|t: T| tu_path(&t))
}

/// The full paths of a sequence of source files.
pub open spec fn source_paths(s: Seq<SourceFileView>) -> Seq<Seq<char>> {
    s.map_values(|f: SourceFileView| source_file_path(f))
}

/// Whether a cached command line stays: it is not marked for deletion and its file is
/// still declared.
pub open spec fn stays(c: SclView, declared: Seq<Seq<char>>) -> bool {
    c.status != TranslationUnitStatus::ToDelete && declared.contains(scl_path(c))
}

/// The command lines of `s` that stay, in their order.
pub open spec fn retained(s: Seq<SclView>, declared: Seq<Seq<char>>) -> Seq<SclView>
    decreases s.len(),
{
    if s.len() == 0 {
        Seq::empty()
    } else {
        let r = retained(s.drop_last(), declared);
        if stays(s.last(), declared) {
            r.push(s.last())
        } else {
            r
        }
    }
}

/// Cleaning never adds a command line, and cleaning that drops none leaves the sequence as it was.
pub proof fn lemma_retained_len(s: Seq<SclView>, declared: Seq<Seq<char>>)
    ensures
        retained(s, declared).len() <= s.len(),
        retained(s, declared).len() == s.len() ==> retained(s, declared) == s,
    decreases s.len(),
{
    if s.len() > 0 {
        lemma_retained_len(s.drop_last(), declared);
        if retained(s, declared).len() == s.len() {
            assert(stays(s.last(), declared));
            assert(retained(s.drop_last(), declared) == s.drop_last());
            assert(s.drop_last().push(s.last()) =~= s);
        }
    }
}

/// Whether the file at `path` is among `declared`.
fn is_declared<T: TranslationUnit>(declared: &[T], path: &str) -> (r: bool)
    ensures
        r == tu_paths(declared@).contains(path@),
{
    let ghost ps = tu_paths(declared@);
    let mut i: usize = 0;
    while i < declared.len()
        invariant
            0 <= i <= declared@.len(),
            ps == tu_paths(declared@),
            forall|j: int| 0 <= j < i ==> #[trigger] ps[j] != path@,
        decreases declared@.len() - i,
    {
        let p = declared[i].path();
        if crate::paths::str_equal(p.as_str(), path) {
            proof {
                assert(ps[i as int] == path@);
            }
            return true;
        }
        i = i + 1;
    }
    false
}

/// Drops the cached command lines that are marked for deletion or whose translation
/// unit is no longer among `user_declared_translation_units`. Returns whether one was
/// dropped.
pub fn remove_if_needed_from_cache_and_count_changes<T: TranslationUnit>(
    cached_commands: &mut Vec<SourceCommandLine>,
    user_declared_translation_units: &[T],
) -> (r: bool)
    ensures
        scl_views(final(cached_commands)@) == retained(
            scl_views(old(cached_commands)@),
            tu_paths(user_declared_translation_units@),
        ),
        r == (final(cached_commands)@.len() < old(cached_commands)@.len()),
{
    let ghost o = scl_views(cached_commands@);
    let ghost declared = tu_paths(user_declared_translation_units@);
    let total = cached_commands.len();
    let mut kept: Vec<SourceCommandLine> = Vec::new();
    let mut i: usize = 0;
    while i < cached_commands.len()
        invariant
            0 <= i <= cached_commands@.len() == total,
            o == scl_views(cached_commands@),
            declared == tu_paths(user_declared_translation_units@),
            scl_views(kept@) == retained(o.take(i as int), declared),
        decreases cached_commands@.len() - i,
    {
        let scl = &cached_commands[i];
        let stay = scl.status != TranslationUnitStatus::ToDelete && is_declared(
            user_declared_translation_units,
            scl.path().as_str(),
        );
        proof {
            assert(o.take(i + 1).drop_last() =~= o.take(i as int));
            assert(o.take(i + 1).last() == o[i as int]);
        }
        if stay {
            kept.push(scl.duplicate());
            proof {
                assert(scl_views(kept@) =~= retained(o.take(i as int), declared).push(o[i as int]));
            }
        }
        i = i + 1;
    }
    proof {
        assert(o.take(total as int) =~= o);
        lemma_retained_len(o, declared);
    }
    *cached_commands = kept;
    proof {
        assert(scl_views(cached_commands@).len() == cached_commands@.len());
    }
    cached_commands.len() < total
}

/// The paths of the source files of the declared target named `name`.
pub open spec fn declared_sources_of(
    m: Seq<(Seq<char>, crate::project_model::TargetModelView)>,
    name: Seq<char>,
) -> Seq<Seq<char>> {
    source_paths(m[crate::target::position_of(m, name)].1.sources)
}

/// Whether cleaning the cached target at position `t` drops a command line.
pub open spec fn target_loses_commands(
    c: Seq<(Seq<char>, TargetView)>,
    m: Seq<(Seq<char>, crate::project_model::TargetModelView)>,
    t: int,
) -> bool {
    retained(c[t].1.sources, declared_sources_of(m, c[t].0)).len() < c[t].1.sources.len()
}

/// The cached target at position `t` with its command lines cleaned.
pub open spec fn cleaned_target(
    c: Seq<(Seq<char>, TargetView)>,
    m: Seq<(Seq<char>, crate::project_model::TargetModelView)>,
    t: int,
) -> (Seq<char>, TargetView) {
    (c[t].0, TargetView { sources: retained(c[t].1.sources, declared_sources_of(m, c[t].0)), ..c[t].1 })
}

/// Whether the cached targets `n` are the former ones `o` with every target cleaned.
pub open spec fn targets_cleaned(
    o: Seq<(Seq<char>, TargetView)>,
    n: Seq<(Seq<char>, TargetView)>,
    m: Seq<(Seq<char>, crate::project_model::TargetModelView)>,
) -> bool {
    &&& n.len() == o.len()
    &&& forall|t: int| 0 <= t < o.len() ==> #[trigger] n[t] == cleaned_target(o, m, t)
}

proof fn lemma_tu_paths_of_sources(s: Seq<crate::project_model::SourceFile>)
    ensures
        tu_paths(s) == source_paths(crate::project_model::source_file_views(s)),
{
    assert(tu_paths(s) =~= source_paths(crate::project_model::source_file_views(s)));
}

/// Drops from the cache the command lines of the translation units that are gone
/// (marked for deletion, or no longer declared): those of the module interfaces, of the
/// module implementations, of the sources of every target and of the system headers.
/// Returns whether a command line was dropped.
pub fn check_user_files_removals(cache: &mut ZorkCache, program_data: &ZorkModel) -> (r: bool)
    requires
        forall|t: int|
            0 <= t < cached_target_entries(old(cache).generated_commands.targets).len() ==> has_name(
                model_target_entries(program_data.targets),
                #[trigger] cached_target_entries(old(cache).generated_commands.targets)[t].0,
            ),
    ensures
        ({
            let om = old(cache).generated_commands.modules@;
            let nm = final(cache).generated_commands.modules@;
            let ri = retained(om.interfaces, tu_paths(program_data.modules.interfaces@));
            let rm = retained(om.implementations, tu_paths(program_data.modules.implementations@));
            let rs = retained(om.system_modules, tu_paths(program_data.modules.sys_modules@));
            let o = cached_target_entries(old(cache).generated_commands.targets);
            let n = cached_target_entries(final(cache).generated_commands.targets);
            let m = model_target_entries(program_data.targets);
            &&& nm.interfaces == ri
            &&& nm.implementations == rm
            &&& nm.system_modules == rs
            &&& nm.cpp_stdlib == om.cpp_stdlib
            &&& nm.c_compat_stdlib == om.c_compat_stdlib
            &&& targets_cleaned(o, n, m)
            &&& r == (ri.len() < om.interfaces.len() || rm.len() < om.implementations.len() || rs.len()
                < om.system_modules.len() || exists|t: int| 0 <= t < o.len() && #[trigger] target_loses_commands(o, m, t))
        }),
        final(cache).generated_commands.flyweight_data == old(cache).generated_commands.flyweight_data,
        final(cache).metadata == old(cache).metadata,
        final(cache).compilers_metadata == old(cache).compilers_metadata,
{
    let ghost om = cache.generated_commands.modules@;
    let a = remove_if_needed_from_cache_and_count_changes(
        &mut cache.generated_commands.modules.interfaces,
        program_data.modules.interfaces.as_slice(),
    );
    let b = remove_if_needed_from_cache_and_count_changes(
        &mut cache.generated_commands.modules.implementations,
        program_data.modules.implementations.as_slice(),
    );
    let c = remove_if_needed_from_cache_and_count_changes(
        &mut cache.generated_commands.modules.system_modules,
        program_data.modules.sys_modules.as_slice(),
    );
    proof {
        lemma_retained_len(om.interfaces, tu_paths(program_data.modules.interfaces@));
        lemma_retained_len(om.implementations, tu_paths(program_data.modules.implementations@));
        lemma_retained_len(om.system_modules, tu_paths(program_data.modules.sys_modules@));
    }
    let ghost o = cached_target_entries(cache.generated_commands.targets);
    let ghost m = model_target_entries(program_data.targets);
    let ghost mid = cache.generated_commands.modules@;
    let mut changes = a || b || c;
    let n = cached_targets_len(&cache.generated_commands.targets);
    let mut t: usize = 0;
    while t < n
        invariant
            0 <= t <= n == o.len(),
            o == cached_target_entries(old(cache).generated_commands.targets),
            m == model_target_entries(program_data.targets),
            forall|x: int| 0 <= x < o.len() ==> has_name(m, #[trigger] o[x].0),
            cached_target_entries(cache.generated_commands.targets).len() == o.len(),
            changes == (a || b || c || exists|x: int| 0 <= x < t && #[trigger] target_loses_commands(o, m, x)),
            forall|x: int|
                0 <= x < o.len() ==> #[trigger] cached_target_entries(cache.generated_commands.targets)[x] == if x
                    < t {
                    cleaned_target(o, m, x)
                } else {
                    o[x]
                },
            cache.generated_commands.modules@ == mid,
            cache.generated_commands.flyweight_data == old(cache).generated_commands.flyweight_data,
            cache.metadata == old(cache).metadata,
            cache.compilers_metadata == old(cache).compilers_metadata,
        decreases n - t,
    {
        let ghost cur = cached_target_entries(cache.generated_commands.targets);
        let (id_ref, _) = cached_target_at(&cache.generated_commands.targets, t);
        let id = id_ref.duplicate();
        proof {
            assert(cur[t as int] == o[t as int]);
            assert(has_name(m, o[t as int].0));
        }
        let mi = match model_target_index_of(&program_data.targets, &id) {
            Some(mi) => mi,
            None => {
                proof {
                    assert(false);
                }
                return changes;
            },
        };
        let (_, tm) = model_target_at(&program_data.targets, mi);
        let placeholder = Target::new_default_for_kind(TargetKind::Executable);
        let mut target = replace_cached_target_at(&mut cache.generated_commands.targets, t, placeholder);
        let lost = remove_if_needed_from_cache_and_count_changes(&mut target.sources, tm.sources.sources.as_slice());
        let _ = replace_cached_target_at(&mut cache.generated_commands.targets, t, target);
        proof {
            lemma_tu_paths_of_sources(tm.sources.sources@);
            let p = crate::target::position_of(m, o[t as int].0);
            assert(m[p].0 == o[t as int].0);
            assert(p == mi as int);
            let nw = cached_target_entries(cache.generated_commands.targets);
            assert(nw[t as int] == cleaned_target(o, m, t as int));
            assert(lost == target_loses_commands(o, m, t as int));
        }
        changes = changes || lost;
        t = t + 1;
    }
    changes
}

} // verus!
