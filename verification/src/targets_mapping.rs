//! Keeping the cached targets in step with the declared ones: targets new in the
//! configuration get an entry, the filter of the command line enables or disables them,
//! and the entries of targets that left the configuration are dropped.

use vstd::prelude::*;

use crate::cache::ZorkCache;
use crate::project_model::{SourceSet, TargetModel, TargetModelView, ZorkModel};
use crate::target::{
    cached_target_at, cached_target_entries, cached_target_index_of, cached_targets_len,
    fresh_target, has_name, insert_cached_target, model_target_at, model_target_entries,
    model_target_index_of, model_targets_len, position_of, replace_cached_target_at,
    replace_model_target_at, shift_remove_cached_target_at, Target, TargetIdentifier, TargetKind,
    TargetView,
};
use crate::target_commands::GenerationError;

verus! {

/// The names of the targets that the command line selects, as texts.
pub open spec fn filter_view(filter: Option<Vec<String>>) -> Option<Seq<Seq<char>>> {
    match filter {
        Some(v) => Some(v@.map_values(|s: String| s@)),
        None => None,
    }
}

/// Whether a target is enabled for a run: every target is when the command line selects
/// none, otherwise the selected ones only.
pub open spec fn enabled_by(filter: Option<Seq<Seq<char>>>, name: Seq<char>) -> bool {
    match filter {
        Some(v) => v.contains(name),
        None => true,
    }
}

/// Whether the command line enables the target `name`.
pub fn target_enabled_by(filter: &Option<Vec<String>>, name: &str) -> (r: bool)
    ensures
        r == enabled_by(filter_view(*filter), name@),
{
    match filter {
        None => true,
        Some(v) => {
            let ghost vs = v@.map_values(|s: String| s@);
            let mut i: usize = 0;
            while i < v.len()
                invariant
                    0 <= i <= v@.len(),
                    vs == v@.map_values(|s: String| s@),
                    filter_view(*filter) == Some(vs),
                    forall|j: int| 0 <= j < i ==> #[trigger] vs[j] != name@,
                decreases v@.len() - i,
            {
                if crate::paths::str_equal(v[i].as_str(), name) {
                    proof {
                        assert(vs.len() == v@.len());
                        assert(vs[i as int] == name@);
                        assert(enabled_by(Some(vs), name@));
                    }
                    return true;
                }
                i = i + 1;
            }
            false
        },
    }
}

/// A cached target with its enabled flag set to `enabled`.
pub open spec fn with_enabled(t: TargetView, enabled: bool) -> TargetView {
    TargetView { enabled_for_current_program_iteration: enabled, ..t }
}

/// A declared target with its enabled flag set to `enabled`.
pub open spec fn model_with_enabled(t: TargetModelView, enabled: bool) -> TargetModelView {
    TargetModelView { enabled_for_current_program_iteration: enabled, ..t }
}

/// The cached targets after the declared target `name` of kind `kind` has been given an
/// entry (when it had none) and the flag `enabled`.
pub open spec fn map_step(
    c: Seq<(Seq<char>, TargetView)>,
    name: Seq<char>,
    kind: TargetKind,
    enabled: bool,
) -> Seq<(Seq<char>, TargetView)> {
    if has_name(c, name) {
        let p = position_of(c, name);
        c.update(p, (name, with_enabled(c[p].1, enabled)))
    } else {
        c.push((name, with_enabled(fresh_target(kind), enabled)))
    }
}

/// The cached targets `c` after the first `k` declared targets `m` have been mapped.
pub open spec fn mapped(
    c: Seq<(Seq<char>, TargetView)>,
    m: Seq<(Seq<char>, TargetModelView)>,
    k: int,
    filter: Option<Seq<Seq<char>>>,
) -> Seq<(Seq<char>, TargetView)>
    decreases k,
{
    if k <= 0 {
        c
    } else {
        let prev = mapped(c, m, k - 1, filter);
        map_step(prev, m[k - 1].0, m[k - 1].1.kind, enabled_by(filter, m[k - 1].0))
    }
}

/// The cached targets `c` that are still declared in `m`, in their order.
pub open spec fn kept_in(c: Seq<(Seq<char>, TargetView)>, m: Seq<(Seq<char>, TargetModelView)>) -> Seq<(Seq<char>, TargetView)>
    decreases c.len(),
{
    if c.len() == 0 {
        Seq::empty()
    } else {
        let r = kept_in(c.drop_last(), m);
        if has_name(m, c.last().0) {
            r.push(c.last())
        } else {
            r
        }
    }
}

/// Adds an entry for the target `target_identifier` to the cache when it has none: a
/// target of the declared kind, with no command lines yet.
pub fn add_new_target_to_cache(target_identifier: &TargetIdentifier, target_data: &TargetModel, cache: &mut ZorkCache)
    ensures
        cached_target_entries(final(cache).generated_commands.targets) == if has_name(
            cached_target_entries(old(cache).generated_commands.targets),
            target_identifier@,
        ) {
            cached_target_entries(old(cache).generated_commands.targets)
        } else {
            cached_target_entries(old(cache).generated_commands.targets).push(
                (target_identifier@, fresh_target(target_data.kind)),
            )
        },
        final(cache).generated_commands.modules@ == old(cache).generated_commands.modules@,
        final(cache).generated_commands.flyweight_data == old(cache).generated_commands.flyweight_data,
        final(cache).metadata == old(cache).metadata,
        final(cache).compilers_metadata == old(cache).compilers_metadata,
{
    if cached_target_index_of(&cache.generated_commands.targets, target_identifier).is_none() {
        let _ = insert_cached_target(
            &mut cache.generated_commands.targets,
            target_identifier.duplicate(),
            Target::new_default_for_kind(target_data.kind),
        );
    }
}

/// Sets the enabled flag of the target `target_identifier`, in the model and in its cache
/// entry, as the command line filter says. Fails when the cache has no entry for it.
pub fn enable_and_disable_targets_based_on_cli_inputs(
    target_identifier: &TargetIdentifier,
    target_data: &mut TargetModel,
    cache: &mut ZorkCache,
    cli_targets: &Option<Vec<String>>,
) -> (r: Result<(), GenerationError>)
    ensures
        ({
            let c = cached_target_entries(old(cache).generated_commands.targets);
            let en = enabled_by(filter_view(*cli_targets), target_identifier@);
            match r {
                Ok(()) => {
                    &&& has_name(c, target_identifier@)
                    &&& final(target_data)@ == model_with_enabled(old(target_data)@, en)
                    &&& cached_target_entries(final(cache).generated_commands.targets) == map_step(
                        c,
                        target_identifier@,
                        final(target_data)@.kind,
                        en,
                    )
                },
                Err(GenerationError::TargetEntryNotFound(id)) => {
                    &&& !has_name(c, target_identifier@)
                    &&& id@ == target_identifier@
                    &&& final(target_data)@ == old(target_data)@
                    &&& cached_target_entries(final(cache).generated_commands.targets) == c
                },
            }
        }),
        final(cache).generated_commands.modules@ == old(cache).generated_commands.modules@,
        final(cache).generated_commands.flyweight_data == old(cache).generated_commands.flyweight_data,
        final(cache).metadata == old(cache).metadata,
        final(cache).compilers_metadata == old(cache).compilers_metadata,
{
    let ghost c = cached_target_entries(cache.generated_commands.targets);
    match cached_target_index_of(&cache.generated_commands.targets, target_identifier) {
        None => Err(GenerationError::TargetEntryNotFound(target_identifier.duplicate())),
        Some(t) => {
            let enabled = target_enabled_by(cli_targets, target_identifier.name());
            target_data.enabled_for_current_program_iteration = enabled;
            let placeholder = Target::new_default_for_kind(TargetKind::Executable);
            let mut cached_target = replace_cached_target_at(&mut cache.generated_commands.targets, t, placeholder);
            cached_target.enabled_for_current_program_iteration = enabled;
            let _ = replace_cached_target_at(&mut cache.generated_commands.targets, t, cached_target);
            proof {
                assert(has_name(c, target_identifier@));
                assert(position_of(c, target_identifier@) == t as int);
                assert(cached_target@ == with_enabled(c[t as int].1, enabled));
            }
            Ok(())
        },
    }
}

proof fn lemma_kept_in_step(c: Seq<(Seq<char>, TargetView)>, m: Seq<(Seq<char>, TargetModelView)>, j: int)
    requires
        0 <= j < c.len(),
    ensures
        kept_in(c.take(j + 1), m) == if has_name(m, c[j].0) {
            kept_in(c.take(j), m).push(c[j])
        } else {
            kept_in(c.take(j), m)
        },
{
    assert(c.take(j + 1).drop_last() =~= c.take(j));
}

/// Drops from the cache the targets that the configuration no longer declares; the
/// others keep their order.
pub fn delete_from_cache_removed_targets_from_cfg_file(program_data: &ZorkModel, cache: &mut ZorkCache)
    ensures
        cached_target_entries(final(cache).generated_commands.targets) == kept_in(
            cached_target_entries(old(cache).generated_commands.targets),
            model_target_entries(program_data.targets),
        ),
        final(cache).generated_commands.modules@ == old(cache).generated_commands.modules@,
        final(cache).generated_commands.flyweight_data == old(cache).generated_commands.flyweight_data,
        final(cache).metadata == old(cache).metadata,
        final(cache).compilers_metadata == old(cache).compilers_metadata,
{
    let ghost o = cached_target_entries(cache.generated_commands.targets);
    let ghost m = model_target_entries(program_data.targets);
    let ghost mut j: int = 0;
    let mut i: usize = 0;
    proof {
        assert(o.take(0) =~= Seq::<(Seq<char>, TargetView)>::empty());
        assert(o.skip(0) =~= o);
        assert(cached_target_entries(cache.generated_commands.targets) =~= kept_in(o.take(0), m) + o.skip(0));
    }
    while i < cached_targets_len(&cache.generated_commands.targets)
        invariant
            0 <= j <= o.len(),
            o == cached_target_entries(old(cache).generated_commands.targets),
            m == model_target_entries(program_data.targets),
            i == kept_in(o.take(j), m).len(),
            cached_target_entries(cache.generated_commands.targets) == kept_in(o.take(j), m) + o.skip(j),
            cache.generated_commands.modules@ == old(cache).generated_commands.modules@,
            cache.generated_commands.flyweight_data == old(cache).generated_commands.flyweight_data,
            cache.metadata == old(cache).metadata,
            cache.compilers_metadata == old(cache).compilers_metadata,
        decreases o.len() - j,
    {
        let ghost cur = cached_target_entries(cache.generated_commands.targets);
        let ghost k = kept_in(o.take(j), m);
        proof {
            assert(cur[i as int] == o[j]);
        }
        let (id, _) = cached_target_at(&cache.generated_commands.targets, i);
        let declared = model_target_index_of(&program_data.targets, id).is_some();
        proof {
            lemma_kept_in_step(o, m, j);
        }
        if declared {
            proof {
                assert(has_name(m, o[j].0));
                assert(cur =~= k.push(o[j]) + o.skip(j + 1));
            }
            i = i + 1;
        } else {
            let _ = shift_remove_cached_target_at(&mut cache.generated_commands.targets, i);
            proof {
                assert(cur.remove(i as int) =~= k + o.skip(j + 1));
            }
        }
        proof {
            j = j + 1;
        }
    }
    proof {
        assert(o.take(j) =~= o) by {
            if j < o.len() {
                assert(kept_in(o.take(j), m).len() + o.skip(j).len() > i);
            }
        }
        assert(o.skip(j) =~= Seq::<(Seq<char>, TargetView)>::empty());
        assert(cached_target_entries(cache.generated_commands.targets) =~= kept_in(o, m));
    }
}

/// The declared targets `m` after the first `k` of them have been given the enabled
/// flag that the command line filter says.
pub open spec fn targets_enabled(
    m: Seq<(Seq<char>, TargetModelView)>,
    k: int,
    filter: Option<Seq<Seq<char>>>,
) -> Seq<(Seq<char>, TargetModelView)> {
    Seq::new(
        m.len(),
        |x: int|
            if x < k {
                (m[x].0, model_with_enabled(m[x].1, enabled_by(filter, m[x].0)))
            } else {
                m[x]
            },
    )
}

proof fn lemma_kept_in_same_names(
    c: Seq<(Seq<char>, TargetView)>,
    m1: Seq<(Seq<char>, TargetModelView)>,
    m2: Seq<(Seq<char>, TargetModelView)>,
)
    requires
        m1.len() == m2.len(),
        forall|i: int| 0 <= i < m1.len() ==> (#[trigger] m1[i]).0 == m2[i].0,
    ensures
        kept_in(c, m1) == kept_in(c, m2),
    decreases c.len(),
{
    if c.len() > 0 {
        lemma_kept_in_same_names(c.drop_last(), m1, m2);
        let name = c.last().0;
        if has_name(m1, name) {
            let i = choose|i: int| 0 <= i < m1.len() && #[trigger] m1[i].0 == name;
            assert(m2[i].0 == name);
        }
        if has_name(m2, name) {
            let i = choose|i: int| 0 <= i < m2.len() && #[trigger] m2[i].0 == name;
            assert(m1[i].0 == name);
        }
    }
}

/// Keeps the cached targets in step with the declared ones: every declared target gets
/// an entry when it has none, every declared target (in the model and in the cache) is
/// enabled or disabled as the command line filter `cli_targets` says, and the entries of
/// targets that the configuration no longer declares are dropped.
pub fn map_model_targets_to_cache(
    program_data: &mut ZorkModel,
    cache: &mut ZorkCache,
    cli_targets: &Option<Vec<String>>,
) -> (r: Result<(), GenerationError>)
    ensures
        r is Ok,
        ({
            let m0 = model_target_entries(old(program_data).targets);
            let f = filter_view(*cli_targets);
            &&& model_target_entries(final(program_data).targets) == targets_enabled(m0, m0.len() as int, f)
            &&& cached_target_entries(final(cache).generated_commands.targets) == kept_in(
                mapped(cached_target_entries(old(cache).generated_commands.targets), m0, m0.len() as int, f),
                m0,
            )
        }),
        final(program_data).project == old(program_data).project,
        final(program_data).compiler == old(program_data).compiler,
        final(program_data).build == old(program_data).build,
        final(program_data).modules == old(program_data).modules,
        final(cache).generated_commands.modules@ == old(cache).generated_commands.modules@,
        final(cache).generated_commands.flyweight_data == old(cache).generated_commands.flyweight_data,
        final(cache).metadata == old(cache).metadata,
        final(cache).compilers_metadata == old(cache).compilers_metadata,
{
    let ghost m0 = model_target_entries(program_data.targets);
    let ghost c0 = cached_target_entries(cache.generated_commands.targets);
    let ghost f = filter_view(*cli_targets);
    let n = model_targets_len(&program_data.targets);
    let mut i: usize = 0;
    proof {
        assert(targets_enabled(m0, 0, f) =~= m0);
    }
    while i < n
        invariant
            0 <= i <= n == m0.len(),
            m0 == model_target_entries(old(program_data).targets),
            c0 == cached_target_entries(old(cache).generated_commands.targets),
            f == filter_view(*cli_targets),
            model_target_entries(program_data.targets) == targets_enabled(m0, i as int, f),
            cached_target_entries(cache.generated_commands.targets) == mapped(c0, m0, i as int, f),
            program_data.project == old(program_data).project,
            program_data.compiler == old(program_data).compiler,
            program_data.build == old(program_data).build,
            program_data.modules == old(program_data).modules,
            cache.generated_commands.modules@ == old(cache).generated_commands.modules@,
            cache.generated_commands.flyweight_data == old(cache).generated_commands.flyweight_data,
            cache.metadata == old(cache).metadata,
            cache.compilers_metadata == old(cache).compilers_metadata,
        decreases n - i,
    {
        let ghost mcur = model_target_entries(program_data.targets);
        let ghost ccur = cached_target_entries(cache.generated_commands.targets);
        let (id_ref, _) = model_target_at(&program_data.targets, i);
        let id = id_ref.duplicate();
        let placeholder = TargetModel {
            output_name: String::new(),
            sources: SourceSet { sources: Vec::new() },
            extra_args: Vec::new(),
            kind: TargetKind::Executable,
            enabled_for_current_program_iteration: false,
        };
        let mut target_data = replace_model_target_at(&mut program_data.targets, i, placeholder);
        proof {
            assert(mcur[i as int] == m0[i as int]);
            assert(id@ == m0[i as int].0);
            assert(target_data@ == m0[i as int].1);
        }
        add_new_target_to_cache(&id, &target_data, cache);
        let ghost cadd = cached_target_entries(cache.generated_commands.targets);
        let res = enable_and_disable_targets_based_on_cli_inputs(&id, &mut target_data, cache, cli_targets);
        let _ = replace_model_target_at(&mut program_data.targets, i, target_data);
        proof {
            let en = enabled_by(f, id@);
            let kind = m0[i as int].1.kind;
            assert(has_name(cadd, id@)) by {
                if !has_name(ccur, id@) {
                    assert(cadd[ccur.len() as int].0 == id@);
                }
            }
            assert(res is Ok);
            if !has_name(ccur, id@) {
                assert(cadd == ccur.push((id@, fresh_target(kind))));
                let p = position_of(cadd, id@);
                assert(cadd[p].0 == id@);
                assert(p == ccur.len()) by {
                    if p < ccur.len() {
                        assert(ccur[p].0 == id@);
                    }
                }
                assert(map_step(cadd, id@, kind, en) =~= map_step(ccur, id@, kind, en));
            }
            assert(cached_target_entries(cache.generated_commands.targets) == mapped(c0, m0, i + 1, f));
            assert(model_target_entries(program_data.targets) =~= targets_enabled(m0, i + 1, f));
        }
        match res {
            Ok(()) => {},
            Err(e) => {
                return Err(e);
            },
        }
        i = i + 1;
    }
    let ghost cm = cached_target_entries(cache.generated_commands.targets);
    delete_from_cache_removed_targets_from_cfg_file(program_data, cache);
    proof {
        lemma_kept_in_same_names(cm, model_target_entries(program_data.targets), m0);
    }
    Ok(())
}

/// Whether one of the first `k` declared targets `m` is named `name`.
pub open spec fn touched(m: Seq<(Seq<char>, TargetModelView)>, k: int, name: Seq<char>) -> bool {
    exists|i: int| 0 <= i < k && #[trigger] m[i].0 == name
}

/// What holds of the cached targets `c` after the first `k` declared targets have been
/// mapped onto the former ones `c0`.
pub open spec fn mapped_shape(
    c0: Seq<(Seq<char>, TargetView)>,
    m: Seq<(Seq<char>, TargetModelView)>,
    k: int,
    f: Option<Seq<Seq<char>>>,
    c: Seq<(Seq<char>, TargetView)>,
) -> bool {
    &&& crate::target::unique_names(c)
    &&& c.len() >= c0.len()
    &&& forall|t: int|
        0 <= t < c0.len() ==> (#[trigger] c[t]).0 == c0[t].0 && c[t].1 == if touched(m, k, c0[t].0) {
            with_enabled(c0[t].1, enabled_by(f, c0[t].0))
        } else {
            c0[t].1
        }
    &&& forall|t: int|
        c0.len() <= t < c.len() ==> touched(m, k, (#[trigger] c[t]).0) && !has_name(c0, c[t].0) && c[t].1
            == with_enabled(fresh_target(m[position_of(m, c[t].0)].1.kind), enabled_by(f, c[t].0))
    &&& forall|i: int| 0 <= i < k ==> has_name(c, (#[trigger] m[i]).0)
}

proof fn lemma_mapped_shape(
    c0: Seq<(Seq<char>, TargetView)>,
    m: Seq<(Seq<char>, TargetModelView)>,
    k: int,
    f: Option<Seq<Seq<char>>>,
)
    requires
        crate::target::unique_names(c0),
        crate::target::unique_names(m),
        0 <= k <= m.len(),
    ensures
        mapped_shape(c0, m, k, f, mapped(c0, m, k, f)),
    decreases k,
{
    if k > 0 {
        lemma_mapped_shape(c0, m, k - 1, f);
        let c = mapped(c0, m, k - 1, f);
        let name = m[k - 1].0;
        let kind = m[k - 1].1.kind;
        let en = enabled_by(f, name);
        let c2 = mapped(c0, m, k, f);
        assert(c2 == map_step(c, name, kind, en));
        assert forall|t: int| 0 <= t < c0.len() && (#[trigger] c0[t]).0 != name implies touched(m, k, c0[t].0) == touched(m, k - 1, c0[t].0) by {
            if touched(m, k, c0[t].0) {
                let i = choose|i: int| 0 <= i < k && #[trigger] m[i].0 == c0[t].0;
                assert(i < k - 1);
            }
        }
        assert(!touched(m, k - 1, name)) by {
            if touched(m, k - 1, name) {
                let i = choose|i: int| 0 <= i < k - 1 && #[trigger] m[i].0 == name;
                assert(m[i].0 == m[k - 1].0);
            }
        }
        assert(touched(m, k, name)) by {
            assert(m[k - 1].0 == name);
        }
        assert forall|i: int| 0 <= i < k - 1 implies #[trigger] m[i].0 != name by {
            assert(m[i].0 != m[k - 1].0);
        }
        assert forall|x: Seq<char>| x != name && touched(m, k, x) implies touched(m, k - 1, x) by {
            let i = choose|i: int| 0 <= i < k && #[trigger] m[i].0 == x;
            assert(i < k - 1);
        }
        assert forall|x: Seq<char>| touched(m, k - 1, x) implies touched(m, k, x) by {
            let i = choose|i: int| 0 <= i < k - 1 && #[trigger] m[i].0 == x;
            assert(0 <= i < k);
        }
        if has_name(c, name) {
            let p = position_of(c, name);
            assert(c[p].0 == name);
            assert(c2 == c.update(p, (name, with_enabled(c[p].1, en))));
            if p >= c0.len() {
                assert(touched(m, k - 1, c[p].0));
            }
            assert(p < c0.len());
            assert(crate::target::unique_names(c2)) by {
                assert forall|a: int, b: int| 0 <= a < c2.len() && 0 <= b < c2.len() && a != b implies #[trigger] c2[a].0 != #[trigger] c2[b].0 by {
                    assert(c2[a].0 == c[a].0 && c2[b].0 == c[b].0);
                }
            }
            assert forall|t: int| 0 <= t < c0.len() implies (#[trigger] c2[t]).0 == c0[t].0 && c2[t].1 == if touched(m, k, c0[t].0) {
                with_enabled(c0[t].1, enabled_by(f, c0[t].0))
            } else {
                c0[t].1
            } by {
                if t == p {
                    assert(c0[t].0 == name);
                } else {
                    assert(c[t].0 != c[p].0);
                }
            }
            assert forall|t: int| c0.len() <= t < c2.len() implies touched(m, k, (#[trigger] c2[t]).0) && !has_name(c0, c2[t].0) && c2[t].1
                == with_enabled(fresh_target(m[position_of(m, c2[t].0)].1.kind), enabled_by(f, c2[t].0)) by {
                assert(c2[t] == c[t]);
                assert(touched(m, k - 1, c[t].0));
            }
            assert forall|i: int| 0 <= i < k implies has_name(c2, (#[trigger] m[i]).0) by {
                if i < k - 1 {
                    let s = choose|s: int| 0 <= s < c.len() && #[trigger] c[s].0 == m[i].0;
                    assert(c2[s].0 == m[i].0);
                } else {
                    assert(c2[p].0 == m[i].0);
                }
            }
        } else {
            let e = (name, with_enabled(fresh_target(kind), en));
            assert(c2 == c.push(e));
            assert(crate::target::unique_names(c2)) by {
                assert forall|a: int, b: int| 0 <= a < c2.len() && 0 <= b < c2.len() && a != b implies #[trigger] c2[a].0 != #[trigger] c2[b].0 by {
                    if a < c.len() && b < c.len() {
                        assert(c2[a] == c[a] && c2[b] == c[b]);
                    } else if a < c.len() {
                        assert(c2[a] == c[a]);
                    } else {
                        assert(c2[b] == c[b]);
                    }
                }
            }
            assert(position_of(m, name) == k - 1) by {
                let q = position_of(m, name);
                assert(m[q].0 == name);
                if q != k - 1 {
                    assert(m[q].0 != m[k - 1].0);
                }
            }
            assert(!has_name(c0, name)) by {
                if has_name(c0, name) {
                    let t = choose|t: int| 0 <= t < c0.len() && #[trigger] c0[t].0 == name;
                    assert(c[t].0 == name);
                }
            }
            assert forall|t: int| 0 <= t < c0.len() implies (#[trigger] c2[t]).0 == c0[t].0 && c2[t].1 == if touched(m, k, c0[t].0) {
                with_enabled(c0[t].1, enabled_by(f, c0[t].0))
            } else {
                c0[t].1
            } by {
                assert(c2[t] == c[t]);
                assert(c0[t].0 != name);
            }
            assert forall|t: int| c0.len() <= t < c2.len() implies touched(m, k, (#[trigger] c2[t]).0) && !has_name(c0, c2[t].0) && c2[t].1
                == with_enabled(fresh_target(m[position_of(m, c2[t].0)].1.kind), enabled_by(f, c2[t].0)) by {
                if t < c.len() {
                    assert(c2[t] == c[t]);
                    assert(touched(m, k - 1, c[t].0));
                }
            }
            assert forall|i: int| 0 <= i < k implies has_name(c2, (#[trigger] m[i]).0) by {
                if i < k - 1 {
                    let s = choose|s: int| 0 <= s < c.len() && #[trigger] c[s].0 == m[i].0;
                    assert(c2[s].0 == m[i].0);
                } else {
                    assert(c2[c.len() as int].0 == m[i].0);
                }
            }
        }
    } else {
        assert forall|t: int| 0 <= t < c0.len() implies !touched(m, k, (#[trigger] c0[t]).0) by {}
    }
}

proof fn lemma_kept_in_from(c: Seq<(Seq<char>, TargetView)>, m: Seq<(Seq<char>, TargetModelView)>)
    ensures
        forall|t: int|
            0 <= t < kept_in(c, m).len() ==> has_name(m, (#[trigger] kept_in(c, m)[t]).0) && exists|s: int|
                0 <= s < c.len() && kept_in(c, m)[t] == #[trigger] c[s],
    decreases c.len(),
{
    if c.len() > 0 {
        let d = c.drop_last();
        lemma_kept_in_from(d, m);
        let r = kept_in(d, m);
        let k = kept_in(c, m);
        assert forall|t: int| 0 <= t < k.len() implies has_name(m, (#[trigger] k[t]).0) && exists|s: int|
            0 <= s < c.len() && k[t] == #[trigger] c[s] by {
            if t < r.len() {
                assert(k[t] == r[t]);
                let s = choose|s: int| 0 <= s < d.len() && r[t] == #[trigger] d[s];
                assert(c[s] == d[s]);
            } else {
                assert(k[t] == c[c.len() - 1]);
            }
        }
    }
}

proof fn lemma_kept_in_all(c: Seq<(Seq<char>, TargetView)>, m: Seq<(Seq<char>, TargetModelView)>)
    ensures
        forall|s: int|
            0 <= s < c.len() && has_name(m, (#[trigger] c[s]).0) ==> exists|t: int|
                0 <= t < kept_in(c, m).len() && #[trigger] kept_in(c, m)[t] == c[s],
    decreases c.len(),
{
    if c.len() > 0 {
        let d = c.drop_last();
        lemma_kept_in_all(d, m);
        let r = kept_in(d, m);
        let k = kept_in(c, m);
        assert forall|s: int| 0 <= s < c.len() && has_name(m, (#[trigger] c[s]).0) implies exists|t: int|
            0 <= t < k.len() && #[trigger] k[t] == c[s] by {
            if s < d.len() {
                assert(c[s] == d[s]);
                let t = choose|t: int| 0 <= t < r.len() && #[trigger] r[t] == d[s];
                assert(k[t] == r[t]);
            } else {
                assert(k[r.len() as int] == c[s]);
            }
        }
    }
}

proof fn lemma_kept_in_unique(c: Seq<(Seq<char>, TargetView)>, m: Seq<(Seq<char>, TargetModelView)>)
    requires
        crate::target::unique_names(c),
    ensures
        crate::target::unique_names(kept_in(c, m)),
    decreases c.len(),
{
    if c.len() > 0 {
        let d = c.drop_last();
        assert(crate::target::unique_names(d)) by {
            assert forall|a: int, b: int| 0 <= a < d.len() && 0 <= b < d.len() && a != b implies #[trigger] d[a].0 != #[trigger] d[b].0 by {
                assert(d[a] == c[a] && d[b] == c[b]);
            }
        }
        lemma_kept_in_unique(d, m);
        let r = kept_in(d, m);
        let k = kept_in(c, m);
        if has_name(m, c.last().0) {
            assert forall|a: int| 0 <= a < r.len() implies (#[trigger] r[a]).0 != c.last().0 by {
                lemma_kept_in_from(d, m);
                let s = choose|s: int| 0 <= s < d.len() && r[a] == #[trigger] d[s];
                assert(d[s] == c[s]);
            }
            assert forall|a: int, b: int| 0 <= a < k.len() && 0 <= b < k.len() && a != b implies #[trigger] k[a].0 != #[trigger] k[b].0 by {
                if a < r.len() && b < r.len() {
                    assert(k[a] == r[a] && k[b] == r[b]);
                } else if a < r.len() {
                    assert(k[a] == r[a]);
                } else {
                    assert(k[b] == r[b]);
                }
            }
        }
    }
}

/// Once the cached targets are mapped onto the declared ones, the cache holds exactly
/// one entry for every declared target and no other; each entry is enabled as the
/// command line filter says; an entry that was cached keeps its command lines, and the
/// entry of a new target has none and is of the declared kind.
pub proof fn lemma_targets_mapped(
    c0: Seq<(Seq<char>, TargetView)>,
    m0: Seq<(Seq<char>, TargetModelView)>,
    f: Option<Seq<Seq<char>>>,
)
    requires
        crate::target::unique_names(c0),
        crate::target::unique_names(m0),
    ensures
        ({
            let c1 = kept_in(mapped(c0, m0, m0.len() as int, f), m0);
            &&& crate::target::unique_names(c1)
            &&& forall|t: int| 0 <= t < c1.len() ==> has_name(m0, (#[trigger] c1[t]).0)
            &&& forall|i: int| 0 <= i < m0.len() ==> has_name(c1, (#[trigger] m0[i]).0)
            &&& forall|t: int|
                0 <= t < c1.len() ==> (#[trigger] c1[t]).1 == with_enabled(
                    if has_name(c0, c1[t].0) {
                        c0[position_of(c0, c1[t].0)].1
                    } else {
                        fresh_target(m0[position_of(m0, c1[t].0)].1.kind)
                    },
                    enabled_by(f, c1[t].0),
                )
        }),
{
    let n = m0.len() as int;
    let c = mapped(c0, m0, n, f);
    let c1 = kept_in(c, m0);
    lemma_mapped_shape(c0, m0, n, f);
    lemma_kept_in_unique(c, m0);
    assert forall|t: int| 0 <= t < c1.len() implies has_name(m0, (#[trigger] c1[t]).0) by {
        lemma_kept_in_from(c, m0);
    }
    assert forall|i: int| 0 <= i < m0.len() implies has_name(c1, (#[trigger] m0[i]).0) by {
        let s = choose|s: int| 0 <= s < c.len() && #[trigger] c[s].0 == m0[i].0;
        assert(has_name(m0, c[s].0));
        lemma_kept_in_all(c, m0);
        let t = choose|t: int| 0 <= t < c1.len() && #[trigger] c1[t] == c[s];
        assert(c1[t].0 == m0[i].0);
    }
    assert forall|t: int| 0 <= t < c1.len() implies (#[trigger] c1[t]).1 == with_enabled(
        if has_name(c0, c1[t].0) {
            c0[position_of(c0, c1[t].0)].1
        } else {
            fresh_target(m0[position_of(m0, c1[t].0)].1.kind)
        },
        enabled_by(f, c1[t].0),
    ) by {
        lemma_kept_in_from(c, m0);
        let s = choose|s: int| 0 <= s < c.len() && c1[t] == #[trigger] c[s];
        let name = c[s].0;
        assert(has_name(m0, name));
        assert(touched(m0, n, name)) by {
            let i = choose|i: int| 0 <= i < m0.len() && #[trigger] m0[i].0 == name;
        }
        if s < c0.len() {
            assert(c0[s].0 == name);
            assert(has_name(c0, name));
            let p = position_of(c0, name);
            assert(c0[p].0 == name);
            assert(p == s);
        }
    }
}

} // verus!
