//! Running the command lines of the targets, step by step: which command lines run (those
//! of the enabled targets, in the order of the table of targets, each target's pending
//! sources and then its linker), the full arguments of each, and, after each outcome, the
//! status it takes and whether the run goes on to the next command line.

use vstd::prelude::*;

use crate::arguments::Arguments;
use crate::command_lines::{scl_views, status_of_outcome, LinkerView, ModulesCommands, ModulesCommandsView, SclView, TranslationUnitStatus};
use crate::compiler_model::CppCompiler;
use crate::execution::{
    linker_args, linker_cmd_args, pending_commands, pending_positions, record_linker_outcome,
    record_source_outcome, source_command_args, target_shared_args, target_shared_cmd_args,
};
use crate::flyweight_data::FlyweightData;
use crate::project_model::{TargetModelView, ZorkModel};
use crate::target::{
    cached_target_at, cached_target_entries, cached_targets_len, has_name, model_target_at,
    model_target_entries, model_target_index_of, position_of, replace_cached_target_at, Target,
    TargetIdentifier, TargetKind, TargetView,
};
use crate::target_commands::GenerationError;
use indexmap::IndexMap;

verus! {

/// A command line of the targets: a source of the target at a position of the table of
/// targets, or the linker of a target.
#[derive(Debug, Clone, Copy, PartialEq, Eq, Structural)]
pub enum TargetCommandRef {
    Source(usize, usize),
    Linker(usize),
}

/// The position of the target of a command line.
pub open spec fn target_of(r: TargetCommandRef) -> int {
    match r {
        TargetCommandRef::Source(t, _) => t as int,
        TargetCommandRef::Linker(t) => t as int,
    }
}

/// Whether `r` designates a command line of the targets `entries`.
pub open spec fn ref_in(entries: Seq<(Seq<char>, TargetView)>, r: TargetCommandRef) -> bool {
    match r {
        TargetCommandRef::Source(t, s) => t < entries.len() && s < entries[t as int].1.sources.len(),
        TargetCommandRef::Linker(t) => t < entries.len(),
    }
}

/// The command lines of the target at position `t` that run: its pending sources in their
/// order, then its linker.
pub open spec fn target_refs(t: int, v: TargetView) -> Seq<TargetCommandRef> {
    pending_positions(v.sources).map_values(|i: int| TargetCommandRef::Source(t as usize, i as usize))
        + seq![TargetCommandRef::Linker(t as usize)]
}

/// The command lines of the targets `entries` that run, in their order: those of every
/// enabled target, in the order of the table.
pub open spec fn run_plan(entries: Seq<(Seq<char>, TargetView)>) -> Seq<TargetCommandRef>
    decreases entries.len(),
{
    if entries.len() == 0 {
        Seq::empty()
    } else {
        run_plan(entries.drop_last()) + if entries.last().1.enabled_for_current_program_iteration {
            target_refs(entries.len() - 1, entries.last().1)
        } else {
            Seq::empty()
        }
    }
}

/// Every position of the pending command lines of `s` is a position of `s`.
proof fn lemma_pending_positions_in(s: Seq<SclView>)
    ensures
        forall|k: int| 0 <= k < pending_positions(s).len() ==> 0 <= #[trigger] pending_positions(s)[k] < s.len(),
    decreases s.len(),
{
    if s.len() > 0 {
        let init = s.drop_last();
        lemma_pending_positions_in(init);
        let p = pending_positions(init);
        assert forall|k: int| 0 <= k < pending_positions(s).len() implies 0 <= #[trigger] pending_positions(s)[k] < s.len() by {
            if k < p.len() {
                assert(pending_positions(s)[k] == p[k]);
            }
        }
    }
}

/// Every command line of the plan of `entries` is one of its targets'.
pub proof fn lemma_plan_refs_in(entries: Seq<(Seq<char>, TargetView)>)
    requires
        entries.len() <= usize::MAX,
        forall|t: int| 0 <= t < entries.len() ==> (#[trigger] entries[t]).1.sources.len() <= usize::MAX,
    ensures
        forall|k: int| 0 <= k < run_plan(entries).len() ==> ref_in(entries, #[trigger] run_plan(entries)[k]),
    decreases entries.len(),
{
    if entries.len() > 0 {
        let init = entries.drop_last();
        assert forall|t: int| 0 <= t < init.len() implies (#[trigger] init[t]).1.sources.len() <= usize::MAX by {
            assert(init[t] == entries[t]);
        }
        lemma_plan_refs_in(init);
        let last = entries.last();
        lemma_pending_positions_in(last.1.sources);
        let p = run_plan(init);
        assert forall|k: int| 0 <= k < run_plan(entries).len() implies ref_in(entries, #[trigger] run_plan(entries)[k]) by {
            if k < p.len() {
                assert(run_plan(entries)[k] == p[k]);
                assert(ref_in(init, p[k]));
                match p[k] {
                    TargetCommandRef::Source(t, s) => {
                        assert(entries[t as int] == init[t as int]);
                    },
                    TargetCommandRef::Linker(t) => {},
                }
            } else {
                let tr = target_refs(entries.len() - 1, last.1);
                assert(run_plan(entries)[k] == tr[k - p.len()]);
                let ps = pending_positions(last.1.sources);
                assert(entries[entries.len() - 1] == last);
                if k - p.len() < ps.len() {
                    assert(0 <= ps[k - p.len()] < last.1.sources.len());
                    assert(tr[k - p.len()] == TargetCommandRef::Source((entries.len() - 1) as usize, ps[k - p.len()] as usize));
                } else {
                    assert(tr[k - p.len()] == TargetCommandRef::Linker((entries.len() - 1) as usize));
                }
            }
        }
    }
}

/// The command lines of the targets that run in this run (see `run_plan`).
pub fn run_targets_plan(targets: &IndexMap<TargetIdentifier, Target>) -> (r: Vec<TargetCommandRef>)
    ensures
        r@ == run_plan(cached_target_entries(*targets)),
{
    let ghost entries = cached_target_entries(*targets);
    let n = cached_targets_len(targets);
    let mut r: Vec<TargetCommandRef> = Vec::new();
    let mut t: usize = 0;
    while t < n
        invariant
            0 <= t <= n == entries.len(),
            entries == cached_target_entries(*targets),
            r@ == run_plan(entries.take(t as int)),
        decreases n - t,
    {
        let (_, target) = cached_target_at(targets, t);
        proof {
            assert(entries.take(t + 1).drop_last() =~= entries.take(t as int));
            assert(entries.take(t + 1).last() == entries[t as int]);
        }
        if target.enabled_for_current_program_iteration {
            let pending = pending_commands(&target.sources);
            let ghost base = r@;
            let ghost ps = pending_positions(scl_views(target.sources@));
            let mut j: usize = 0;
            while j < pending.len()
                invariant
                    0 <= j <= pending@.len(),
                    pending@.map_values(|i: usize| i as int) == ps,
                    r@ == base + ps.take(j as int).map_values(|i: int| TargetCommandRef::Source(t as usize, i as usize)),
                decreases pending@.len() - j,
            {
                let ghost before = r@;
                r.push(TargetCommandRef::Source(t, pending[j]));
                proof {
                    assert(ps[j as int] == pending@[j as int] as int);
                    assert(ps.take(j + 1).map_values(|i: int| TargetCommandRef::Source(t as usize, i as usize))
                        =~= ps.take(j as int).map_values(|i: int| TargetCommandRef::Source(t as usize, i as usize)).push(
                        TargetCommandRef::Source(t, pending@[j as int]),
                    ));
                    assert(r@ =~= before.push(TargetCommandRef::Source(t, pending@[j as int])));
                }
                j = j + 1;
            }
            r.push(TargetCommandRef::Linker(t));
            proof {
                assert(ps.take(ps.len() as int) =~= ps);
                assert(r@ =~= run_plan(entries.take(t + 1)));
            }
        } else {
            proof {
                assert(run_plan(entries.take(t + 1)) =~= run_plan(entries.take(t as int)));
            }
        }
        t = t + 1;
    }
    proof {
        assert(entries.take(n as int) =~= entries);
    }
    r
}

/// Whether `r` designates a command line of the targets (see `ref_in`).
pub fn target_ref_in(targets: &IndexMap<TargetIdentifier, Target>, r: TargetCommandRef) -> (b: bool)
    ensures
        b == ref_in(cached_target_entries(*targets), r),
{
    let n = cached_targets_len(targets);
    match r {
        TargetCommandRef::Source(t, s) => {
            if t < n {
                let (_, target) = cached_target_at(targets, t);
                s < target.sources.len()
            } else {
                false
            }
        },
        TargetCommandRef::Linker(t) => t < n,
    }
}

/// The full arguments of the command line `r` of the targets `entries`, for a project
/// whose declared targets are `m`; `None` when the project does not declare its target.
/// A source takes the arguments shared by the sources of its target (with the extra
/// arguments that the project declares for the target) and its own; a linker takes its
/// full linker arguments.
pub open spec fn target_command_args_of(
    compiler: CppCompiler,
    fw: &FlyweightData,
    modules: ModulesCommandsView,
    entries: Seq<(Seq<char>, TargetView)>,
    m: Seq<(Seq<char>, TargetModelView)>,
    r: TargetCommandRef,
) -> Option<Seq<Seq<char>>> {
    let t = target_of(r);
    let name = entries[t].0;
    if !has_name(m, name) {
        None
    } else {
        match r {
            TargetCommandRef::Source(_, s) => Some(
                target_shared_cmd_args(fw, m[position_of(m, name)].1.extra_args) + entries[t].1.sources[s as int].args,
            ),
            TargetCommandRef::Linker(_) => Some(linker_cmd_args(compiler, fw, modules, entries[t].1)),
        }
    }
}

/// The full arguments of the command line `r` of the cached targets (see
/// `target_command_args_of`). Fails when the project does not declare its target.
pub fn target_command_args(
    model: &ZorkModel,
    flyweight_data: &FlyweightData,
    modules: &ModulesCommands,
    targets: &IndexMap<TargetIdentifier, Target>,
    r: TargetCommandRef,
) -> (res: Result<Arguments, GenerationError>)
    requires
        ref_in(cached_target_entries(*targets), r),
    ensures
        ({
            let entries = cached_target_entries(*targets);
            let want = target_command_args_of(
                model.compiler.cpp_compiler,
                flyweight_data,
                modules@,
                entries,
                model_target_entries(model.targets),
                r,
            );
            match res {
                Ok(args) => want == Some(args@),
                Err(GenerationError::TargetEntryNotFound(id)) => want is None && id@ == entries[target_of(r)].0,
            }
        }),
{
    let ghost m = model_target_entries(model.targets);
    let t = match r {
        TargetCommandRef::Source(t, _) => t,
        TargetCommandRef::Linker(t) => t,
    };
    let (id, target) = cached_target_at(targets, t);
    match model_target_index_of(&model.targets, id) {
        None => Err(GenerationError::TargetEntryNotFound(id.duplicate())),
        Some(mi) => {
            let (_, tm) = model_target_at(&model.targets, mi);
            proof {
                assert(m[mi as int].0 == id@);
                assert(has_name(m, id@));
                let p = position_of(m, id@);
                assert(m[p].0 == id@);
                assert(p == mi as int);
            }
            match r {
                TargetCommandRef::Source(_, s) => {
                    let shared = target_shared_args(flyweight_data, &tm.extra_args);
                    Ok(source_command_args(&shared, &target.sources[s]))
                },
                TargetCommandRef::Linker(_) => Ok(linker_args(model.compiler.cpp_compiler, flyweight_data, modules, target)),
            }
        },
    }
}

/// The targets `entries` after the command line `r` ended with the status `status`.
pub open spec fn with_target_status(
    entries: Seq<(Seq<char>, TargetView)>,
    r: TargetCommandRef,
    status: TranslationUnitStatus,
) -> Seq<(Seq<char>, TargetView)> {
    let t = target_of(r);
    let v = entries[t].1;
    match r {
        TargetCommandRef::Source(_, s) => entries.update(
            t,
            (entries[t].0, TargetView { sources: v.sources.update(s as int, SclView { status, ..v.sources[s as int] }), ..v }),
        ),
        TargetCommandRef::Linker(_) => entries.update(
            t,
            (entries[t].0, TargetView { linker: LinkerView { execution_result: status, ..v.linker }, ..v }),
        ),
    }
}

/// Records the outcome of running the command line at position `at` of `plan` (`None`
/// when it could not be run, otherwise whether it succeeded) and tells which command line
/// of the plan runs next: the following one after a success, none after a failure or at
/// the end of the plan.
pub fn record_target_outcome(
    targets: &mut IndexMap<TargetIdentifier, Target>,
    plan: &Vec<TargetCommandRef>,
    at: usize,
    outcome: Option<bool>,
) -> (next: Option<usize>)
    requires
        at < plan@.len(),
        ref_in(cached_target_entries(*old(targets)), plan@[at as int]),
    ensures
        cached_target_entries(*final(targets)) == with_target_status(
            cached_target_entries(*old(targets)),
            plan@[at as int],
            status_of_outcome(outcome),
        ),
        next == if outcome == Some(true) && at + 1 < plan@.len() {
            Some((at + 1) as usize)
        } else {
            None::<usize>
        },
{
    let ghost entries = cached_target_entries(*targets);
    let r = plan[at];
    let t = match r {
        TargetCommandRef::Source(t, _) => t,
        TargetCommandRef::Linker(t) => t,
    };
    let placeholder = Target::new_default_for_kind(TargetKind::Executable);
    let mut target = replace_cached_target_at(targets, t, placeholder);
    let go_on = match r {
        TargetCommandRef::Source(_, s) => record_source_outcome(&mut target, s, outcome),
        TargetCommandRef::Linker(_) => record_linker_outcome(&mut target.linker, outcome),
    };
    let _ = replace_cached_target_at(targets, t, target);
    proof {
        assert(cached_target_entries(*targets) =~= with_target_status(entries, r, status_of_outcome(outcome)));
    }
    if go_on && at < plan.len() - 1 {
        Some(at + 1)
    } else {
        None
    }
}

/// Recording an outcome keeps the targets and their command lines where they are: every
/// command line that a plan designated is still there.
pub proof fn lemma_recording_keeps_refs(
    entries: Seq<(Seq<char>, TargetView)>,
    r: TargetCommandRef,
    status: TranslationUnitStatus,
    q: TargetCommandRef,
)
    requires
        ref_in(entries, r),
        ref_in(entries, q),
    ensures
        ref_in(with_target_status(entries, r, status), q),
{
}

} // verus!
