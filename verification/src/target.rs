//! Targets: the final products of a build, and the ordered tables that hold them by name.

use vstd::prelude::*;

use indexmap::IndexMap;

use crate::command_lines::{empty_linker, scl_views, LinkerCommandLine, LinkerView, SclView, SourceCommandLine};
use crate::project_model::TargetModelView;
use crate::project_model::TargetModel;

verus! {

/// The kinds of final products.
#[derive(Debug, Clone, Copy, PartialEq, Eq, Structural)]
pub enum TargetKind {
    Executable,
    StaticLib,
    DyLib,
}

/// The name that identifies a target.
#[derive(Debug, Clone, PartialEq, Eq, Hash, Default)]
pub struct TargetIdentifier(pub String);

impl View for TargetIdentifier {
    type V = Seq<char>;

    open spec fn view(&self) -> Seq<char> {
        self.0@
    }
}

impl TargetIdentifier {
    /// An identifier holding a copy of `value`.
    pub fn from_str(value: &str) -> (r: TargetIdentifier)
        ensures
            r@ == value@,
    {
        TargetIdentifier(String::from_str(value))
    }

    /// The name of the target.
    pub fn name(&self) -> (r: &str)
        ensures
            r@ == self@,
    {
        self.0.as_str()
    }

    /// An identifier with the same name.
    pub fn duplicate(&self) -> (r: TargetIdentifier)
        ensures
            r@ == self@,
    {
        TargetIdentifier(self.0.clone())
    }
}

impl<'a> From<&'a str> for TargetIdentifier {
    fn from(value: &'a str) -> (r: TargetIdentifier) {
        TargetIdentifier(String::from_str(value))
    }
}

impl<'a> vstd::std_specs::convert::FromSpecImpl<&'a str> for TargetIdentifier {
    open spec fn obeys_from_spec() -> bool {
        false
    }

    open spec fn from_spec(v: &'a str) -> TargetIdentifier {
        choose|t: TargetIdentifier| t@ == v@
    }
}

/// The generated command lines of a target, kept between runs.
#[derive(Debug, Clone, PartialEq, Eq)]
pub struct Target {
    pub sources: Vec<SourceCommandLine>,
    pub linker: LinkerCommandLine,
    pub kind: TargetKind,
    pub enabled_for_current_program_iteration: bool,
}

/// The model of a [`Target`].
pub struct TargetView {
    pub sources: Seq<SclView>,
    pub linker: LinkerView,
    pub kind: TargetKind,
    pub enabled_for_current_program_iteration: bool,
}

impl View for Target {
    type V = TargetView;

    open spec fn view(&self) -> TargetView {
        TargetView {
            sources: scl_views(self.sources@),
            linker: self.linker@,
            kind: self.kind,
            enabled_for_current_program_iteration: self.enabled_for_current_program_iteration,
        }
    }
}

/// A target of the given kind with no command lines yet, enabled.
pub open spec fn fresh_target(kind: TargetKind) -> TargetView {
    TargetView {
        sources: Seq::empty(),
        linker: empty_linker(),
        kind,
        enabled_for_current_program_iteration: true,
    }
}

impl Target {
    /// A target of the given kind with no command lines yet, enabled.
    pub fn new_default_for_kind(kind: TargetKind) -> (r: Target)
        ensures
            r@ == fresh_target(kind),
    {
        let r = Target {
            sources: Vec::new(),
            linker: LinkerCommandLine::new_empty(),
            kind,
            enabled_for_current_program_iteration: true,
        };
        proof {
            assert(scl_views(r.sources@) =~= Seq::<SclView>::empty());
        }
        r
    }
}

/// Whether no two entries share a name.
pub open spec fn unique_names<V>(entries: Seq<(Seq<char>, V)>) -> bool {
    forall|i: int, j: int|
        0 <= i < entries.len() && 0 <= j < entries.len() && i != j ==> #[trigger] entries[i].0
            != #[trigger] entries[j].0
}

/// The position of the entry named `name`, or -1 when there is none.
pub open spec fn position_of<V>(entries: Seq<(Seq<char>, V)>, name: Seq<char>) -> int {
    if exists|i: int| 0 <= i < entries.len() && #[trigger] entries[i].0 == name {
        choose|i: int| 0 <= i < entries.len() && #[trigger] entries[i].0 == name
    } else {
        -1
    }
}

/// Whether some entry is named `name`.
pub open spec fn has_name<V>(entries: Seq<(Seq<char>, V)>, name: Seq<char>) -> bool {
    exists|i: int| 0 <= i < entries.len() && #[trigger] entries[i].0 == name
}

#[verifier::external_type_specification]
#[verifier::external_body]
#[verifier::reject_recursive_types(K)]
#[verifier::reject_recursive_types(V)]
#[verifier::reject_recursive_types(S)]
pub struct ExIndexMap<K, V, S>(IndexMap<K, V, S>);

/// The entries of the table of cached targets, in their order: the name of each target
/// and its generated command lines.
pub uninterp spec fn cached_target_entries(m: IndexMap<TargetIdentifier, Target>) -> Seq<(Seq<char>, TargetView)>;

/// The entries of the table of declared targets, in their order: the name of each target
/// and its model.
pub uninterp spec fn model_target_entries(m: IndexMap<TargetIdentifier, TargetModel>) -> Seq<(Seq<char>, TargetModelView)>;

/// `IndexMap::new`: a table without entries.
#[verifier::external_body]
pub fn new_cached_targets() -> (r: IndexMap<TargetIdentifier, Target>)
    ensures
        cached_target_entries(r) == Seq::<(Seq<char>, TargetView)>::empty(),
{
    IndexMap::new()
}

/// `IndexMap::len`: the number of entries.
#[verifier::external_body]
pub fn cached_targets_len(m: &IndexMap<TargetIdentifier, Target>) -> (r: usize)
    ensures
        r == cached_target_entries(*m).len(),
{
    m.len()
}

/// `IndexMap::get_index`: the entry at position `i`.
#[verifier::external_body]
pub fn cached_target_at(m: &IndexMap<TargetIdentifier, Target>, i: usize) -> (r: (&TargetIdentifier, &Target))
    requires
        i < cached_target_entries(*m).len(),
    ensures
        r.0@ == cached_target_entries(*m)[i as int].0,
        r.1@ == cached_target_entries(*m)[i as int].1,
{
    m.get_index(i).unwrap()
}

/// `IndexMap::get_index_of`: the position of the entry with the same name as `key`; the
/// table holds at most one.
#[verifier::external_body]
pub fn cached_target_index_of(m: &IndexMap<TargetIdentifier, Target>, key: &TargetIdentifier) -> (r: Option<usize>)
    ensures
        match r {
            Some(i) => {
                &&& i < cached_target_entries(*m).len()
                &&& cached_target_entries(*m)[i as int].0 == key@
                &&& forall|j: int|
                    0 <= j < cached_target_entries(*m).len() && j != i ==> #[trigger] cached_target_entries(*m)[j].0 != key@
            },
            None => !has_name(cached_target_entries(*m), key@),
        },
{
    m.get_index_of(key)
}

/// `IndexMap::insert`: an entry with the name of `key` keeps its position and takes
/// `value` (the former value is returned); otherwise the entry is added last.
#[verifier::external_body]
pub fn insert_cached_target(m: &mut IndexMap<TargetIdentifier, Target>, key: TargetIdentifier, value: Target) -> (r: Option<Target>)
    ensures
        match r {
            Some(former) => exists|i: int|
                0 <= i < cached_target_entries(*old(m)).len()
                    && #[trigger] cached_target_entries(*old(m))[i].0 == key@
                    && former@ == cached_target_entries(*old(m))[i].1
                    && cached_target_entries(*final(m)) == cached_target_entries(*old(m)).update(i, (key@, value@)),
            None => !has_name(cached_target_entries(*old(m)), key@)
                && cached_target_entries(*final(m)) == cached_target_entries(*old(m)).push((key@, value@)),
        },
{
    m.insert(key, value)
}

/// `IndexMap::get_index_mut`: puts `value` in the entry at position `i` and returns the
/// value that it held.
#[verifier::external_body]
pub fn replace_cached_target_at(m: &mut IndexMap<TargetIdentifier, Target>, i: usize, value: Target) -> (r: Target)
    requires
        i < cached_target_entries(*old(m)).len(),
    ensures
        r@ == cached_target_entries(*old(m))[i as int].1,
        cached_target_entries(*final(m)) == cached_target_entries(*old(m)).update(
            i as int,
            (cached_target_entries(*old(m))[i as int].0, value@),
        ),
{
    std::mem::replace(m.get_index_mut(i).unwrap().1, value)
}

/// `IndexMap::shift_remove_index`: removes the entry at position `i`, keeping the order
/// of the others.
#[verifier::external_body]
pub fn shift_remove_cached_target_at(m: &mut IndexMap<TargetIdentifier, Target>, i: usize) -> (r: (TargetIdentifier, Target))
    requires
        i < cached_target_entries(*old(m)).len(),
    ensures
        r.0@ == cached_target_entries(*old(m))[i as int].0,
        r.1@ == cached_target_entries(*old(m))[i as int].1,
        cached_target_entries(*final(m)) == cached_target_entries(*old(m)).remove(i as int),
{
    m.shift_remove_index(i).unwrap()
}

/// `IndexMap::new`: a table without entries.
#[verifier::external_body]
pub fn new_model_targets() -> (r: IndexMap<TargetIdentifier, TargetModel>)
    ensures
        model_target_entries(r) == Seq::<(Seq<char>, TargetModelView)>::empty(),
{
    IndexMap::new()
}

/// `IndexMap::len`: the number of entries.
#[verifier::external_body]
pub fn model_targets_len(m: &IndexMap<TargetIdentifier, TargetModel>) -> (r: usize)
    ensures
        r == model_target_entries(*m).len(),
{
    m.len()
}

/// `IndexMap::get_index`: the entry at position `i`; no other entry has its name.
#[verifier::external_body]
pub fn model_target_at(m: &IndexMap<TargetIdentifier, TargetModel>, i: usize) -> (r: (&TargetIdentifier, &TargetModel))
    requires
        i < model_target_entries(*m).len(),
    ensures
        r.0@ == model_target_entries(*m)[i as int].0,
        r.1@ == model_target_entries(*m)[i as int].1,
        forall|j: int| 0 <= j < model_target_entries(*m).len() && j != i ==> #[trigger] model_target_entries(*m)[j].0 != r.0@,
{
    m.get_index(i).unwrap()
}

/// `IndexMap::get_index_of`: the position of the entry with the same name as `key`; the
/// table holds at most one.
#[verifier::external_body]
pub fn model_target_index_of(m: &IndexMap<TargetIdentifier, TargetModel>, key: &TargetIdentifier) -> (r: Option<usize>)
    ensures
        match r {
            Some(i) => {
                &&& i < model_target_entries(*m).len()
                &&& model_target_entries(*m)[i as int].0 == key@
                &&& forall|j: int|
                    0 <= j < model_target_entries(*m).len() && j != i ==> #[trigger] model_target_entries(*m)[j].0 != key@
            },
            None => !has_name(model_target_entries(*m), key@),
        },
{
    m.get_index_of(key)
}

/// `IndexMap::insert`: an entry with the name of `key` keeps its position and takes
/// `value` (the former value is returned); otherwise the entry is added last.
#[verifier::external_body]
pub fn insert_model_target(m: &mut IndexMap<TargetIdentifier, TargetModel>, key: TargetIdentifier, value: TargetModel) -> (r: Option<TargetModel>)
    ensures
        match r {
            Some(former) => exists|i: int|
                0 <= i < model_target_entries(*old(m)).len()
                    && #[trigger] model_target_entries(*old(m))[i].0 == key@
                    && former@ == model_target_entries(*old(m))[i].1
                    && model_target_entries(*final(m)) == model_target_entries(*old(m)).update(i, (key@, value@)),
            None => !has_name(model_target_entries(*old(m)), key@)
                && model_target_entries(*final(m)) == model_target_entries(*old(m)).push((key@, value@)),
        },
{
    m.insert(key, value)
}

/// `IndexMap::get_index_mut`: puts `value` in the entry at position `i` and returns the
/// value that it held.
#[verifier::external_body]
pub fn replace_model_target_at(m: &mut IndexMap<TargetIdentifier, TargetModel>, i: usize, value: TargetModel) -> (r: TargetModel)
    requires
        i < model_target_entries(*old(m)).len(),
    ensures
        r@ == model_target_entries(*old(m))[i as int].1,
        model_target_entries(*final(m)) == model_target_entries(*old(m)).update(
            i as int,
            (model_target_entries(*old(m))[i as int].0, value@),
        ),
{
    std::mem::replace(m.get_index_mut(i).unwrap().1, value)
}

} // verus!
