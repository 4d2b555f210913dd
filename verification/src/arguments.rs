//! Command line arguments and ordered collections of them.

use vstd::prelude::*;

use crate::compiler_model::{compiler_name, CppCompiler};
use crate::paths::{join, join_path};

verus! {

/// A single command line argument.
#[derive(Debug, Clone, PartialEq, Eq, Default)]
pub struct Argument(String);

impl View for Argument {
    type V = Seq<char>;

    closed spec fn view(&self) -> Seq<char> {
        self.0@
    }
}

impl Argument {
    /// A new argument holding `value`.
    pub fn new(value: String) -> (r: Argument)
        ensures
            r@ == value@,
    {
        Argument(value)
    }

    /// A new argument holding a copy of `value`.
    pub fn from_str(value: &str) -> (r: Argument)
        ensures
            r@ == value@,
    {
        Argument(String::from_str(value))
    }

    /// The text of the argument.
    pub fn value(&self) -> (r: &String)
        ensures
            r@ == self@,
    {
        &self.0
    }

    /// Whether the argument holds no text.
    pub fn is_empty(&self) -> (r: bool)
        ensures
            r == (self@.len() == 0),
    {
        self.0.as_str().unicode_len() == 0
    }

    /// An argument with the same text.
    pub fn duplicate(&self) -> (r: Argument)
        ensures
            r@ == self@,
    {
        Argument(self.0.clone())
    }

    /// Whether both arguments hold the same text.
    pub fn same_as(&self, other: &Argument) -> (r: bool)
        ensures
            r == (self@ == other@),
    {
        self.0 == other.0
    }
}

impl From<String> for Argument {
    fn from(value: String) -> (r: Argument) {
        Argument(value)
    }
}

impl vstd::std_specs::convert::FromSpecImpl<String> for Argument {
    open spec fn obeys_from_spec() -> bool {
        true
    }

    closed spec fn from_spec(v: String) -> Argument {
        Argument(v)
    }
}

impl<'a> From<&'a str> for Argument {
    fn from(value: &'a str) -> (r: Argument) {
        Argument(String::from_str(value))
    }
}

impl<'a> vstd::std_specs::convert::FromSpecImpl<&'a str> for Argument {
    open spec fn obeys_from_spec() -> bool {
        false
    }

    closed spec fn from_spec(v: &'a str) -> Argument {
        choose|a: Argument| a@ == v@
    }
}

/// The texts of a sequence of arguments.
pub open spec fn texts(args: Seq<Argument>) -> Seq<Seq<char>> {
    args.map_values(|a: Argument| a@)
}

/// The texts joined with a single space between two of them.
pub open spec fn joined_with_spaces(s: Seq<Seq<char>>) -> Seq<char>
    decreases s.len(),
{
    if s.len() == 0 {
        Seq::empty()
    } else if s.len() == 1 {
        s[0]
    } else {
        joined_with_spaces(s.drop_last()) + seq![' '] + s.last()
    }
}

/// An ordered collection of command line arguments.
#[derive(Debug, Clone, PartialEq, Eq, Default)]
pub struct Arguments(Vec<Argument>);

impl View for Arguments {
    type V = Seq<Seq<char>>;

    closed spec fn view(&self) -> Seq<Seq<char>> {
        texts(self.0@)
    }
}

impl Arguments {
    /// An empty collection.
    pub fn new() -> (r: Arguments)
        ensures
            r@ == Seq::<Seq<char>>::empty(),
    {
        Arguments(Vec::new())
    }

    /// Wraps the arguments of `vec`, in their order.
    pub fn from_vec(vec: Vec<Argument>) -> (r: Arguments)
        ensures
            r@ == texts(vec@),
    {
        Arguments(vec)
    }

    /// An empty collection with room for `cap` arguments.
    pub fn with_capacity(cap: usize) -> (r: Arguments)
        ensures
            r@ == Seq::<Seq<char>>::empty(),
    {
        Arguments(Vec::with_capacity(cap))
    }

    /// The number of arguments.
    pub fn len(&self) -> (r: usize)
        ensures
            r == self@.len(),
    {
        self.0.len()
    }

    /// The argument at position `i`.
    pub fn get(&self, i: usize) -> (r: &Argument)
        requires
            i < self@.len(),
        ensures
            r@ == self@[i as int],
    {
        &self.0[i]
    }

    /// Appends `val` at the end.
    pub fn push(&mut self, val: Argument)
        ensures
            final(self)@ == old(self)@.push(val@),
    {
        self.0.push(val);
        proof {
            assert(texts(self.0@) =~= texts(old(self).0@).push(val@));
        }
    }

    /// Appends a new argument holding `val` at the end.
    pub fn push_str(&mut self, val: &str)
        ensures
            final(self)@ == old(self)@.push(val@),
    {
        self.push(Argument::from_str(val));
    }

    /// Appends the argument in `arg`, when there is one.
    pub fn push_opt(&mut self, arg: Option<Argument>)
        ensures
            final(self)@ == match arg {
                Some(a) => old(self)@.push(a@),
                None => old(self)@,
            },
    {
        if let Some(val) = arg {
            self.push(val)
        }
    }

    /// Appends all the arguments of `items`, in their order.
    pub fn extend(&mut self, items: Vec<Argument>)
        ensures
            final(self)@ == old(self)@ + texts(items@),
    {
        let mut i: usize = 0;
        while i < items.len()
            invariant
                0 <= i <= items@.len(),
                self@ == old(self)@ + texts(items@.subrange(0, i as int)),
            decreases items@.len() - i,
        {
            let a = items[i].duplicate();
            self.push(a);
            proof {
                assert(texts(items@.subrange(0, i + 1)) =~= texts(items@.subrange(0, i as int)).push(items@[i as int]@));
            }
            i = i + 1;
        }
        proof {
            assert(items@.subrange(0, items@.len() as int) =~= items@);
        }
    }

    /// Appends copies of all the arguments of `slice`, in their order.
    pub fn extend_from_slice(&mut self, slice: &[Argument])
        ensures
            final(self)@ == old(self)@ + texts(slice@),
    {
        let mut i: usize = 0;
        while i < slice.len()
            invariant
                0 <= i <= slice@.len(),
                self@ == old(self)@ + texts(slice@.subrange(0, i as int)),
            decreases slice@.len() - i,
        {
            let a = slice[i].duplicate();
            self.push(a);
            proof {
                assert(texts(slice@.subrange(0, i + 1)) =~= texts(slice@.subrange(0, i as int)).push(slice@[i as int]@));
            }
            i = i + 1;
        }
        proof {
            assert(slice@.subrange(0, slice@.len() as int) =~= slice@);
        }
    }

    /// Appends a new argument for every string of `slice`, in their order.
    pub fn extend_from_to_argument_slice(&mut self, slice: &[String])
        ensures
            final(self)@ == old(self)@ + slice@.map_values(|s: String| s@),
    {
        let mut i: usize = 0;
        while i < slice.len()
            invariant
                0 <= i <= slice@.len(),
                self@ == old(self)@ + slice@.subrange(0, i as int).map_values(|s: String| s@),
            decreases slice@.len() - i,
        {
            self.push(Argument::new(slice[i].clone()));
            proof {
                assert(slice@.subrange(0, i + 1).map_values(|s: String| s@) =~= slice@.subrange(0, i as int).map_values(|s: String| s@).push(slice@[i as int]@));
            }
            i = i + 1;
        }
        proof {
            assert(slice@.subrange(0, slice@.len() as int) =~= slice@);
        }
    }

    /// The arguments, in their order.
    pub fn as_slice(&self) -> (r: &[Argument])
        ensures
            texts(r@) == self@,
    {
        self.0.as_slice()
    }

    /// Removes every argument.
    pub fn clear(&mut self)
        ensures
            final(self)@ == Seq::<Seq<char>>::empty(),
    {
        self.0.clear();
        proof {
            assert(texts(self.0@) =~= Seq::<Seq<char>>::empty());
        }
    }

    /// A collection with copies of the same arguments.
    pub fn duplicate(&self) -> (r: Arguments)
        ensures
            r@ == self@,
    {
        let mut r = Arguments::with_capacity(self.0.len());
        r.extend_from_slice(self.0.as_slice());
        proof {
            assert(r@ =~= self@);
        }
        r
    }

    /// Whether both collections hold the same texts in the same order.
    pub fn same_as(&self, other: &Arguments) -> (r: bool)
        ensures
            r == (self@ == other@),
    {
        if self.0.len() != other.0.len() {
            return false;
        }
        let mut i: usize = 0;
        while i < self.0.len()
            invariant
                self@.len() == other@.len(),
                0 <= i <= self@.len(),
                forall|j: int| 0 <= j < i ==> self@[j] == other@[j],
            decreases self@.len() - i,
        {
            if !self.0[i].same_as(&other.0[i]) {
                proof {
                    assert(self@[i as int] != other@[i as int]);
                }
                return false;
            }
            i = i + 1;
        }
        proof {
            assert(self@ =~= other@);
        }
        true
    }

    /// The arguments written as one command line: their texts separated by single spaces.
    pub fn to_command_line_string(&self) -> (r: String)
        ensures
            r@ == joined_with_spaces(self@),
    {
        let mut r = String::new();
        let mut i: usize = 0;
        while i < self.0.len()
            invariant
                0 <= i <= self@.len(),
                r@ == joined_with_spaces(self@.subrange(0, i as int)),
            decreases self@.len() - i,
        {
            proof {
                let s = self@.subrange(0, i + 1);
                assert(s.drop_last() =~= self@.subrange(0, i as int));
                reveal_strlit(" ");
            }
            if i > 0 {
                r.append(" ");
            }
            r.append(self.0[i].0.as_str());
            proof {
                if i == 0 {
                    assert(r@ =~= self@.subrange(0, 1)[0]);
                }
            }
            i = i + 1;
        }
        proof {
            assert(self@.subrange(0, self@.len() as int) =~= self@);
        }
        r
    }
}

/// The path of the binary module interface that Clang builds for the module `module`.
pub open spec fn clang_bmi_path(out_dir: Seq<char>, module: Seq<char>) -> Seq<char> {
    join(join(join(join(out_dir, compiler_name(CppCompiler::CLANG)), "modules"@), "interfaces"@), module)
        + "."@ + "pcm"@
}

/// The directory where the Clang binary module interfaces of the project are placed.
pub open spec fn clang_prebuilt_dir(out_dir: Seq<char>) -> Seq<char> {
    join(join(join(out_dir, compiler_name(CppCompiler::CLANG)), "modules"@), "interfaces"@)
}

/// The argument that makes Clang import the interface of `dep` by its built module file.
pub open spec fn clang_module_file_arg(dep: Seq<char>, out_dir: Seq<char>, clang_major_version: i32) -> Seq<char> {
    if clang_major_version > 15 {
        "-fmodule-file="@ + dep + "="@ + clang_bmi_path(out_dir, dep)
    } else {
        "-fmodule-file="@ + clang_bmi_path(out_dir, dep)
    }
}

/// Generates the argument that tells Clang where the prebuilt module interfaces are.
pub fn add_prebuilt_module_path(out_dir: &str) -> (r: String)
    ensures
        r@ == "-fprebuilt-module-path="@ + clang_prebuilt_dir(out_dir@),
{
    let p = join_path(out_dir, CppCompiler::CLANG.as_str());
    let p = join_path(p.as_str(), "modules");
    let p = join_path(p.as_str(), "interfaces");
    let mut r = String::from_str("-fprebuilt-module-path=");
    r.append(p.as_str());
    r
}

/// Generates the module mapping argument for Clang: on Windows the module map that the
/// build system places in its intrinsics directory, elsewhere the implicit module maps.
pub fn implicit_module_map(out_dir: &str, on_windows: bool) -> (r: String)
    ensures
        on_windows ==> r@ == "-fmodule-map-file="@ + join(join(join(out_dir@, "zork"@), "intrinsics"@), "zork.modulemap"@),
        !on_windows ==> r@ == "-fimplicit-module-maps"@,
{
    if on_windows {
        let p = join_path(out_dir, "zork");
        let p = join_path(p.as_str(), "intrinsics");
        let p = join_path(p.as_str(), "zork.modulemap");
        let mut r = String::from_str("-fmodule-map-file=");
        r.append(p.as_str());
        r
    } else {
        String::from_str("-fimplicit-module-maps")
    }
}

/// The path of the module file that Clang builds for the interface `module`.
pub fn clang_module_file_path(out_dir: &str, module: &str) -> (r: String)
    ensures
        r@ == clang_bmi_path(out_dir@, module@),
{
    let p = join_path(out_dir, CppCompiler::CLANG.as_str());
    let p = join_path(p.as_str(), "modules");
    let p = join_path(p.as_str(), "interfaces");
    let mut p = join_path(p.as_str(), module);
    p.append(".");
    p.append(CppCompiler::CLANG.get_typical_bmi_extension());
    p
}

/// Generates, for every module interface in `dependencies`, the argument that makes
/// Clang load its built module file; the form that names the module is used from Clang
/// 16 on.
pub fn add_direct_module_interfaces_dependencies(
    dependencies: &Vec<String>,
    out_dir: &str,
    clang_major_version: i32,
) -> (r: Arguments)
    ensures
        r@.len() == dependencies@.len(),
        forall|i: int|
            0 <= i < dependencies@.len() ==> #[trigger] r@[i] == clang_module_file_arg(
                dependencies@[i]@,
                out_dir@,
                clang_major_version,
            ),
{
    let mut args = Arguments::new();
    let mut i: usize = 0;
    while i < dependencies.len()
        invariant
            0 <= i <= dependencies@.len(),
            args@.len() == i,
            forall|j: int|
                0 <= j < i ==> #[trigger] args@[j] == clang_module_file_arg(
                    dependencies@[j]@,
                    out_dir@,
                    clang_major_version,
                ),
        decreases dependencies@.len() - i,
    {
        let ifc_dep = dependencies[i].as_str();
        let module_file_path = clang_module_file_path(out_dir, ifc_dep);
        let mut argument = String::from_str("-fmodule-file=");
        if clang_major_version > 15 {
            argument.append(ifc_dep);
            argument.append("=");
        }
        argument.append(module_file_path.as_str());
        args.push(Argument::new(argument));
        i = i + 1;
    }
    args
}

} // verus!
