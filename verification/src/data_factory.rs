//! The arguments shared by the command lines of every translation unit, held once: the
//! ones common to every compiler and the ones that are particular to each.

use vstd::prelude::*;

use crate::arguments::{add_prebuilt_module_path, clang_prebuilt_dir, implicit_module_map, Argument, Arguments};
use crate::cache::ZorkCache;
use crate::compiler_model::{compiler_name, std_lib_name, CppCompiler, StdLib};
use crate::flyweight_data::general_args_of;
use crate::paths::{join, join_path};
use crate::project_model::ZorkModel;

verus! {

/// The arguments that every command line takes, whatever the compiler: the language
/// level and the user's extra arguments.
#[derive(Debug, Clone, PartialEq, Eq, Default)]
pub struct CommonArgs(pub Arguments);

impl CommonArgs {
    /// The arguments of the project `model`.
    pub fn from_model(model: &ZorkModel) -> (r: CommonArgs)
        ensures
            r.0@ == general_args_of(model),
    {
        let mut common_args = Arguments::new();
        common_args.push(model.compiler.language_level_arg());
        common_args.extend_from_slice(model.compiler.extra_args.as_slice());
        proof {
            assert(common_args@ =~= general_args_of(model));
        }
        CommonArgs(common_args)
    }

    /// A copy of the arguments.
    pub fn get_args(&self) -> (r: Arguments)
        ensures
            r@ == self.0@,
    {
        self.0.duplicate()
    }

    /// The arguments, in their order.
    pub fn get_args_slice(&self) -> (r: &[Argument])
        ensures
            crate::arguments::texts(r@) == self.0@,
    {
        self.0.as_slice()
    }
}

impl<'a> From<&'a ZorkModel> for CommonArgs {
    fn from(model: &'a ZorkModel) -> (r: CommonArgs) {
        CommonArgs::from_model(model)
    }
}

impl<'a> vstd::std_specs::convert::FromSpecImpl<&'a ZorkModel> for CommonArgs {
    open spec fn obeys_from_spec() -> bool {
        false
    }

    open spec fn from_spec(v: &'a ZorkModel) -> CommonArgs {
        choose|c: CommonArgs| c.0@ == general_args_of(v)
    }
}

/// A holder of the arguments that the command lines of one compiler share.
pub trait CompilerCommonArguments {
    /// The arguments.
    spec fn spec_args(&self) -> Seq<Seq<char>>;

    fn get_args(&self) -> (r: Arguments)
        ensures
            r@ == self.spec_args(),
    ;
}

/// The arguments that the command lines of Clang share.
#[derive(Debug, Clone, PartialEq, Eq)]
pub struct ClangCommonArgs {
    pub std_lib: StdLib,
    pub implicit_modules: String,
    pub implicit_module_map: String,
    pub prebuilt_module_path: String,
}

/// The module map argument of Clang for the output directory `out_dir`.
pub open spec fn implicit_module_map_text(out_dir: Seq<char>, on_windows: bool) -> Seq<char> {
    if on_windows {
        "-fmodule-map-file="@ + join(join(join(out_dir, "zork"@), "intrinsics"@), "zork.modulemap"@)
    } else {
        "-fimplicit-module-maps"@
    }
}

impl ClangCommonArgs {
    /// The shared arguments of Clang for the project `model`: the standard library it
    /// names (libc++ when it names none), the implicit modules, the module map and the
    /// place of the prebuilt module interfaces.
    pub fn new(model: &ZorkModel, on_windows: bool) -> (r: ClangCommonArgs)
        ensures
            r.std_lib == match model.compiler.std_lib {
                Some(l) => l,
                None => StdLib::LIBCPP,
            },
            r.implicit_modules@ == "-fimplicit-modules"@,
            r.implicit_module_map@ == implicit_module_map_text(model.build.output_dir@, on_windows),
            r.prebuilt_module_path@ == "-fprebuilt-module-path="@ + clang_prebuilt_dir(model.build.output_dir@),
    {
        let out_dir = model.build.output_dir.as_str();
        let std_lib = match model.compiler.std_lib {
            Some(l) => l,
            None => StdLib::default(),
        };
        ClangCommonArgs {
            std_lib,
            implicit_modules: String::from_str("-fimplicit-modules"),
            implicit_module_map: implicit_module_map(out_dir, on_windows),
            prebuilt_module_path: add_prebuilt_module_path(out_dir),
        }
    }
}

impl CompilerCommonArguments for ClangCommonArgs {
    open spec fn spec_args(&self) -> Seq<Seq<char>> {
        seq![
            "-stdlib="@ + std_lib_name(self.std_lib),
            self.implicit_modules@,
            self.implicit_module_map@,
            self.prebuilt_module_path@,
        ]
    }

    fn get_args(&self) -> (r: Arguments) {
        let mut args = Arguments::new();
        args.push(self.std_lib.as_arg());
        args.push_str(self.implicit_modules.as_str());
        args.push_str(self.implicit_module_map.as_str());
        args.push_str(self.prebuilt_module_path.as_str());
        proof {
            assert(args@ =~= self.spec_args());
        }
        args
    }
}

/// The arguments that the command lines of MSVC share.
#[derive(Debug, Clone, PartialEq, Eq)]
pub struct MsvcCommonArgs {
    pub exception_handling_model: String,
    pub no_logo: String,
    pub reference: String,
    pub ifc_search_dir: String,
    pub ifc_search_dir_value: String,
    pub stdlib_ref_path: String,
    pub c_compat_stdlib_ref_path: String,
}

impl MsvcCommonArgs {
    /// The shared arguments of MSVC for the project `model`: the exception handling
    /// model, no logo, where the module interfaces are searched, and the interfaces of the
    /// modular standard libraries that the cache knows.
    pub fn new(model: &ZorkModel, cache: &ZorkCache) -> (r: MsvcCommonArgs)
        ensures
            r.exception_handling_model@ == "/EHsc"@,
            r.no_logo@ == "/nologo"@,
            r.reference@ == "/reference"@,
            r.ifc_search_dir@ == "/ifcSearchDir"@,
            r.ifc_search_dir_value@ == join(
                join(join(model.build.output_dir@, compiler_name(model.compiler.cpp_compiler)), "modules"@),
                "interfaces"@,
            ),
            r.stdlib_ref_path@ == cache.compilers_metadata.msvc.stdlib_bmi_path@,
            r.c_compat_stdlib_ref_path@ == cache.compilers_metadata.msvc.ccompat_stdlib_bmi_path@,
    {
        let p = join_path(model.build.output_dir.as_str(), model.compiler.cpp_compiler.as_str());
        let p = join_path(p.as_str(), "modules");
        let p = join_path(p.as_str(), "interfaces");
        MsvcCommonArgs {
            exception_handling_model: String::from_str("/EHsc"),
            no_logo: String::from_str("/nologo"),
            reference: String::from_str("/reference"),
            ifc_search_dir: String::from_str("/ifcSearchDir"),
            ifc_search_dir_value: p,
            stdlib_ref_path: cache.compilers_metadata.msvc.stdlib_bmi_path.clone(),
            c_compat_stdlib_ref_path: cache.compilers_metadata.msvc.ccompat_stdlib_bmi_path.clone(),
        }
    }
}

impl CompilerCommonArguments for MsvcCommonArgs {
    open spec fn spec_args(&self) -> Seq<Seq<char>> {
        seq![
            self.exception_handling_model@,
            self.no_logo@,
            self.ifc_search_dir@,
            self.ifc_search_dir_value@,
            "/reference"@,
            "std="@ + self.stdlib_ref_path@,
            "/reference"@,
            "std.compat="@ + self.c_compat_stdlib_ref_path@,
        ]
    }

    fn get_args(&self) -> (r: Arguments) {
        let mut args = Arguments::new();
        args.push_str(self.exception_handling_model.as_str());
        args.push_str(self.no_logo.as_str());
        args.push_str(self.ifc_search_dir.as_str());
        args.push_str(self.ifc_search_dir_value.as_str());
        args.push_str("/reference");
        let mut std_ref = String::from_str("std=");
        std_ref.append(self.stdlib_ref_path.as_str());
        args.push(Argument::new(std_ref));
        args.push_str("/reference");
        let mut compat_ref = String::from_str("std.compat=");
        compat_ref.append(self.c_compat_stdlib_ref_path.as_str());
        args.push(Argument::new(compat_ref));
        proof {
            assert(args@ =~= self.spec_args());
        }
        args
    }
}

/// The arguments that the command lines of GCC share.
#[derive(Debug, Clone, PartialEq, Eq)]
pub struct GccCommonArgs {
    pub modules_ts: String,
}

impl GccCommonArgs {
    /// The shared arguments of GCC: the modules technical specification.
    pub fn new() -> (r: GccCommonArgs)
        ensures
            r.modules_ts@ == "-fmodules-ts"@,
    {
        GccCommonArgs { modules_ts: String::from_str("-fmodules-ts") }
    }
}

impl CompilerCommonArguments for GccCommonArgs {
    open spec fn spec_args(&self) -> Seq<Seq<char>> {
        seq!["-fmodules-ts"@]
    }

    fn get_args(&self) -> (r: Arguments) {
        let mut args = Arguments::new();
        args.push_str("-fmodules-ts");
        proof {
            assert(args@ =~= self.spec_args());
        }
        args
    }
}

/// The shared arguments of the compiler of a project.
#[derive(Debug, Clone, PartialEq, Eq)]
pub enum CompilerCommonArgs {
    Clang(ClangCommonArgs),
    Msvc(MsvcCommonArgs),
    Gcc(GccCommonArgs),
}

impl CompilerCommonArguments for CompilerCommonArgs {
    open spec fn spec_args(&self) -> Seq<Seq<char>> {
        match self {
            CompilerCommonArgs::Clang(a) => a.spec_args(),
            CompilerCommonArgs::Msvc(a) => a.spec_args(),
            CompilerCommonArgs::Gcc(a) => a.spec_args(),
        }
    }

    fn get_args(&self) -> (r: Arguments) {
        match self {
            CompilerCommonArgs::Clang(a) => a.get_args(),
            CompilerCommonArgs::Msvc(a) => a.get_args(),
            CompilerCommonArgs::Gcc(a) => a.get_args(),
        }
    }
}

/// The arguments that the command lines of the compiler of `model` share.
pub open spec fn compiler_common_args_of(model: &ZorkModel, cache: &ZorkCache, on_windows: bool) -> Seq<Seq<char>> {
    let out_dir = model.build.output_dir@;
    match model.compiler.cpp_compiler {
        CppCompiler::CLANG => seq![
            "-stdlib="@ + std_lib_name(
                match model.compiler.std_lib {
                    Some(l) => l,
                    None => StdLib::LIBCPP,
                },
            ),
            "-fimplicit-modules"@,
            implicit_module_map_text(out_dir, on_windows),
            "-fprebuilt-module-path="@ + clang_prebuilt_dir(out_dir),
        ],
        CppCompiler::MSVC => seq![
            "/EHsc"@,
            "/nologo"@,
            "/ifcSearchDir"@,
            join(join(join(out_dir, compiler_name(CppCompiler::MSVC)), "modules"@), "interfaces"@),
            "/reference"@,
            "std="@ + cache.compilers_metadata.msvc.stdlib_bmi_path@,
            "/reference"@,
            "std.compat="@ + cache.compilers_metadata.msvc.ccompat_stdlib_bmi_path@,
        ],
        CppCompiler::GCC => seq!["-fmodules-ts"@],
    }
}

/// The shared arguments of the compiler of the project `model`.
pub fn compiler_common_arguments_factory(model: &ZorkModel, cache: &ZorkCache, on_windows: bool) -> (r: CompilerCommonArgs)
    ensures
        match model.compiler.cpp_compiler {
            CppCompiler::CLANG => r is Clang,
            CppCompiler::MSVC => r is Msvc,
            CppCompiler::GCC => r is Gcc,
        },
        r.spec_args() == compiler_common_args_of(model, cache, on_windows),
{
    match model.compiler.cpp_compiler {
        CppCompiler::CLANG => CompilerCommonArgs::Clang(ClangCommonArgs::new(model, on_windows)),
        CppCompiler::MSVC => CompilerCommonArgs::Msvc(MsvcCommonArgs::new(model, cache)),
        CppCompiler::GCC => CompilerCommonArgs::Gcc(GccCommonArgs::new()),
    }
}

} // verus!
