//! The arguments shared by many command lines, held once.

use vstd::prelude::*;

use crate::arguments::{
    add_prebuilt_module_path, clang_prebuilt_dir, implicit_module_map, Argument, Arguments,
};
use crate::cache::CompilersMetadata;
use crate::compiler_model::{compiler_name, language_level_text, std_lib_name, CppCompiler};
use crate::env_vars::EnvVars;
use crate::paths::{join, join_path};
use crate::project_model::{argument_texts, ZorkModel};

verus! {

/// The arguments that all the command lines of a build share, held once, together with
/// the environment that the compiler runs in.
#[derive(Debug, Clone, PartialEq, Eq)]
pub struct FlyweightData {
    pub general_args: Arguments,
    pub shared_args: Arguments,
    pub std_references: Arguments,
    pub compile_but_dont_link: Argument,
    pub env_vars: EnvVars,
}

/// The arguments of every command line: the language level and the user's extra ones.
pub open spec fn general_args_of(model: &ZorkModel) -> Seq<Seq<char>> {
    seq![language_level_text(model.compiler.cpp_compiler, model.compiler.cpp_standard)]
        + argument_texts(model.compiler.extra_args@)
}

/// The argument that selects a standard library, when the model names one.
pub open spec fn stdlib_args_of(model: &ZorkModel) -> Seq<Seq<char>> {
    match model.compiler.std_lib {
        Some(lib) => seq!["-stdlib="@ + std_lib_name(lib)],
        None => Seq::empty(),
    }
}

/// The arguments shared by the compiler specific command lines.
pub open spec fn shared_args_of(model: &ZorkModel, metadata: &CompilersMetadata, on_windows: bool) -> Seq<Seq<char>> {
    let out_dir = model.build.output_dir@;
    match model.compiler.cpp_compiler {
        CppCompiler::CLANG => stdlib_args_of(model) + seq!["-fprebuilt-module-path="@ + clang_prebuilt_dir(out_dir)]
            + if metadata.clang.major <= 17 {
            seq![
                "-fimplicit-modules"@,
                if on_windows {
                    "-fmodule-map-file="@ + join(join(join(out_dir, "zork"@), "intrinsics"@), "zork.modulemap"@)
                } else {
                    "-fimplicit-module-maps"@
                },
            ]
        } else {
            Seq::empty()
        },
        CppCompiler::MSVC => seq![
            "/EHsc"@,
            "/nologo"@,
            "/ifcSearchDir"@,
            join(join(join(out_dir, compiler_name(CppCompiler::MSVC)), "modules"@), "interfaces"@),
        ],
        CppCompiler::GCC => seq!["-fmodules-ts"@],
    }
}

/// The arguments that reference the modular standard libraries.
pub open spec fn std_references_of(model: &ZorkModel, metadata: &CompilersMetadata) -> Seq<Seq<char>> {
    match model.compiler.cpp_compiler {
        CppCompiler::CLANG => if metadata.clang.major <= 17 {
            Seq::empty()
        } else {
            seq![
                "-fmodule-file=std="@ + metadata.clang.stdlib_pcm@,
                "-fmodule-file=std.compat="@ + metadata.clang.ccompat_pcm@,
            ]
        },
        CppCompiler::MSVC => seq![
            "/reference"@,
            metadata.msvc.stdlib_bmi_path@,
            "/reference"@,
            metadata.msvc.ccompat_stdlib_bmi_path@,
        ],
        CppCompiler::GCC => Seq::empty(),
    }
}

/// The flag that makes a compiler build without linking.
pub open spec fn compile_only_flag(c: CppCompiler) -> Seq<char> {
    match c {
        CppCompiler::CLANG | CppCompiler::GCC => "-c"@,
        CppCompiler::MSVC => "/c"@,
    }
}

/// Whether `f` holds the shared data of the project `model` built with the installations
/// that `metadata` describes.
pub open spec fn flyweight_for(f: &FlyweightData, model: &ZorkModel, metadata: &CompilersMetadata, on_windows: bool) -> bool {
    &&& f.general_args@ == general_args_of(model)
    &&& f.shared_args@ == shared_args_of(model, metadata, on_windows)
    &&& f.std_references@ == std_references_of(model, metadata)
    &&& f.compile_but_dont_link@ == compile_only_flag(model.compiler.cpp_compiler)
    &&& f.env_vars@ == metadata.msvc.env_vars@
}

fn push_path(args: &mut Arguments, s: &String)
    ensures
        final(args)@ == old(args)@.push(s@),
{
    args.push(Argument::new(s.clone()));
}

/// Generates the shared arguments and the standard library references for MSVC.
fn generate_msvc_flyweight_args(model: &ZorkModel, metadata: &CompilersMetadata) -> (r: (Arguments, Arguments))
    requires
        model.compiler.cpp_compiler == CppCompiler::MSVC,
    ensures
        r.0@ == shared_args_of(model, metadata, false),
        r.1@ == std_references_of(model, metadata),
{
    let out_dir = model.build.output_dir.as_str();
    let mut shared = Arguments::new();
    let mut std_references = Arguments::new();
    shared.push_str("/EHsc");
    shared.push_str("/nologo");
    shared.push_str("/ifcSearchDir");
    let p = join_path(out_dir, model.compiler.cpp_compiler.as_str());
    let p = join_path(p.as_str(), "modules");
    let p = join_path(p.as_str(), "interfaces");
    shared.push(Argument::new(p));
    std_references.push_str("/reference");
    push_path(&mut std_references, &metadata.msvc.stdlib_bmi_path);
    std_references.push_str("/reference");
    push_path(&mut std_references, &metadata.msvc.ccompat_stdlib_bmi_path);
    proof {
        assert(shared@ =~= shared_args_of(model, metadata, false));
        assert(std_references@ =~= std_references_of(model, metadata));
    }
    (shared, std_references)
}

/// Generates the shared arguments and the standard library references for Clang: up to
/// Clang 17 the implicit modules and module maps, from Clang 18 on the references to the
/// built modular standard libraries.
fn generate_clang_flyweight_args(model: &ZorkModel, metadata: &CompilersMetadata, on_windows: bool) -> (r: (Arguments, Arguments))
    requires
        model.compiler.cpp_compiler == CppCompiler::CLANG,
    ensures
        r.0@ == shared_args_of(model, metadata, on_windows),
        r.1@ == std_references_of(model, metadata),
{
    let out_dir = model.build.output_dir.as_str();
    let mut shared = Arguments::new();
    let mut std_references = Arguments::new();
    shared.push_opt(model.compiler.stdlib_arg());
    shared.push(Argument::new(add_prebuilt_module_path(out_dir)));
    if metadata.clang.major <= 17 {
        shared.push_str("-fimplicit-modules");
        shared.push(Argument::new(implicit_module_map(out_dir, on_windows)));
    } else {
        let mut a = String::from_str("-fmodule-file=std=");
        a.append(metadata.clang.stdlib_pcm.as_str());
        std_references.push(Argument::new(a));
        let mut b = String::from_str("-fmodule-file=std.compat=");
        b.append(metadata.clang.ccompat_pcm.as_str());
        std_references.push(Argument::new(b));
    }
    proof {
        assert(shared@ =~= shared_args_of(model, metadata, on_windows));
        assert(std_references@ =~= std_references_of(model, metadata));
    }
    (shared, std_references)
}

/// Generates the shared arguments for GCC.
fn generate_gcc_flyweight_args() -> (r: (Arguments, Arguments))
    ensures
        r.0@ == seq!["-fmodules-ts"@],
        r.1@ == Seq::<Seq<char>>::empty(),
{
    let mut shared = Arguments::new();
    shared.push_str("-fmodules-ts");
    proof {
        assert(shared@ =~= seq!["-fmodules-ts"@]);
    }
    (shared, Arguments::new())
}

impl FlyweightData {
    /// The shared data for the compiler of `program_data`. The environment is the one
    /// recorded for MSVC, whatever the compiler.
    pub fn new(program_data: &ZorkModel, compilers_metadata: &CompilersMetadata, on_windows: bool) -> (r: FlyweightData)
        ensures
            flyweight_for(&r, program_data, compilers_metadata, on_windows),
    {
        let mut general_args = Arguments::new();
        general_args.push(program_data.compiler.language_level_arg());
        general_args.extend_from_slice(program_data.compiler.extra_args.as_slice());
        let (shared_args, std_references) = match program_data.compiler.cpp_compiler {
            CppCompiler::CLANG => generate_clang_flyweight_args(program_data, compilers_metadata, on_windows),
            CppCompiler::MSVC => {
                let r = generate_msvc_flyweight_args(program_data, compilers_metadata);
                r
            },
            CppCompiler::GCC => generate_gcc_flyweight_args(),
        };
        let compile_but_dont_link = Argument::from_str(
            match program_data.compiler.cpp_compiler {
                CppCompiler::CLANG | CppCompiler::GCC => "-c",
                CppCompiler::MSVC => "/c",
            },
        );
        proof {
            assert(general_args@ =~= general_args_of(program_data));
        }
        FlyweightData {
            general_args,
            shared_args,
            std_references,
            compile_but_dont_link,
            env_vars: compilers_metadata.msvc.env_vars.duplicate(),
        }
    }
}

} // verus!
