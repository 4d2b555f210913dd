//! The command lines that build the standard libraries that compiler vendors ship as
//! named modules (`std` and `std.compat`).

use vstd::prelude::*;

use crate::arguments::{Argument, Arguments};
use crate::cache::{stdlib_slot, ClangMetadata, MsvcMetadata, ZorkCache};
use crate::command_lines::{SclView, SourceCommandLine, TranslationUnitStatus};
use crate::compiler_model::{CppCompiler, StdLibMode};
use crate::generator::{
    determine_translation_unit_status, lookup_file_state, refreshed, BuildContext, FileState,
};
use crate::paths::{join, join_path};
use crate::project_model::{tu_filename, tu_path, SourceFile};

verus! {

/// The interface source file of a modular standard library of MSVC, where its binary
/// module interface goes and where its object file goes.
pub open spec fn msvc_std_files(msvc: &MsvcMetadata, mode: StdLibMode) -> (SourceFile, Seq<char>, Seq<char>) {
    match mode {
        StdLibMode::Cpp => (msvc.vs_stdlib_path, msvc.stdlib_bmi_path@, msvc.stdlib_obj_path@),
        StdLibMode::CCompat => (msvc.vs_ccompat_stdlib_path, msvc.ccompat_stdlib_bmi_path@, msvc.ccompat_stdlib_obj_path@),
    }
}

/// The arguments that build a modular standard library with MSVC; `std.compat`
/// re-exports `std`, so it references the interface of `std`.
pub open spec fn msvc_std_args(msvc: &MsvcMetadata, mode: StdLibMode) -> Seq<Seq<char>> {
    let (sf, bmi, obj) = msvc_std_files(msvc, mode);
    let reference = if mode == StdLibMode::CCompat {
        seq!["/reference"@, msvc.stdlib_bmi_path@]
    } else {
        Seq::empty()
    };
    reference + seq![tu_path(&sf), "/ifcOutput"@, bmi, "/Fo"@ + obj]
}

/// The command line that builds a modular standard library with MSVC.
pub open spec fn msvc_std_cmd(msvc: &MsvcMetadata, mode: StdLibMode) -> SclView {
    let (sf, bmi, obj) = msvc_std_files(msvc, mode);
    SclView {
        directory: sf.path@,
        filename: tu_filename(sf.file_stem@, sf.extension@),
        args: msvc_std_args(msvc, mode),
        status: TranslationUnitStatus::PendingToBuild,
        byproduct: obj,
    }
}

/// Generates the command line that builds the modular standard library `stdlib_mode`
/// with MSVC, from what the cache knows about the installation.
pub fn generate_msvc_std_cmd(cache: &ZorkCache, stdlib_mode: StdLibMode) -> (r: SourceCommandLine)
    ensures
        r@ == msvc_std_cmd(&cache.compilers_metadata.msvc, stdlib_mode),
{
    let msvc = &cache.compilers_metadata.msvc;
    let mut arguments = Arguments::new();
    let (stdlib_sf, stdlib_bmi_path, stdlib_obj_path) = if stdlib_mode == StdLibMode::Cpp {
        (&msvc.vs_stdlib_path, &msvc.stdlib_bmi_path, &msvc.stdlib_obj_path)
    } else {
        arguments.push_str("/reference");
        arguments.push_str(msvc.stdlib_bmi_path.as_str());
        (&msvc.vs_ccompat_stdlib_path, &msvc.ccompat_stdlib_bmi_path, &msvc.ccompat_stdlib_obj_path)
    };
    arguments.push(Argument::new(crate::project_model::TranslationUnit::path(stdlib_sf)));
    arguments.push_str("/ifcOutput");
    arguments.push_str(stdlib_bmi_path.as_str());
    let mut fo = String::from_str("/Fo");
    fo.append(stdlib_obj_path.as_str());
    arguments.push(Argument::new(fo));
    proof {
        assert(arguments@ =~= msvc_std_args(msvc, stdlib_mode));
    }
    SourceCommandLine::new(stdlib_sf, arguments, Argument::new(stdlib_obj_path.clone()))
}

/// The interface file name of a modular standard library of Clang and where its module
/// file goes.
pub open spec fn clang_std_files(clang: &ClangMetadata, mode: StdLibMode) -> (Seq<char>, Seq<char>) {
    match mode {
        StdLibMode::Cpp => ("std.cppm"@, clang.stdlib_pcm@),
        StdLibMode::CCompat => ("std.compat.cppm"@, clang.ccompat_pcm@),
    }
}

/// The arguments that precompile a modular standard library with Clang; `std.compat`
/// loads the module file of `std`, which it re-exports.
pub open spec fn clang_std_args(clang: &ClangMetadata, mode: StdLibMode) -> Seq<Seq<char>> {
    let (filename, byproduct) = clang_std_files(clang, mode);
    let reference = if mode == StdLibMode::CCompat {
        seq!["-fmodule-file=std="@ + clang.stdlib_pcm@]
    } else {
        Seq::empty()
    };
    seq!["-Wno-reserved-module-identifier"@, "--precompile"@] + reference
        + seq![join(clang.libcpp_path@, filename), "-o"@, byproduct]
}

/// The command line that precompiles a modular standard library with Clang.
pub open spec fn clang_std_cmd(clang: &ClangMetadata, mode: StdLibMode) -> SclView {
    let (filename, byproduct) = clang_std_files(clang, mode);
    SclView {
        directory: clang.libcpp_path@,
        filename,
        args: clang_std_args(clang, mode),
        status: TranslationUnitStatus::PendingToBuild,
        byproduct,
    }
}

/// Generates the command line that precompiles the modular standard library
/// `stdlib_mode` shipped with libc++, from what the cache knows about the installation.
pub fn generate_clang_std_cmd(cache: &ZorkCache, stdlib_mode: StdLibMode) -> (r: SourceCommandLine)
    ensures
        r@ == clang_std_cmd(&cache.compilers_metadata.clang, stdlib_mode),
{
    let clang_metadata = &cache.compilers_metadata.clang;
    let mut args = Arguments::new();
    args.push_str("-Wno-reserved-module-identifier");
    args.push_str("--precompile");
    let (filename, byproduct) = match stdlib_mode {
        StdLibMode::Cpp => (String::from_str("std.cppm"), &clang_metadata.stdlib_pcm),
        StdLibMode::CCompat => {
            let mut reference = String::from_str("-fmodule-file=std=");
            reference.append(clang_metadata.stdlib_pcm.as_str());
            args.push(Argument::new(reference));
            (String::from_str("std.compat.cppm"), &clang_metadata.ccompat_pcm)
        },
    };
    proof {
        reveal_strlit("std.cppm");
        reveal_strlit("std.compat.cppm");
    }
    let input_file = join_path(clang_metadata.libcpp_path.as_str(), filename.as_str());
    args.push(Argument::new(input_file));
    args.push_str("-o");
    args.push_str(byproduct.as_str());
    proof {
        assert(args@ =~= clang_std_args(clang_metadata, stdlib_mode));
    }
    SourceCommandLine {
        directory: clang_metadata.libcpp_path.clone(),
        filename,
        args,
        status: TranslationUnitStatus::PendingToBuild,
        byproduct: Argument::new(byproduct.clone()),
    }
}

/// What the slot of a modular standard library holds after a run of the generation: the
/// cached command line with its status refreshed, or a new MSVC command line.
pub open spec fn stdlib_cmd_after(
    slot: Option<SclView>,
    msvc: &MsvcMetadata,
    mode: StdLibMode,
    ctx: BuildContext,
    files: Seq<FileState>,
) -> SclView {
    match slot {
        Some(c) => SclView { status: refreshed(ctx, files, c), ..c },
        None => msvc_std_cmd(msvc, mode),
    }
}

/// Refreshes the status of the cached command line of the modular standard library
/// `stdlib_mode`, or generates it (with MSVC) when there is none.
pub fn generate_modular_cpp_stdlib_args(
    cache: &mut ZorkCache,
    ctx: &BuildContext,
    files: &Vec<FileState>,
    stdlib_mode: StdLibMode,
)
    ensures
        stdlib_slot(final(cache).generated_commands.modules@, stdlib_mode) == Some(stdlib_cmd_after(
            stdlib_slot(old(cache).generated_commands.modules@, stdlib_mode),
            &old(cache).compilers_metadata.msvc,
            stdlib_mode,
            *ctx,
            files@,
        )),
        stdlib_mode == StdLibMode::Cpp ==> final(cache).generated_commands.modules@.c_compat_stdlib == old(cache).generated_commands.modules@.c_compat_stdlib,
        stdlib_mode == StdLibMode::CCompat ==> final(cache).generated_commands.modules@.cpp_stdlib == old(cache).generated_commands.modules@.cpp_stdlib,
        final(cache).generated_commands.modules@.system_modules == old(cache).generated_commands.modules@.system_modules,
        final(cache).generated_commands.modules@.interfaces == old(cache).generated_commands.modules@.interfaces,
        final(cache).generated_commands.modules@.implementations == old(cache).generated_commands.modules@.implementations,
        final(cache).generated_commands.targets == old(cache).generated_commands.targets,
        final(cache).generated_commands.flyweight_data == old(cache).generated_commands.flyweight_data,
        final(cache).metadata == old(cache).metadata,
        final(cache).compilers_metadata == old(cache).compilers_metadata,
{
    let cmd = match cache.get_cpp_stdlib_cmd_by_kind(stdlib_mode) {
        Some(cached) => {
            let mut c = cached.duplicate();
            let p = c.path();
            let (exists, changed) = lookup_file_state(files, p.as_str());
            c.status = determine_translation_unit_status(ctx.compiler, ctx.on_windows, exists, changed, &c);
            c
        },
        None => generate_msvc_std_cmd(cache, stdlib_mode),
    };
    cache.set_cpp_stdlib_cmd_by_kind(stdlib_mode, Some(cmd));
}

/// Generates (or refreshes) the command lines of both modular standard libraries; only
/// MSVC builds them for now, so with another compiler nothing changes.
pub fn generate_modular_stdlibs_cmds(cache: &mut ZorkCache, ctx: &BuildContext, files: &Vec<FileState>)
    ensures
        ctx.compiler != CppCompiler::MSVC ==> final(cache).generated_commands.modules@ == old(cache).generated_commands.modules@,
        ctx.compiler == CppCompiler::MSVC ==> final(cache).generated_commands.modules@.cpp_stdlib == Some(stdlib_cmd_after(
            old(cache).generated_commands.modules@.cpp_stdlib,
            &old(cache).compilers_metadata.msvc,
            StdLibMode::Cpp,
            *ctx,
            files@,
        )),
        ctx.compiler == CppCompiler::MSVC ==> final(cache).generated_commands.modules@.c_compat_stdlib == Some(stdlib_cmd_after(
            old(cache).generated_commands.modules@.c_compat_stdlib,
            &old(cache).compilers_metadata.msvc,
            StdLibMode::CCompat,
            *ctx,
            files@,
        )),
        final(cache).generated_commands.modules@.system_modules == old(cache).generated_commands.modules@.system_modules,
        final(cache).generated_commands.modules@.interfaces == old(cache).generated_commands.modules@.interfaces,
        final(cache).generated_commands.modules@.implementations == old(cache).generated_commands.modules@.implementations,
        final(cache).generated_commands.targets == old(cache).generated_commands.targets,
        final(cache).generated_commands.flyweight_data == old(cache).generated_commands.flyweight_data,
        final(cache).metadata == old(cache).metadata,
        final(cache).compilers_metadata == old(cache).compilers_metadata,
{
    if ctx.compiler == CppCompiler::MSVC {
        generate_modular_cpp_stdlib_args(cache, ctx, files, StdLibMode::Cpp);
        generate_modular_cpp_stdlib_args(cache, ctx, files, StdLibMode::CCompat);
    }
}

} // verus!
