use indexmap::IndexMap;
use zork::arguments::{Argument, Arguments};
use zork::compiler_model::{CompilerModel, CppCompiler, LanguageLevel, StdLib, StdLibMode};
use zork::data_factory::{
    compiler_common_arguments_factory, ClangCommonArgs, CommonArgs, CompilerCommonArguments, GccCommonArgs,
};
use zork::flyweight_data::FlyweightData;
use zork::project_model::{BuildModel, ModulesModel, ProjectModel, ZorkModel};
use zork::worker::initialize_cache;

fn texts(args: &Arguments) -> Vec<String> {
    args.as_slice().iter().map(|a| a.value().clone()).collect()
}

fn model(compiler: CppCompiler, std_lib: Option<StdLib>) -> ZorkModel {
    ZorkModel {
        project: ProjectModel { name: String::from("p"), authors: vec![], compilation_db: false, code_root: None },
        compiler: CompilerModel {
            cpp_compiler: compiler,
            driver_path: String::from("clang++-19"),
            cpp_standard: LanguageLevel::LATEST,
            std_lib,
            std_lib_installed_dir: None,
            extra_args: vec![Argument::from("-O3")],
        },
        build: BuildModel { output_dir: String::from("/p/out") },
        modules: ModulesModel::default(),
        targets: IndexMap::new(),
    }
}

#[test]
fn common_arguments() {
    let m = model(CppCompiler::MSVC, None);
    let common = CommonArgs::from_model(&m);
    assert_eq!(texts(&common.get_args()), vec!["/std:c++latest", "-O3"]);
    assert_eq!(common.get_args_slice().len(), 2);
    assert_eq!(texts(&CommonArgs::from(&m).get_args()), vec!["/std:c++latest", "-O3"]);
    assert_eq!(m.compiler.cpp_compiler.get_driver(&m.compiler), "clang++-19");
}

#[test]
fn compiler_specific_arguments() {
    let clang = model(CppCompiler::CLANG, None);
    let args = ClangCommonArgs::new(&clang, false);
    assert_eq!(
        texts(&args.get_args()),
        vec!["-stdlib=libc++", "-fimplicit-modules", "-fimplicit-module-maps", "-fprebuilt-module-path=/p/out/clang/modules/interfaces"]
    );
    let on_windows = ClangCommonArgs::new(&model(CppCompiler::CLANG, Some(StdLib::STDLIBCPP)), true);
    assert_eq!(texts(&on_windows.get_args())[0], "-stdlib=libstdc++");
    assert_eq!(texts(&on_windows.get_args())[2], "-fmodule-map-file=/p/out/zork/intrinsics/zork.modulemap");
    assert_eq!(texts(&GccCommonArgs::new().get_args()), vec!["-fmodules-ts"]);

    let mut cache = initialize_cache("/c", String::from("/c/f.json"), CppCompiler::MSVC);
    cache.compilers_metadata.msvc.stdlib_bmi_path = String::from("/s/std.ifc");
    cache.compilers_metadata.msvc.ccompat_stdlib_bmi_path = String::from("/s/std.compat.ifc");
    let msvc = compiler_common_arguments_factory(&model(CppCompiler::MSVC, None), &cache, true);
    assert_eq!(
        texts(&msvc.get_args()),
        vec![
            "/EHsc",
            "/nologo",
            "/ifcSearchDir",
            "/p/out/msvc/modules/interfaces",
            "/reference",
            "std=/s/std.ifc",
            "/reference",
            "std.compat=/s/std.compat.ifc",
        ]
    );
}

#[test]
fn shared_data_per_compiler() {
    let mut cache = initialize_cache("/c", String::from("/c/f.json"), CppCompiler::CLANG);
    cache.compilers_metadata.clang.major = 18;
    cache.compilers_metadata.clang.stdlib_pcm = String::from("/o/std.pcm");
    cache.compilers_metadata.clang.ccompat_pcm = String::from("/o/std.compat.pcm");
    let fw = FlyweightData::new(&model(CppCompiler::CLANG, Some(StdLib::LIBCPP)), &cache.compilers_metadata, false);
    assert_eq!(texts(&fw.general_args), vec!["-std=c++latest", "-O3"]);
    assert_eq!(texts(&fw.shared_args), vec!["-stdlib=libc++", "-fprebuilt-module-path=/p/out/clang/modules/interfaces"]);
    assert_eq!(texts(&fw.std_references), vec!["-fmodule-file=std=/o/std.pcm", "-fmodule-file=std.compat=/o/std.compat.pcm"]);
    cache.compilers_metadata.clang.major = 17;
    let fw = FlyweightData::new(&model(CppCompiler::CLANG, None), &cache.compilers_metadata, false);
    assert_eq!(
        texts(&fw.shared_args),
        vec!["-fprebuilt-module-path=/p/out/clang/modules/interfaces", "-fimplicit-modules", "-fimplicit-module-maps"]
    );
    assert!(fw.std_references.as_slice().is_empty());
    assert_eq!(StdLibMode::CCompat.printable_info(), "C++ C compat standard library implementation");
    assert_eq!(StdLib::LIBCPP.as_arg().value(), "-stdlib=libc++");
}
