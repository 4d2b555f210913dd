use indexmap::IndexMap;
use zork::arguments::{Argument, Arguments};
use zork::cache::{TranslationUnitKind, ZorkCache};
use zork::command_lines::{SourceCommandLine, TranslationUnitStatus};
use zork::compiler_model::{CompilerModel, CppCompiler, LanguageLevel, StdLib, StdLibMode};
use zork::generation::generate_commands_arguments;
use zork::generator::{
    generate_module_implementation_cmd, generate_module_interface_cmd, generate_sources_arguments, generate_sys_module_cmd,
    compute_translation_unit_status, determine_translation_unit_status, generate_bmi_file_path, generate_obj_file,
    generate_prebuilt_miu, generate_target_output, lookup_file_state, particular_checks_for_sent_to_build, FileState,
};
use zork::project_model::{
    BuildModel, ModuleImplementationModel, ModuleInterfaceModel, ModulePartitionModel, ModulesModel, ProjectModel,
    SourceFile, SourceSet, SystemModule, TargetModel, ZorkModel,
};
use zork::std_modules::{generate_clang_std_cmd, generate_msvc_std_cmd};
use zork::target::{TargetIdentifier, TargetKind};
use zork::target_commands::GenerationError;
use zork::targets_mapping::map_model_targets_to_cache;
use zork::worker::initialize_cache;

fn texts(args: &Arguments) -> Vec<String> {
    args.as_slice().iter().map(|a| a.value().clone()).collect()
}

fn interface(file_stem: &str, module_name: &str, deps: &[&str]) -> ModuleInterfaceModel {
    ModuleInterfaceModel {
        path: String::from("/p/ifc"),
        file_stem: file_stem.to_string(),
        extension: String::from("cppm"),
        module_name: module_name.to_string(),
        partition: None,
        dependencies: deps.iter().map(|d| d.to_string()).collect(),
    }
}

fn implementation(file_stem: &str, deps: &[&str]) -> ModuleImplementationModel {
    ModuleImplementationModel {
        path: String::from("/p/src"),
        file_stem: file_stem.to_string(),
        extension: String::from("cpp"),
        dependencies: deps.iter().map(|d| d.to_string()).collect(),
    }
}

fn model(compiler: CppCompiler) -> ZorkModel {
    let mut targets = IndexMap::new();
    targets.insert(
        TargetIdentifier::from("executable"),
        TargetModel {
            output_name: String::from("app"),
            sources: SourceSet {
                sources: vec![SourceFile { path: String::from("/p"), file_stem: String::from("main"), extension: String::from("cpp") }],
            },
            extra_args: vec![Argument::from("-Werr")],
            kind: TargetKind::Executable,
            enabled_for_current_program_iteration: true,
        },
    );
    ZorkModel {
        project: ProjectModel { name: String::from("p"), authors: vec![], compilation_db: true, code_root: None },
        compiler: CompilerModel {
            cpp_compiler: compiler,
            driver_path: String::new(),
            cpp_standard: LanguageLevel::CPP20,
            std_lib: Some(StdLib::LIBCPP),
            std_lib_installed_dir: None,
            extra_args: vec![Argument::from("-Wall")],
        },
        build: BuildModel { output_dir: String::from("/p/out") },
        modules: ModulesModel {
            base_ifcs_dir: String::from("ifc"),
            interfaces: vec![interface("math", "math", &[])],
            base_impls_dir: String::from("src"),
            implementations: vec![implementation("math", &["math"])],
            sys_modules: vec![SystemModule { path: String::new(), file_stem: String::from("iostream"), extension: String::new() }],
        },
        targets,
    }
}

fn cache() -> ZorkCache {
    let mut c = initialize_cache("/p/out/zork/cache", String::from("/p/out/zork/cache/c.json"), CppCompiler::CLANG);
    c.compilers_metadata.clang.major = 19;
    c
}

#[test]
fn bmi_and_object_paths() {
    assert_eq!(generate_bmi_file_path("/p/out", CppCompiler::CLANG, "dotted.module"), "/p/out/clang/modules/interfaces/dotted.module.pcm");
    assert_eq!(generate_bmi_file_path("/p/out", CppCompiler::MSVC, "m"), "/p/out/msvc/obj_files/m.obj");
    assert_eq!(generate_bmi_file_path("/p/out", CppCompiler::GCC, "m"), "/p/out/gcc/modules/interfaces/m.o");
    let i = interface("math", "math", &[]);
    assert_eq!(generate_obj_file(CppCompiler::CLANG, "/p/out", &i), "/p/out/clang/obj_files/math.o");
    assert_eq!(generate_obj_file(CppCompiler::MSVC, "/p/out", &i), "/p/out/msvc/obj_files/math.obj");
}

#[test]
fn clang_names_partitions_after_their_module() {
    let mut part = interface("interface_partition", "partitions", &[]);
    part.partition = Some(ModulePartitionModel {
        module: String::from("partitions"),
        partition_name: String::new(),
        is_internal_partition: false,
    });
    assert_eq!(
        generate_prebuilt_miu(CppCompiler::CLANG, "/p/out", &part),
        "/p/out/clang/modules/interfaces/partitions-interface_partition.pcm"
    );
    part.partition.as_mut().unwrap().partition_name = String::from("named");
    assert_eq!(generate_prebuilt_miu(CppCompiler::CLANG, "/p/out", &part), "/p/out/clang/modules/interfaces/partitions-named.pcm");
    assert_eq!(generate_prebuilt_miu(CppCompiler::GCC, "/p/out", &part), "/p/out/gcc/modules/interfaces/partitions.o");
}

#[test]
fn interface_command_lines() {
    let i = interface("math", "math", &["dep"]);
    let c = generate_module_interface_cmd(CppCompiler::CLANG, "/p/out", &i, 19);
    assert_eq!(
        texts(&c.args),
        vec![
            "-x",
            "c++-module",
            "--precompile",
            "-fprebuilt-module-path=/p/out/clang/modules/interfaces",
            "-fmodule-file=dep=/p/out/clang/modules/interfaces/dep.pcm",
            "-o",
            "/p/out/clang/modules/interfaces/math.pcm",
            "/p/ifc/math.cppm",
        ]
    );
    assert_eq!(c.directory, "/p/ifc");
    assert_eq!(c.filename, "math.cppm");
    assert_eq!(c.status, TranslationUnitStatus::PendingToBuild);
    assert_eq!(c.byproduct.value(), "/p/out/clang/modules/interfaces/math.pcm");

    let mut internal = interface("internal_partition", "partitions", &[]);
    internal.partition =
        Some(ModulePartitionModel { module: String::from("partitions"), partition_name: String::new(), is_internal_partition: true });
    let c = generate_module_interface_cmd(CppCompiler::MSVC, "/p/out", &internal, 0);
    assert_eq!(
        texts(&c.args),
        vec![
            "/ifcOutput",
            "/p/out/msvc/modules/interfaces",
            "/Fo/p/out/msvc/obj_files/partitions.obj",
            "/internalPartition",
            "/TP",
            "/p/ifc/internal_partition.cppm",
        ]
    );
    let c = generate_module_interface_cmd(CppCompiler::GCC, "/p/out", &i, 0);
    assert_eq!(texts(&c.args), vec!["-x", "c++", "-o", "/p/out/gcc/modules/interfaces/math.o", "/p/ifc/math.cppm"]);
}

#[test]
fn implementation_source_and_system_header_command_lines() {
    let m = implementation("math", &["math"]);
    let c = generate_module_implementation_cmd(CppCompiler::CLANG, "/p/out", &m, 15);
    assert_eq!(
        texts(&c.args),
        vec![
            "/p/src/math.cpp",
            "-o",
            "/p/out/clang/obj_files/math.o",
            "-fprebuilt-module-path=/p/out/clang/modules/interfaces",
            "-fmodule-file=/p/out/clang/modules/interfaces/math.pcm",
        ]
    );
    let c = generate_module_implementation_cmd(CppCompiler::MSVC, "/p/out", &m, 0);
    assert_eq!(texts(&c.args), vec!["/p/src/math.cpp", "/Fo/p/out/msvc/obj_files/math.obj"]);

    let s = SourceFile { path: String::from("/p"), file_stem: String::from("main"), extension: String::from("cpp") };
    let c = generate_sources_arguments(CppCompiler::CLANG, "/p/out", &s);
    assert_eq!(
        texts(&c.args),
        vec!["-fprebuilt-module-path=/p/out/clang/modules/interfaces", "-o/p/out/clang/obj_files/main.o", "/p/main.cpp"]
    );
    let c = generate_sources_arguments(CppCompiler::MSVC, "/p/out", &s);
    assert_eq!(texts(&c.args), vec!["/Fo/p/out/msvc/obj_files/main.obj", "/p/main.cpp"]);

    let h = SystemModule { path: String::new(), file_stem: String::from("iostream"), extension: String::new() };
    let c = generate_sys_module_cmd(CppCompiler::CLANG, "/p/out", &h);
    assert_eq!(
        texts(&c.args),
        vec!["-x", "c++-system-header", "iostream", "-o", "/p/out/clang/modules/interfaces/iostream.pcm"]
    );
    assert_eq!(c.directory, "");
    assert_eq!(c.filename, "iostream.");
    let c = generate_sys_module_cmd(CppCompiler::GCC, "/p/out", &h);
    assert_eq!(texts(&c.args), vec!["-x", "c++-system-header", "iostream", "-fmodules-ts"]);
}

#[test]
fn statuses_across_runs() {
    let mut c = generate_sources_arguments(
        CppCompiler::GCC,
        "/p/out",
        &SourceFile { path: String::from("/p"), file_stem: String::from("a"), extension: String::from("cpp") },
    );
    c.status = TranslationUnitStatus::Success;
    assert_eq!(compute_translation_unit_status(&c), TranslationUnitStatus::Cached);
    assert_eq!(determine_translation_unit_status(CppCompiler::GCC, false, false, false, &c), TranslationUnitStatus::ToDelete);
    assert_eq!(determine_translation_unit_status(CppCompiler::GCC, false, true, true, &c), TranslationUnitStatus::PendingToBuild);
    assert_eq!(determine_translation_unit_status(CppCompiler::GCC, false, true, false, &c), TranslationUnitStatus::Cached);
    assert_eq!(determine_translation_unit_status(CppCompiler::CLANG, true, true, false, &c), TranslationUnitStatus::PendingToBuild);
    c.status = TranslationUnitStatus::Failed;
    assert_eq!(determine_translation_unit_status(CppCompiler::GCC, false, true, false, &c), TranslationUnitStatus::PendingToBuild);
    assert!(particular_checks_for_sent_to_build(CppCompiler::CLANG, true));
    assert!(!particular_checks_for_sent_to_build(CppCompiler::MSVC, true));

    let table = vec![
        FileState { path: String::from("/a"), exists: false, changed: true },
        FileState { path: String::from("/a"), exists: true, changed: false },
    ];
    assert_eq!(lookup_file_state(&table, "/a"), (false, true));
    assert_eq!(lookup_file_state(&table, "/b"), (true, true));
}

#[test]
fn target_output_names() {
    assert_eq!(generate_target_output("/p/out", CppCompiler::CLANG, "app", false), "/p/out/clang/app");
    assert_eq!(generate_target_output("/p/out", CppCompiler::MSVC, "app", true), "/p/out/msvc/app.exe");
}

#[test]
fn std_library_command_lines() {
    let mut cache = cache();
    cache.compilers_metadata.msvc.vs_stdlib_path =
        SourceFile { path: String::from("C:/vs/modules"), file_stem: String::from("std"), extension: String::from("ixx") };
    cache.compilers_metadata.msvc.vs_ccompat_stdlib_path =
        SourceFile { path: String::from("C:/vs/modules"), file_stem: String::from("std.compat"), extension: String::from("ixx") };
    cache.compilers_metadata.msvc.stdlib_bmi_path = String::from("/p/out/msvc/modules/std/std.ifc");
    cache.compilers_metadata.msvc.stdlib_obj_path = String::from("/p/out/msvc/modules/std/std.obj");
    cache.compilers_metadata.msvc.ccompat_stdlib_bmi_path = String::from("/p/out/msvc/modules/std/std.compat.ifc");
    cache.compilers_metadata.msvc.ccompat_stdlib_obj_path = String::from("/p/out/msvc/modules/std/std.compat.obj");
    let c = generate_msvc_std_cmd(&cache, StdLibMode::CCompat);
    assert_eq!(
        texts(&c.args),
        vec![
            "/reference",
            "/p/out/msvc/modules/std/std.ifc",
            "C:/vs/modules/std.compat.ixx",
            "/ifcOutput",
            "/p/out/msvc/modules/std/std.compat.ifc",
            "/Fo/p/out/msvc/modules/std/std.compat.obj",
        ]
    );
    assert_eq!(c.byproduct.value(), "/p/out/msvc/modules/std/std.compat.obj");
    assert_eq!(c.filename, "std.compat.ixx");

    cache.compilers_metadata.clang.libcpp_path = String::from("/usr/share/libc++/v1");
    cache.compilers_metadata.clang.stdlib_pcm = String::from("/p/out/clang/std.pcm");
    cache.compilers_metadata.clang.ccompat_pcm = String::from("/p/out/clang/std.compat.pcm");
    let c = generate_clang_std_cmd(&cache, StdLibMode::CCompat);
    assert_eq!(
        texts(&c.args),
        vec![
            "-Wno-reserved-module-identifier",
            "--precompile",
            "-fmodule-file=std=/p/out/clang/std.pcm",
            "/usr/share/libc++/v1/std.compat.cppm",
            "-o",
            "/p/out/clang/std.compat.pcm",
        ]
    );
    let c = generate_clang_std_cmd(&cache, StdLibMode::Cpp);
    assert_eq!(c.filename, "std.cppm");
    assert_eq!(c.byproduct.value(), "/p/out/clang/std.pcm");
}

#[test]
fn generation_of_a_whole_project_and_a_second_run() {
    let mut model = model(CppCompiler::CLANG);
    let mut cache = cache();
    map_model_targets_to_cache(&mut model, &mut cache, &None).unwrap();
    let files: Vec<FileState> = vec![];
    generate_commands_arguments(&model, &mut cache, false, &files).unwrap();

    let m = &cache.generated_commands.modules;
    assert!(m.cpp_stdlib.is_none());
    assert_eq!(m.system_modules.len(), 1);
    assert_eq!(m.interfaces.len(), 1);
    assert_eq!(m.implementations.len(), 1);
    assert!(cache.metadata.generate_compilation_database);
    let fw = cache.generated_commands.flyweight_data.as_ref().unwrap();
    assert_eq!(texts(&fw.general_args), vec!["-std=c++20", "-Wall"]);
    assert_eq!(fw.compile_but_dont_link.value(), "-c");
    let target = cache.generated_commands.targets.get(&TargetIdentifier::from("executable")).unwrap();
    assert_eq!(target.sources.len(), 1);
    assert_eq!(target.linker.target.value(), "/p/out/clang/executable");
    assert_eq!(texts(&target.linker.extra_args), vec!["-Werr"]);

    // The builds succeed, nothing changes on disk: the next run takes everything from the cache.
    cache.generated_commands.modules.interfaces[0].status = TranslationUnitStatus::Success;
    cache.generated_commands.modules.implementations[0].status = TranslationUnitStatus::Success;
    cache.generated_commands.targets.get_mut(&TargetIdentifier::from("executable")).unwrap().sources[0].status =
        TranslationUnitStatus::Success;
    cache.metadata.generate_compilation_database = false;
    let files = vec![
        FileState { path: String::from("/p/ifc/math.cppm"), exists: true, changed: false },
        FileState { path: String::from("/p/src/math.cpp"), exists: true, changed: false },
        FileState { path: String::from("/p/main.cpp"), exists: true, changed: false },
    ];
    generate_commands_arguments(&model, &mut cache, false, &files).unwrap();
    let m = &cache.generated_commands.modules;
    assert_eq!(m.interfaces.len(), 1);
    assert_eq!(m.implementations.len(), 1);
    assert_eq!(m.interfaces[0].status, TranslationUnitStatus::Cached);
    assert_eq!(m.implementations[0].status, TranslationUnitStatus::Cached);
    let target = cache.generated_commands.targets.get(&TargetIdentifier::from("executable")).unwrap();
    assert_eq!(target.sources.len(), 1);
    assert_eq!(target.sources[0].status, TranslationUnitStatus::Cached);
    // The command line of the system header is found again: nothing new is generated.
    assert_eq!(m.system_modules.len(), 1);
    assert!(!cache.metadata.generate_compilation_database);
}

#[test]
fn msvc_generates_its_standard_libraries() {
    let mut model = model(CppCompiler::MSVC);
    let mut cache = cache();
    cache.compilers_metadata.msvc.vs_stdlib_path =
        SourceFile { path: String::from("/vs/modules"), file_stem: String::from("std"), extension: String::from("ixx") };
    map_model_targets_to_cache(&mut model, &mut cache, &None).unwrap();
    generate_commands_arguments(&model, &mut cache, true, &vec![]).unwrap();
    let m = &cache.generated_commands.modules;
    assert!(m.cpp_stdlib.is_some());
    assert!(m.c_compat_stdlib.is_some());
    assert!(m.system_modules.is_empty());
    let target = cache.generated_commands.targets.get(&TargetIdentifier::from("executable")).unwrap();
    assert_eq!(target.linker.target.value(), "/Fe/p/out/msvc/executable.exe");

    let cpp = cache.get_cmd_for_translation_unit_kind(
        &SourceFile { path: String::from("/vs/modules"), file_stem: String::from("std"), extension: String::from("ixx") },
        &TranslationUnitKind::ModularStdLib(StdLibMode::Cpp),
    );
    assert_eq!(cpp.unwrap().filename, "std.ixx");

    // A deleted file is marked for deletion on the next run.
    let files = vec![FileState { path: String::from("/vs/modules/std.ixx"), exists: false, changed: false }];
    generate_commands_arguments(&model, &mut cache, true, &files).unwrap();
    assert_eq!(cache.generated_commands.modules.cpp_stdlib.as_ref().unwrap().status, TranslationUnitStatus::ToDelete);
}

#[test]
fn an_enabled_target_without_cache_entry_fails_the_generation() {
    let model = model(CppCompiler::GCC);
    let mut cache = cache();
    let r = generate_commands_arguments(&model, &mut cache, false, &vec![]);
    assert_eq!(r, Err(GenerationError::TargetEntryNotFound(TargetIdentifier::from("executable"))));
}

#[test]
fn looking_up_cached_command_lines_by_kind() {
    let mut model = model(CppCompiler::GCC);
    let mut cache = cache();
    map_model_targets_to_cache(&mut model, &mut cache, &None).unwrap();
    generate_commands_arguments(&model, &mut cache, false, &vec![]).unwrap();
    let src = SourceFile { path: String::from("/p"), file_stem: String::from("main"), extension: String::from("cpp") };
    let found = cache.get_cmd_for_translation_unit_kind(&src, &TranslationUnitKind::SourceFile(TargetIdentifier::from("executable")));
    assert_eq!(found.map(|c: &SourceCommandLine| c.filename.clone()), Some(String::from("main.cpp")));
    let missing = cache.get_cmd_for_translation_unit_kind(&src, &TranslationUnitKind::SourceFile(TargetIdentifier::from("other")));
    assert!(missing.is_none());
    let ifc = interface("math", "math", &[]);
    assert!(cache.get_cmd_for_translation_unit_kind(&ifc, &TranslationUnitKind::ModuleInterface).is_some());
    assert!(cache.get_cmd_for_translation_unit_kind(&ifc, &TranslationUnitKind::ModuleImplementation).is_none());
    let header = SystemModule { path: String::new(), file_stem: String::from("iostream"), extension: String::new() };
    let found = cache.get_cmd_for_translation_unit_kind(&header, &TranslationUnitKind::SystemHeader);
    assert_eq!(found.map(|c: &SourceCommandLine| c.filename.clone()), Some(String::from("iostream.")));
    let other = SystemModule { path: String::new(), file_stem: String::from("vector"), extension: String::new() };
    assert!(cache.get_cmd_for_translation_unit_kind(&other, &TranslationUnitKind::SystemHeader).is_none());
    assert_eq!(cache.count_total_generated_commands(), 1 + 1 + 1 + 2 + 1);
    assert_eq!(cache.get_all_commands_iter().len(), 3);
}
