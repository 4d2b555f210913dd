use indexmap::IndexMap;
use zork::arguments::{Argument, Arguments};
use zork::cache::ZorkCache;
use zork::command_lines::{
    handle_command_execution_result, LinkerCommandLine, ModulesCommands, SourceCommandLine, TranslationUnitStatus,
};
use zork::compiler_model::{CompilerModel, CppCompiler, LanguageLevel};
use zork::execution::{
    binaries_to_run, generated_binary, get_std_modules_commands, get_user_modules_translation_units_commands,
    linker_args, map_generated_commands_to_compilation_db, record_linker_outcome, record_module_outcome,
    record_source_outcome, source_command_args, std_module_args, target_shared_args, user_module_args,
    CompilationDatabaseError, ModuleCommandRef,
};
use zork::flyweight_data::FlyweightData;
use zork::project_model::{BuildModel, ModulesModel, ProjectModel, ZorkModel};
use zork::target::{Target, TargetIdentifier, TargetKind};
use zork::worker::initialize_cache;

fn texts(args: &Arguments) -> Vec<String> {
    args.as_slice().iter().map(|a| a.value().clone()).collect()
}

fn args(v: &[&str]) -> Arguments {
    Arguments::from_vec(v.iter().map(|s| Argument::from(*s)).collect())
}

fn scl(name: &str, status: TranslationUnitStatus) -> SourceCommandLine {
    SourceCommandLine {
        directory: String::from("/p"),
        filename: format!("{name}.cpp"),
        args: args(&[name]),
        status,
        byproduct: Argument::from(format!("/o/{name}.o").as_str()),
    }
}

fn flyweight() -> FlyweightData {
    let mut cache = initialize_cache("/c", String::from("/c/f.json"), CppCompiler::GCC);
    let model = model();
    let _ = &mut cache;
    FlyweightData::new(&model, &cache.compilers_metadata, false)
}

fn model() -> ZorkModel {
    ZorkModel {
        project: ProjectModel { name: String::from("p"), authors: vec![], compilation_db: true, code_root: None },
        compiler: CompilerModel {
            cpp_compiler: CppCompiler::GCC,
            driver_path: String::new(),
            cpp_standard: LanguageLevel::CPP23,
            std_lib: None,
            std_lib_installed_dir: None,
            extra_args: vec![],
        },
        build: BuildModel { output_dir: String::from("/p/out") },
        modules: ModulesModel::default(),
        targets: IndexMap::new(),
    }
}

fn modules() -> ModulesCommands {
    ModulesCommands {
        cpp_stdlib: Some(scl("std", TranslationUnitStatus::PendingToBuild)),
        c_compat_stdlib: Some(scl("std.compat", TranslationUnitStatus::Cached)),
        system_modules: vec![scl("iostream", TranslationUnitStatus::PendingToBuild)],
        interfaces: vec![scl("a", TranslationUnitStatus::Success), scl("b", TranslationUnitStatus::PendingToBuild)],
        implementations: vec![scl("c", TranslationUnitStatus::PendingToBuild)],
    }
}

#[test]
fn only_pending_command_lines_run() {
    let m = modules();
    assert_eq!(get_std_modules_commands(&m), vec![ModuleCommandRef::CppStdlib]);
    assert_eq!(
        get_user_modules_translation_units_commands(&m),
        vec![ModuleCommandRef::SystemModule(0), ModuleCommandRef::Interface(1), ModuleCommandRef::Implementation(0)]
    );
}

#[test]
fn outcomes_set_statuses_and_stop_the_run_on_failure() {
    assert_eq!(handle_command_execution_result(Some(true)), TranslationUnitStatus::Success);
    assert_eq!(handle_command_execution_result(Some(false)), TranslationUnitStatus::Failed);
    assert_eq!(handle_command_execution_result(None), TranslationUnitStatus::Error);

    let mut m = modules();
    assert!(record_module_outcome(&mut m, ModuleCommandRef::Interface(1), Some(true)));
    assert_eq!(m.interfaces[1].status, TranslationUnitStatus::Success);
    assert_eq!(m.interfaces[0].status, TranslationUnitStatus::Success);
    assert!(!record_module_outcome(&mut m, ModuleCommandRef::CppStdlib, Some(false)));
    assert_eq!(m.cpp_stdlib.as_ref().unwrap().status, TranslationUnitStatus::Failed);
    assert!(!record_module_outcome(&mut m, ModuleCommandRef::Implementation(0), None));
    assert_eq!(m.implementations[0].status, TranslationUnitStatus::Error);
    assert_eq!(get_user_modules_translation_units_commands(&m), vec![ModuleCommandRef::SystemModule(0)]);

    let mut t = Target::new_default_for_kind(TargetKind::Executable);
    t.sources.push(scl("main", TranslationUnitStatus::PendingToBuild));
    assert!(record_source_outcome(&mut t, 0, Some(true)));
    assert_eq!(t.sources[0].status, TranslationUnitStatus::Success);
    let mut l = LinkerCommandLine::new_empty();
    assert!(!record_linker_outcome(&mut l, Some(false)));
    assert_eq!(l.execution_result, TranslationUnitStatus::Failed);
}

#[test]
fn full_argument_lists() {
    let fw = flyweight();
    assert_eq!(texts(&fw.general_args), vec!["-std=c++23"]);
    assert_eq!(texts(&fw.shared_args), vec!["-fmodules-ts"]);
    let c = scl("a", TranslationUnitStatus::PendingToBuild);
    assert_eq!(texts(&std_module_args(&fw, &c)), vec!["-std=c++23", "-fmodules-ts", "-c", "a"]);
    assert_eq!(texts(&user_module_args(&fw, &c)), vec!["-std=c++23", "-fmodules-ts", "-c", "a"]);
    let shared = target_shared_args(&fw, &vec![Argument::from("-O2")]);
    assert_eq!(texts(&shared), vec!["-std=c++23", "-fmodules-ts", "-c", "-O2"]);
    assert_eq!(texts(&source_command_args(&shared, &c)), vec!["-std=c++23", "-fmodules-ts", "-c", "-O2", "a"]);

    let mut t = Target::new_default_for_kind(TargetKind::Executable);
    t.sources.push(scl("main", TranslationUnitStatus::Success));
    t.linker.target = Argument::from("/p/out/gcc/app");
    t.linker.extra_args = args(&["-lm"]);
    let m = modules();
    assert_eq!(
        texts(&linker_args(CppCompiler::GCC, &fw, &m, &t)),
        vec![
            "-std=c++23",
            "-fmodules-ts",
            "-lm",
            "-o",
            "/p/out/gcc/app",
            "/o/std.o",
            "/o/std.compat.o",
            "/o/a.o",
            "/o/b.o",
            "/o/c.o",
            "/o/main.o",
        ]
    );
    let with_headers = texts(&linker_args(CppCompiler::CLANG, &fw, &m, &t));
    assert!(with_headers.contains(&String::from("/o/iostream.o")));
}

#[test]
fn compilation_database_entries() {
    let model = model();
    let mut cache: ZorkCache = initialize_cache("/c", String::from("/c/f.json"), CppCompiler::GCC);
    assert_eq!(
        map_generated_commands_to_compilation_db(&model, &cache).unwrap_err(),
        CompilationDatabaseError::FlyweightDataNotFound
    );
    cache.generated_commands.flyweight_data = Some(flyweight());
    cache.generated_commands.modules = modules();
    let entries = map_generated_commands_to_compilation_db(&model, &cache).unwrap();
    assert_eq!(entries.len(), 5);
    assert_eq!(entries[0].file, "std.cpp");
    assert_eq!(entries[0].directory, "/p");
    assert_eq!(entries[0].arguments, vec!["g++", "-std=c++23", "-fmodules-ts", "-c", "std"]);
    assert_eq!(entries[4].file, "c.cpp");
}

#[test]
fn binaries_of_enabled_targets_run() {
    let mut targets = IndexMap::new();
    targets.insert(TargetIdentifier::from("app"), Target::new_default_for_kind(TargetKind::Executable));
    let mut off = Target::new_default_for_kind(TargetKind::Executable);
    off.enabled_for_current_program_iteration = false;
    targets.insert(TargetIdentifier::from("off"), off);
    targets.insert(TargetIdentifier::from("tests"), Target::new_default_for_kind(TargetKind::Executable));
    assert_eq!(binaries_to_run(&targets), vec!["app", "tests"]);
    assert_eq!(
        generated_binary("/p/out", CppCompiler::MSVC, "app", true),
        (String::from("/p/out/msvc/app"), String::from("/p/out/msvc/app.exe"))
    );
}
