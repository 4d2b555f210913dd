use indexmap::IndexMap;
use zork::arguments::{Argument, Arguments};
use zork::cache_cleanup::{check_user_files_removals, remove_if_needed_from_cache_and_count_changes};
use zork::command_lines::{SourceCommandLine, TranslationUnitStatus};
use zork::compiler_model::{CompilerModel, CppCompiler, LanguageLevel};
use zork::env_vars::EnvVars;
use zork::project_model::{
    BuildModel, ModuleImplementationModel, ModuleInterfaceModel, ModulesModel, ProjectModel, SourceFile, SourceSet,
    TargetModel, ZorkModel,
};
use zork::target::{Target, TargetIdentifier, TargetKind};
use zork::worker::{initialize_cache, run_final_tasks};

fn scl(dir: &str, file: &str, status: TranslationUnitStatus) -> SourceCommandLine {
    SourceCommandLine {
        directory: dir.to_string(),
        filename: file.to_string(),
        args: Arguments::new(),
        status,
        byproduct: Argument::from("x.o"),
    }
}

fn sf(dir: &str, stem: &str, ext: &str) -> SourceFile {
    SourceFile { path: dir.to_string(), file_stem: stem.to_string(), extension: ext.to_string() }
}

#[test]
fn removed_translation_units_leave_the_cache() {
    let mut cached = vec![
        scl("/p", "a.cpp", TranslationUnitStatus::Cached),
        scl("/p", "gone.cpp", TranslationUnitStatus::Success),
        scl("/p", "deleted.cpp", TranslationUnitStatus::ToDelete),
        scl("/p", "b.cpp", TranslationUnitStatus::PendingToBuild),
    ];
    let declared = vec![sf("/p", "a", "cpp"), sf("/p", "b", "cpp")];
    assert!(remove_if_needed_from_cache_and_count_changes(&mut cached, &declared));
    let names: Vec<&str> = cached.iter().map(|c| c.filename.as_str()).collect();
    assert_eq!(names, vec!["a.cpp", "b.cpp"]);
    assert!(!remove_if_needed_from_cache_and_count_changes(&mut cached, &declared));
    assert_eq!(cached.len(), 2);

    // A command line marked for deletion goes even when its file is still declared.
    let mut cached = vec![scl("/p", "a.cpp", TranslationUnitStatus::ToDelete)];
    assert!(remove_if_needed_from_cache_and_count_changes(&mut cached, &declared));
    assert!(cached.is_empty());
}

fn model() -> ZorkModel {
    let mut targets = IndexMap::new();
    targets.insert(
        TargetIdentifier::from("app"),
        TargetModel {
            output_name: String::from("app"),
            sources: SourceSet { sources: vec![sf("/p", "main", "cpp")] },
            extra_args: vec![],
            kind: TargetKind::Executable,
            enabled_for_current_program_iteration: true,
        },
    );
    ZorkModel {
        project: ProjectModel { name: String::from("p"), authors: vec![], compilation_db: true, code_root: None },
        compiler: CompilerModel {
            cpp_compiler: CppCompiler::GCC,
            driver_path: String::new(),
            cpp_standard: LanguageLevel::CPP20,
            std_lib: None,
            std_lib_installed_dir: None,
            extra_args: vec![],
        },
        build: BuildModel { output_dir: String::from("/p/out") },
        modules: ModulesModel {
            base_ifcs_dir: String::new(),
            interfaces: vec![ModuleInterfaceModel {
                path: String::from("/p/ifc"),
                file_stem: String::from("m"),
                extension: String::from("cppm"),
                module_name: String::from("m"),
                partition: None,
                dependencies: vec![],
            }],
            base_impls_dir: String::new(),
            implementations: vec![ModuleImplementationModel {
                path: String::from("/p/src"),
                file_stem: String::from("m"),
                extension: String::from("cpp"),
                dependencies: vec![],
            }],
            sys_modules: vec![],
        },
        targets,
    }
}

#[test]
fn removals_are_checked_in_every_group() {
    let model = model();
    let mut cache = initialize_cache("/c", String::from("/c/f.json"), CppCompiler::GCC);
    cache.generated_commands.modules.interfaces = vec![scl("/p/ifc", "m.cppm", TranslationUnitStatus::Cached)];
    cache.generated_commands.modules.implementations =
        vec![scl("/p/src", "m.cpp", TranslationUnitStatus::Cached), scl("/p/src", "old.cpp", TranslationUnitStatus::Cached)];
    let mut t = Target::new_default_for_kind(TargetKind::Executable);
    t.sources = vec![scl("/p", "main.cpp", TranslationUnitStatus::Cached), scl("/p", "old_main.cpp", TranslationUnitStatus::Cached)];
    cache.generated_commands.targets.insert(TargetIdentifier::from("app"), t);

    cache.generated_commands.modules.system_modules = vec![scl("", "iostream.", TranslationUnitStatus::Cached)];

    // Every group loses its stale command lines in one go, the system headers too.
    assert!(check_user_files_removals(&mut cache, &model));
    assert_eq!(cache.generated_commands.modules.interfaces.len(), 1);
    assert_eq!(cache.generated_commands.modules.implementations.len(), 1);
    assert_eq!(cache.generated_commands.targets.get(&TargetIdentifier::from("app")).unwrap().sources.len(), 1);
    assert!(cache.generated_commands.modules.system_modules.is_empty());
    assert!(!check_user_files_removals(&mut cache, &model));
}

#[test]
fn final_tasks_ask_for_a_compilation_database_after_removals() {
    let model = model();
    let mut cache = initialize_cache("/c", String::from("/c/f.json"), CppCompiler::GCC);
    cache.generated_commands.modules.interfaces =
        vec![scl("/p/ifc", "m.cppm", TranslationUnitStatus::Cached), scl("/p/ifc", "old.cppm", TranslationUnitStatus::Cached)];
    let r = run_final_tasks(&mut cache, &model);
    assert!(r.is_err());
    cache.generated_commands.flyweight_data =
        Some(zork::flyweight_data::FlyweightData::new(&model, &cache.compilers_metadata, false));
    cache.generated_commands.modules.interfaces.push(scl("/p/ifc", "old.cppm", TranslationUnitStatus::Cached));
    cache.metadata.save_project_model = true;
    let tasks = run_final_tasks(&mut cache, &model).unwrap();
    assert!(tasks.save_project_model);
    assert_eq!(tasks.compilation_database.unwrap().len(), 1);
    let tasks = run_final_tasks(&mut cache, &model).unwrap();
    assert!(tasks.compilation_database.is_none());
}

#[test]
fn environment_variables_keep_one_value_per_name() {
    let mut env = EnvVars::new();
    env.insert(String::from("PATH"), String::from("/bin"));
    env.insert(String::from("HOME"), String::from("/root"));
    env.insert(String::from("PATH"), String::from("/usr/bin"));
    assert_eq!(env.get("PATH"), Some(&String::from("/usr/bin")));
    assert_eq!(env.get("HOME"), Some(&String::from("/root")));
    assert_eq!(env.get("NOPE"), None);
    assert_eq!(env.entries().len(), 2);
    let copy = env.duplicate();
    assert_eq!(copy.get("PATH"), Some(&String::from("/usr/bin")));
}
