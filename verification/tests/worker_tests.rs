use indexmap::IndexMap;
use zork::cache::ZorkCache;
use zork::cli::{config_logger, quiet_logger_level, LogLevel, LoggerError};
use zork::compiler_model::CppCompiler;
use zork::config_file::{self, CompilerAttribute, ProjectAttribute, TargetAttribute, ZorkConfigFile};
use zork::project_model::ZorkModel;
use zork::reader::build_model;
use zork::target::{TargetIdentifier, TargetKind};
use zork::targets_mapping::{
    add_new_target_to_cache, enable_and_disable_targets_based_on_cli_inputs, map_model_targets_to_cache,
    target_enabled_by,
};
use zork::worker::{
    cache_load_action, cache_paths, count_process, find_config_files, initialize_cache, load_zork_model,
    loads_msvc_metadata, needs_intrinsic_files, output_directories, output_directory_of, CacheLoadAction, ConfigFilesError, DirEntryInfo,
    ModelSource,
};

fn config_with_targets() -> ZorkConfigFile {
    let mut targets = IndexMap::new();
    targets.insert(
        String::from("executable"),
        TargetAttribute {
            output_name: Some(String::from("github-example")),
            sources: vec![String::from("main.cpp")],
            extra_args: None,
            kind: None,
        },
    );
    targets.insert(
        String::from("tests"),
        TargetAttribute {
            output_name: None,
            sources: vec![String::from("tests_main.cpp")],
            extra_args: None,
            kind: Some(TargetKind::Executable),
        },
    );
    ZorkConfigFile {
        project: ProjectAttribute {
            name: String::from("github-example"),
            authors: None,
            compilation_db: Some(true),
            project_root: None,
        },
        compiler: CompilerAttribute {
            cpp_compiler: config_file::CppCompiler::CLANG,
            driver_path: None,
            cpp_standard: config_file::LanguageLevel::CPP2B,
            std_lib: Some(config_file::StdLib::LIBCPP),
            extra_args: None,
            system_headers_path: None,
        },
        build: None,
        modules: None,
        targets,
    }
}

fn model() -> ZorkModel {
    let config = config_with_targets();
    build_model(&config, &None, "/p", &vec![vec![String::from("/p/main.cpp")], vec![String::from("/p/tests_main.cpp")]])
}

fn new_cache() -> ZorkCache {
    initialize_cache("/p/out/zork/cache", String::from("/p/out/zork/cache/clang.json"), CppCompiler::CLANG)
}

fn filter(names: &[&str]) -> Option<Vec<String>> {
    Some(names.iter().map(|s| s.to_string()).collect())
}

#[test]
fn test_creation_directories() {
    let dirs = output_directories("/tmp/out", CppCompiler::CLANG);
    assert_eq!(
        dirs,
        vec![
            "/tmp/out/clang/obj_files",
            "/tmp/out/clang/modules/interfaces",
            "/tmp/out/clang/modules/implementations",
            "/tmp/out/clang/modules/std",
            "/tmp/out/zork/cache",
            "/tmp/out/zork/intrinsics",
        ]
    );
    assert!(needs_intrinsic_files(CppCompiler::CLANG, true));
    assert!(!needs_intrinsic_files(CppCompiler::CLANG, false));
    assert!(!needs_intrinsic_files(CppCompiler::GCC, true));
    assert!(loads_msvc_metadata(CppCompiler::MSVC, true));
    assert!(!loads_msvc_metadata(CppCompiler::MSVC, false));
    assert!(!loads_msvc_metadata(CppCompiler::CLANG, true));
}

#[test]
fn test_add_entry_to_cache() {
    let model = model();
    let mut cache = new_cache();
    for (target_identifier, target_data) in model.targets.iter() {
        add_new_target_to_cache(target_identifier, target_data, &mut cache);
        assert!(cache.generated_commands.targets.contains_key(target_identifier));
        assert!(!cache.generated_commands.targets.contains_key(&TargetIdentifier::from("other")));
    }
}

#[test]
fn test_enable_disable_targets_by_cli_input() {
    let mut model = model();
    let mut cache = new_cache();
    let cli_targets = filter(&["executable", "tests"]);
    for (target_identifier, target_data) in model.targets.iter_mut() {
        add_new_target_to_cache(target_identifier, target_data, &mut cache);
        enable_and_disable_targets_based_on_cli_inputs(target_identifier, target_data, &mut cache, &cli_targets).unwrap();
        assert!(cache.generated_commands.targets.contains_key(target_identifier));
        let cached_target = cache.generated_commands.targets.get(target_identifier).unwrap();
        assert!(cached_target.enabled_for_current_program_iteration);
    }
}

#[test]
fn test_clean_removed_targets_from_cfg() {
    let mut model = model();
    let mut cache = new_cache();
    let cli_targets = filter(&["executable"]);
    map_model_targets_to_cache(&mut model, &mut cache, &cli_targets).unwrap();

    let tests_ti = TargetIdentifier::from("tests");
    let tests = cache.generated_commands.targets.get(&tests_ti).unwrap();
    assert!(!tests.enabled_for_current_program_iteration);

    model.targets.retain(|k, _| k.ne(&tests_ti));
    map_model_targets_to_cache(&mut model, &mut cache, &cli_targets).unwrap();

    assert!(cache.generated_commands.targets.get(&tests_ti).is_none());
}

#[test]
fn test_map_model_targets_to_cache_and_enabled_status() {
    let mut model = model();
    let mut cache = new_cache();
    let cli_targets = filter(&["executable", "tests"]);
    map_model_targets_to_cache(&mut model, &mut cache, &cli_targets).unwrap();

    let cached_targets = &cache.generated_commands.targets;
    for (target_identifier, _) in model.targets.iter() {
        assert!(cached_targets.get(target_identifier).is_some());
    }
    let executable = cached_targets.get(&TargetIdentifier::from("executable")).unwrap();
    assert!(executable.enabled_for_current_program_iteration);
    let tests = cached_targets.get(&TargetIdentifier::from("tests")).unwrap();
    assert!(tests.enabled_for_current_program_iteration);
}

#[test]
fn mapping_without_filter_enables_everything_and_keeps_model_order() {
    let mut model = model();
    let mut cache = new_cache();
    map_model_targets_to_cache(&mut model, &mut cache, &None).unwrap();
    let names: Vec<&str> = cache.generated_commands.targets.keys().map(|k| k.name()).collect();
    assert_eq!(names, vec!["executable", "tests"]);
    assert!(cache.generated_commands.targets.values().all(|t| t.enabled_for_current_program_iteration));
    assert!(model.targets.values().all(|t| t.enabled_for_current_program_iteration));
    assert!(cache.generated_commands.targets.values().all(|t| t.sources.is_empty() && t.kind == TargetKind::Executable));
}

#[test]
fn mapping_disables_the_targets_left_out_of_the_filter_in_the_model_too() {
    let mut model = model();
    let mut cache = new_cache();
    map_model_targets_to_cache(&mut model, &mut cache, &filter(&["tests"])).unwrap();
    assert!(!model.targets.get(&TargetIdentifier::from("executable")).unwrap().enabled_for_current_program_iteration);
    assert!(model.targets.get(&TargetIdentifier::from("tests")).unwrap().enabled_for_current_program_iteration);
    assert!(!target_enabled_by(&filter(&["tests"]), "executable"));
    assert!(target_enabled_by(&None, "anything"));
}

#[test]
fn enabling_a_target_without_cache_entry_fails() {
    let mut model = model();
    let mut cache = new_cache();
    let (id, data) = model.targets.get_index_mut(0).unwrap();
    let r = enable_and_disable_targets_based_on_cli_inputs(id, data, &mut cache, &None);
    assert!(r.is_err());
}

#[test]
fn config_files_are_selected_by_name() {
    let entry = |name: &str, is_file: bool| DirEntryInfo {
        path: format!("/p/{name}"),
        file_name: name.to_string(),
        is_file,
        last_time_modified: 7,
    };
    let entries = vec![
        entry("zork_linux.toml", true),
        entry("zork_windows.toml", true),
        entry("zork.toml", false),
        entry("Cargo.toml", true),
        entry("zork_notes.txt", true),
    ];
    let found = find_config_files(&entries, &None).unwrap();
    assert_eq!(found.len(), 2);
    assert_eq!(found[0].path, "/p/zork_linux.toml");
    assert_eq!(found[1].last_time_modified, 7);

    let found = find_config_files(&entries, &Some(String::from("linux"))).unwrap();
    assert_eq!(found.len(), 1);
    assert_eq!(found[0].path, "/p/zork_linux.toml");

    assert_eq!(find_config_files(&entries, &Some(String::from("mac"))).unwrap_err(), ConfigFilesError::NoConfigurationFiles);
    assert_eq!(find_config_files(&vec![], &None).unwrap_err(), ConfigFilesError::NoConfigurationFiles);
}

#[test]
fn logger_levels() {
    assert_eq!(config_logger(0).unwrap().level, LogLevel::Info);
    assert_eq!(config_logger(1).unwrap().level, LogLevel::Debug);
    assert_eq!(config_logger(1).unwrap().indent, 4);
    assert_eq!(config_logger(2).unwrap_err(), LoggerError::VerbosityTooHigh);
    assert_eq!(quiet_logger_level(0), LogLevel::Error);
    assert_eq!(quiet_logger_level(1), LogLevel::Warn);
    assert_eq!(quiet_logger_level(2), LogLevel::Info);
}

#[test]
fn cache_locations_and_loading() {
    let config = config_with_targets();
    let out = output_directory_of(&config, "/p");
    assert_eq!(out, "/p/out");
    let (dir, file) = cache_paths(&out, CppCompiler::CLANG);
    assert_eq!(dir, "/p/out/zork/cache");
    assert_eq!(file, "/p/out/zork/cache/clang.json");
    let cache = initialize_cache(&dir, file.clone(), CppCompiler::MSVC);
    assert_eq!(cache.metadata.project_model_file_path, "/p/out/zork/cache/msvc_pm.json");
    assert_eq!(cache.metadata.cache_file_path, file);

    assert_eq!(cache_load_action(false, true, true), CacheLoadAction::Initialize);
    assert_eq!(cache_load_action(true, true, true), CacheLoadAction::ClearAndInitialize);
    assert_eq!(cache_load_action(true, false, true), CacheLoadAction::Load);
    assert_eq!(cache_load_action(true, true, false), CacheLoadAction::Load);
}

#[test]
fn model_is_built_again_when_the_configuration_changed() {
    let mut cache = new_cache();
    cache.metadata.last_program_execution = 100;
    assert_eq!(load_zork_model(&mut cache, 100), ModelSource::LoadFromCache);
    assert!(!cache.metadata.save_project_model);
    assert_eq!(load_zork_model(&mut cache, 101), ModelSource::BuildFromConfig);
    assert!(cache.metadata.save_project_model);
    count_process(&mut cache);
    assert_eq!(cache.metadata.process_no, 1);
}
