use indexmap::IndexMap;
use zork::compiler_model::{CppCompiler, LanguageLevel, StdLib};
use zork::config_file::{
    self, BuildAttribute, CompilerAttribute, ExecutableAttribute, TestsAttribute, ModuleImplementation, ModuleInterface, ModulePartition,
    ModulesAttribute, ProjectAttribute, TargetAttribute, ZorkConfigFile,
};
use zork::project_model::{Source, SourceFile};
use zork::reader::{
    assemble_build_model, assemble_executable_model, assemble_tests_model, assemble_module_implementation_model, assemble_module_interface_model,
    build_model, get_sourceset_for, sources_to_resolve,
};
use zork::target::{TargetIdentifier, TargetKind};

const ROOT: &str = "/home/user/zork_project";

fn minimal_config() -> ZorkConfigFile {
    ZorkConfigFile {
        project: ProjectAttribute {
            name: String::from("Zork++"),
            authors: Some(vec![String::from("zerodaycode.gz@gmail.com")]),
            compilation_db: None,
            project_root: None,
        },
        compiler: CompilerAttribute {
            cpp_compiler: config_file::CppCompiler::CLANG,
            driver_path: None,
            cpp_standard: config_file::LanguageLevel::CPP20,
            std_lib: None,
            extra_args: None,
            system_headers_path: None,
        },
        build: None,
        modules: None,
        targets: IndexMap::new(),
    }
}

fn full_config() -> ZorkConfigFile {
    let mut targets = IndexMap::new();
    targets.insert(
        String::from("executable"),
        TargetAttribute {
            output_name: Some(String::from("zork")),
            sources: vec![String::from("main.cpp")],
            extra_args: Some(vec![String::from("-Werr")]),
            kind: None,
        },
    );
    targets.insert(
        String::from("tests"),
        TargetAttribute {
            output_name: Some(String::from("zork_tests")),
            sources: vec![String::from("tests_main.cpp")],
            extra_args: None,
            kind: Some(TargetKind::Executable),
        },
    );
    ZorkConfigFile {
        project: ProjectAttribute {
            name: String::from("Zork++"),
            authors: Some(vec![String::from("zerodaycode.gz@gmail.com")]),
            compilation_db: Some(true),
            project_root: None,
        },
        compiler: CompilerAttribute {
            cpp_compiler: config_file::CppCompiler::CLANG,
            driver_path: None,
            cpp_standard: config_file::LanguageLevel::CPP2B,
            std_lib: Some(config_file::StdLib::LIBCPP),
            extra_args: Some(vec![String::from("-Wall")]),
            system_headers_path: None,
        },
        build: Some(BuildAttribute { output_dir: Some(String::new()) }),
        modules: Some(ModulesAttribute {
            base_ifcs_dir: Some(String::from("ifcs")),
            interfaces: Some(vec![
                ModuleInterface {
                    file: String::from("maths.cppm"),
                    module_name: None,
                    partition: None,
                    dependencies: None,
                },
                ModuleInterface {
                    file: String::from("some_module.cppm"),
                    module_name: Some(String::from("maths")),
                    partition: None,
                    dependencies: None,
                },
            ]),
            base_impls_dir: Some(String::from("srcs")),
            implementations: Some(vec![
                ModuleImplementation { file: String::from("maths.cpp"), dependencies: None },
                ModuleImplementation {
                    file: String::from("some_module_impl.cpp"),
                    dependencies: Some(vec![String::from("iostream")]),
                },
            ]),
            sys_modules: Some(vec![String::from("iostream")]),
        }),
        targets,
    }
}

#[test]
fn test_project_model_with_minimal_config() {
    let config = minimal_config();
    let model = build_model(&config, &None, ROOT, &vec![]);

    assert_eq!(model.project.name, "Zork++");
    assert_eq!(model.project.authors, vec![String::from("zerodaycode.gz@gmail.com")]);
    assert!(!model.project.compilation_db);
    assert_eq!(model.project.code_root, None);

    assert_eq!(model.compiler.cpp_compiler, CppCompiler::CLANG);
    assert_eq!(model.compiler.driver_path, "");
    assert_eq!(model.compiler.cpp_standard, LanguageLevel::CPP20);
    assert_eq!(model.compiler.std_lib, None);
    assert!(model.compiler.extra_args.is_empty());

    assert_eq!(model.build.output_dir, format!("{ROOT}/out"));

    assert_eq!(model.modules.base_ifcs_dir, "");
    assert!(model.modules.interfaces.is_empty());
    assert_eq!(model.modules.base_impls_dir, "");
    assert!(model.modules.implementations.is_empty());
    assert!(model.modules.sys_modules.is_empty());

    assert!(model.targets.is_empty());
}

#[test]
fn test_project_model_with_full_config() {
    let config = full_config();
    let resolved = vec![
        vec![format!("{ROOT}/main.cpp")],
        vec![format!("{ROOT}/tests_main.cpp")],
    ];
    let model = build_model(&config, &None, ROOT, &resolved);

    assert_eq!(model.project.name, "Zork++");
    assert_eq!(model.project.authors, vec![String::from("zerodaycode.gz@gmail.com")]);
    assert!(model.project.compilation_db);

    assert_eq!(model.compiler.cpp_compiler, CppCompiler::CLANG);
    assert_eq!(model.compiler.driver_path, "");
    assert_eq!(model.compiler.cpp_standard, LanguageLevel::CPP2B);
    assert_eq!(model.compiler.std_lib, Some(StdLib::LIBCPP));
    assert_eq!(model.compiler.extra_args.len(), 1);
    assert_eq!(model.compiler.extra_args[0].value(), "-Wall");

    assert_eq!(model.build.output_dir, ROOT);

    let modules = &model.modules;
    assert_eq!(modules.base_ifcs_dir, "ifcs");
    assert_eq!(modules.interfaces.len(), 2);
    assert_eq!(modules.interfaces[0].path, format!("{ROOT}/ifcs"));
    assert_eq!(modules.interfaces[0].file_stem, "maths");
    assert_eq!(modules.interfaces[0].extension, "cppm");
    assert_eq!(modules.interfaces[0].module_name, "maths");
    assert_eq!(modules.interfaces[0].partition, None);
    assert!(modules.interfaces[0].dependencies.is_empty());
    assert_eq!(modules.interfaces[1].path, format!("{ROOT}/ifcs"));
    assert_eq!(modules.interfaces[1].file_stem, "some_module");
    assert_eq!(modules.interfaces[1].extension, "cppm");
    assert_eq!(modules.interfaces[1].module_name, "maths");

    assert_eq!(modules.base_impls_dir, "srcs");
    assert_eq!(modules.implementations.len(), 2);
    assert_eq!(modules.implementations[0].path, format!("{ROOT}/srcs"));
    assert_eq!(modules.implementations[0].file_stem, "maths");
    assert_eq!(modules.implementations[0].extension, "cpp");
    assert_eq!(modules.implementations[0].dependencies, vec![String::from("maths")]);
    assert_eq!(modules.implementations[1].file_stem, "some_module_impl");
    assert_eq!(modules.implementations[1].extension, "cpp");
    assert_eq!(modules.implementations[1].dependencies, vec![String::from("iostream")]);

    assert_eq!(modules.sys_modules.len(), 1);
    assert_eq!(modules.sys_modules[0].file_stem, "iostream");
    assert_eq!(modules.sys_modules[0].path, "");
    assert_eq!(modules.sys_modules[0].extension, "");

    assert_eq!(model.targets.len(), 2);
    let executable = model.targets.get(&TargetIdentifier::from("executable")).unwrap();
    assert_eq!(executable.output_name, "zork");
    assert_eq!(
        executable.sources.sources,
        vec![SourceFile { path: String::from(ROOT), file_stem: String::from("main"), extension: String::from("cpp") }]
    );
    assert_eq!(executable.extra_args.len(), 1);
    assert_eq!(executable.extra_args[0].value(), "-Werr");
    assert_eq!(executable.kind, TargetKind::Executable);
    assert!(executable.enabled_for_current_program_iteration);

    let tests = model.targets.get(&TargetIdentifier::from("tests")).unwrap();
    assert_eq!(tests.output_name, "zork_tests");
    assert!(tests.extra_args.is_empty());
    assert_eq!(tests.sources.sources[0].file_stem, "tests_main");
    let names: Vec<&str> = model.targets.keys().map(|k| k.name()).collect();
    assert_eq!(names, vec!["executable", "tests"]);
}

#[test]
fn output_dir_drops_leading_dot_slash_and_defaults_to_out() {
    let b = assemble_build_model(&Some(BuildAttribute { output_dir: Some(String::from("./build")) }), "/p");
    assert_eq!(b.output_dir, "/p/build");
    let b = assemble_build_model(&Some(BuildAttribute { output_dir: None }), "/p");
    assert_eq!(b.output_dir, "/p/out");
    let b = assemble_build_model(&None, "/p");
    assert_eq!(b.output_dir, "/p/out");
}

#[test]
fn implementation_depends_on_the_interface_named_after_its_file() {
    let imp = ModuleImplementation { file: String::from("math2.cpp"), dependencies: None };
    let m = assemble_module_implementation_model(&imp, "src", "/p");
    assert_eq!(m.dependencies, vec![String::from("math2")]);
    assert_eq!(m.path, "/p/src");

    let imp = ModuleImplementation { file: String::from("sub/math.impl.cpp"), dependencies: Some(vec![]) };
    let m = assemble_module_implementation_model(&imp, "src", "/p");
    assert_eq!(m.dependencies, vec![String::from("sub/math.impl")]);
    assert_eq!(m.path, "/p/src/sub");
    assert_eq!(m.file_stem, "math.impl");

    let imp = ModuleImplementation { file: String::from("noext"), dependencies: None };
    let m = assemble_module_implementation_model(&imp, "src", "/p");
    assert_eq!(m.dependencies, vec![String::from("noext")]);
    assert_eq!(m.extension, "");
}

#[test]
fn interface_partition_defaults() {
    let ifc = ModuleInterface {
        file: String::from("interface_partition.cppm"),
        module_name: None,
        partition: Some(ModulePartition { module: String::from("partitions"), partition_name: None, is_internal_partition: None }),
        dependencies: Some(vec![String::from("a"), String::from("b")]),
    };
    let m = assemble_module_interface_model(&ifc, "ifc", "/p");
    let part = m.partition.unwrap();
    assert_eq!(part.module, "partitions");
    assert_eq!(part.partition_name, "");
    assert!(!part.is_internal_partition);
    assert_eq!(m.module_name, "interface_partition");
    assert_eq!(m.dependencies, vec![String::from("a"), String::from("b")]);
}

#[test]
fn sources_with_a_star_are_patterns() {
    let srcs = sources_to_resolve(&vec![String::from("*.cpp"), String::from("main.cpp")], "/p");
    assert!(matches!(&srcs[0], Source::Glob(g) if g.0 == "/p/*.cpp"));
    assert!(matches!(&srcs[1], Source::File(f) if f == "/p/main.cpp"));
}

#[test]
fn sourceset_splits_each_path() {
    let set = get_sourceset_for(&vec![String::from("/p/src/a.cc"), String::from("/p/b")]);
    assert_eq!(set.sources[0], SourceFile { path: String::from("/p/src"), file_stem: String::from("a"), extension: String::from("cc") });
    assert_eq!(set.sources[1], SourceFile { path: String::from("/p"), file_stem: String::from("b"), extension: String::new() });
}

#[test]
fn executable_and_tests_models() {
    let files = vec![String::from("/p/main.cpp")];
    let exe = assemble_executable_model("proj", &None, &files);
    assert_eq!(exe.executable_name, "proj");
    assert_eq!(exe.sourceset.sources[0].file_stem, "main");
    assert!(exe.extra_args.is_empty());

    let declared = ExecutableAttribute {
        executable_name: Some(String::from("app")),
        sources_base_path: None,
        sources: Some(vec![String::from("main.cpp")]),
        extra_args: Some(vec![String::from("-Wall")]),
    };
    let exe = assemble_executable_model("proj", &Some(declared), &files);
    assert_eq!(exe.executable_name, "app");
    assert_eq!(exe.extra_args[0].value(), "-Wall");

    let tests = TestsAttribute {
        test_executable_name: None,
        sources_base_path: None,
        sources: None,
        extra_args: Some(vec![String::from("-g")]),
    };
    let t = assemble_tests_model("proj", &Some(tests), &vec![]);
    assert_eq!(t.test_executable_name, "proj");
    assert!(t.sourceset.sources.is_empty());
    assert_eq!(t.extra_args[0].value(), "-g");
}
