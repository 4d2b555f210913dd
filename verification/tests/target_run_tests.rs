use indexmap::IndexMap;
use zork::arguments::{Argument, Arguments};
use zork::command_lines::{SourceCommandLine, TranslationUnitStatus};
use zork::compiler_model::{CompilerModel, CppCompiler, LanguageLevel};
use zork::flyweight_data::FlyweightData;
use zork::project_model::{BuildModel, ModulesModel, ProjectModel, SourceSet, TargetModel, ZorkModel};
use zork::target::{Target, TargetIdentifier, TargetKind};
use zork::target_commands::GenerationError;
use zork::target_run::{
    record_target_outcome, run_targets_plan, target_command_args, target_ref_in, TargetCommandRef,
};
use zork::worker::initialize_cache;

fn texts(args: &Arguments) -> Vec<String> {
    args.as_slice().iter().map(|a| a.value().clone()).collect()
}

fn scl(name: &str, status: TranslationUnitStatus) -> SourceCommandLine {
    SourceCommandLine {
        directory: String::from("/p"),
        filename: format!("{name}.cpp"),
        args: Arguments::from_vec(vec![Argument::from(name)]),
        status,
        byproduct: Argument::from(format!("/o/{name}.o").as_str()),
    }
}

fn target(sources: Vec<SourceCommandLine>, enabled: bool) -> Target {
    let mut t = Target::new_default_for_kind(TargetKind::Executable);
    t.sources = sources;
    t.enabled_for_current_program_iteration = enabled;
    t
}

fn targets() -> IndexMap<TargetIdentifier, Target> {
    let mut targets = IndexMap::new();
    targets.insert(
        TargetIdentifier::from("app"),
        target(
            vec![
                scl("a", TranslationUnitStatus::Cached),
                scl("b", TranslationUnitStatus::PendingToBuild),
                scl("c", TranslationUnitStatus::PendingToBuild),
            ],
            true,
        ),
    );
    targets.insert(TargetIdentifier::from("off"), target(vec![scl("d", TranslationUnitStatus::PendingToBuild)], false));
    targets.insert(TargetIdentifier::from("tests"), target(vec![scl("e", TranslationUnitStatus::Cached)], true));
    targets
}

fn model() -> ZorkModel {
    let mut targets = IndexMap::new();
    targets.insert(
        TargetIdentifier::from("app"),
        TargetModel {
            output_name: String::from("app"),
            sources: SourceSet { sources: vec![] },
            extra_args: vec![Argument::from("-Wall")],
            kind: TargetKind::Executable,
            enabled_for_current_program_iteration: true,
        },
    );
    ZorkModel {
        project: ProjectModel { name: String::from("p"), authors: vec![], compilation_db: true, code_root: None },
        compiler: CompilerModel {
            cpp_compiler: CppCompiler::GCC,
            driver_path: String::new(),
            cpp_standard: LanguageLevel::CPP23,
            std_lib: None,
            std_lib_installed_dir: None,
            extra_args: vec![],
        },
        build: BuildModel { output_dir: String::from("/p/out") },
        modules: ModulesModel::default(),
        targets,
    }
}

#[test]
fn enabled_targets_run_their_pending_sources_then_their_linker() {
    let t = targets();
    assert_eq!(
        run_targets_plan(&t),
        vec![
            TargetCommandRef::Source(0, 1),
            TargetCommandRef::Source(0, 2),
            TargetCommandRef::Linker(0),
            TargetCommandRef::Linker(2),
        ]
    );
    assert!(target_ref_in(&t, TargetCommandRef::Source(0, 2)));
    assert!(!target_ref_in(&t, TargetCommandRef::Source(0, 3)));
    assert!(!target_ref_in(&t, TargetCommandRef::Linker(3)));
}

#[test]
fn the_run_goes_on_after_a_success_and_stops_after_a_failure() {
    let mut t = targets();
    let plan = run_targets_plan(&t);
    assert_eq!(record_target_outcome(&mut t, &plan, 0, Some(true)), Some(1));
    assert_eq!(t.get_index(0).unwrap().1.sources[1].status, TranslationUnitStatus::Success);
    assert_eq!(record_target_outcome(&mut t, &plan, 1, Some(false)), None);
    assert_eq!(t.get_index(0).unwrap().1.sources[2].status, TranslationUnitStatus::Failed);
    assert_eq!(record_target_outcome(&mut t, &plan, 2, None), None);
    assert_eq!(t.get_index(0).unwrap().1.linker.execution_result, TranslationUnitStatus::Error);
    // The last command line of the plan ends the run.
    assert_eq!(record_target_outcome(&mut t, &plan, 3, Some(true)), None);
    assert_eq!(t.get_index(2).unwrap().1.linker.execution_result, TranslationUnitStatus::Success);
    // The disabled target is left as it was.
    assert_eq!(t.get_index(1).unwrap().1.sources[0].status, TranslationUnitStatus::PendingToBuild);
}

#[test]
fn arguments_of_the_command_lines_of_the_targets() {
    let t = targets();
    let model = model();
    let cache = initialize_cache("/c", String::from("/c/f.json"), CppCompiler::GCC);
    let fw = FlyweightData::new(&model, &cache.compilers_metadata, false);
    let modules = cache.generated_commands.modules.clone();
    let a = target_command_args(&model, &fw, &modules, &t, TargetCommandRef::Source(0, 1)).unwrap();
    assert_eq!(texts(&a), vec!["-std=c++23", "-fmodules-ts", "-c", "-Wall", "b"]);
    let l = target_command_args(&model, &fw, &modules, &t, TargetCommandRef::Linker(0)).unwrap();
    assert_eq!(texts(&l), vec!["-std=c++23", "-fmodules-ts", "-o", "", "/o/a.o", "/o/b.o", "/o/c.o"]);
    // The project declares no target `tests`.
    assert_eq!(
        target_command_args(&model, &fw, &modules, &t, TargetCommandRef::Linker(2)),
        Err(GenerationError::TargetEntryNotFound(TargetIdentifier::from("tests")))
    );
}
