//! From the configuration file to the model of the project: every attribute is given its
//! default when the file leaves it out, and every declared file is placed under the
//! project root.

use vstd::prelude::*;

use crate::arguments::Argument;
use crate::compiler_model::{self, CompilerModel};
use crate::config_file::{
    config_target_at, config_target_entries, config_targets_len, TargetAttributeView, ZorkConfigFile,
    compiler_of, language_level_of, opt_string_view, opt_strings_view, std_lib_of, strings_view,
    BuildAttribute, CompilerAttribute, ExecutableAttribute, TestsAttribute, ModuleImplementation, ModuleInterface, ModulePartition,
    ModulesAttribute, ProjectAttribute, StdLib,
};
use crate::paths::{
    extension_of_name, file_name, get_file_details, join, join_path, last_index_of, names_entry,
    parent, stem_of_name,
};
use crate::target::{
    has_name, insert_model_target, model_target_entries, new_model_targets, TargetIdentifier, TargetKind,
};
use crate::project_model::{
    ExecutableModel, TargetModel, TargetModelView, TestsModel, ZorkModel,
    argument_texts, BuildModel, GlobPattern, ModuleImplementationModel, ModuleInterfaceModel,
    ModulePartitionModel, ModulesModel, ProjectModel, Source, SourceFile, SourceFileView, SourceSet,
    SystemModule,
};

verus! {

/// The texts of an optional sequence, or none.
pub open spec fn or_empty(o: Option<Seq<Seq<char>>>) -> Seq<Seq<char>> {
    match o {
        Some(s) => s,
        None => Seq::empty(),
    }
}

/// A copy of the strings of `v`.
pub fn copy_strings(v: &Vec<String>) -> (r: Vec<String>)
    ensures
        strings_view(r@) == strings_view(v@),
{
    let mut r: Vec<String> = Vec::new();
    let mut i: usize = 0;
    while i < v.len()
        invariant
            0 <= i <= v@.len(),
            strings_view(r@) == strings_view(v@.take(i as int)),
        decreases v@.len() - i,
    {
        let ghost before = r@;
        let x = v[i].clone();
        r.push(x);
        proof {
            assert(r@ =~= before.push(x));
            assert(strings_view(r@) =~= strings_view(before).push(x@));
            assert(strings_view(v@.take(i + 1)) =~= strings_view(v@.take(i as int)).push(v@[i as int]@));
        }
        i = i + 1;
    }
    proof {
        assert(v@.take(v@.len() as int) =~= v@);
    }
    r
}

/// A copy of the strings of `o`, or none.
fn strings_or_empty(o: &Option<Vec<String>>) -> (r: Vec<String>)
    ensures
        strings_view(r@) == or_empty(opt_strings_view(*o)),
{
    match o {
        Some(v) => copy_strings(v),
        None => {
            let r: Vec<String> = Vec::new();
            proof {
                assert(strings_view(r@) =~= Seq::<Seq<char>>::empty());
            }
            r
        },
    }
}

/// An argument for every string of `o`, or none.
fn arguments_or_empty(o: &Option<Vec<String>>) -> (r: Vec<Argument>)
    ensures
        argument_texts(r@) == or_empty(opt_strings_view(*o)),
{
    let mut r: Vec<Argument> = Vec::new();
    match o {
        Some(v) => {
            let mut i: usize = 0;
            while i < v.len()
                invariant
                    0 <= i <= v@.len(),
                    argument_texts(r@) == strings_view(v@.take(i as int)),
                decreases v@.len() - i,
            {
                let ghost before = r@;
                let x = Argument::new(v[i].clone());
                r.push(x);
                proof {
                    assert(r@ =~= before.push(x));
                    assert(argument_texts(r@) =~= argument_texts(before).push(x@));
                    assert(strings_view(v@.take(i + 1)) =~= strings_view(v@.take(i as int)).push(v@[i as int]@));
                }
                i = i + 1;
            }
            proof {
                assert(v@.take(v@.len() as int) =~= v@);
            }
        },
        None => {
            proof {
                assert(argument_texts(r@) =~= Seq::<Seq<char>>::empty());
            }
        },
    }
    r
}

/// The model of the metadata of the project: the authors default to none, the
/// compilation database to not wanted.
pub fn assemble_project_model(config: &ProjectAttribute) -> (r: ProjectModel)
    ensures
        r.name@ == config.name@,
        strings_view(r.authors@) == or_empty(opt_strings_view(config.authors)),
        r.compilation_db == (config.compilation_db == Some(true)),
        opt_string_view(r.code_root) == opt_string_view(config.project_root),
{
    ProjectModel {
        name: config.name.clone(),
        authors: strings_or_empty(&config.authors),
        compilation_db: match config.compilation_db {
            Some(b) => b,
            None => false,
        },
        code_root: match &config.project_root {
            Some(r) => Some(r.clone()),
            None => None,
        },
    }
}

/// The model of the compiler settings. The driver is the one that the command line names
/// (none when it names none).
pub fn assemble_compiler_model(config: &CompilerAttribute, cli_driver_path: &Option<String>) -> (r: CompilerModel)
    ensures
        r.cpp_compiler == compiler_of(config.cpp_compiler),
        r.driver_path@ == match cli_driver_path {
            Some(d) => d@,
            None => Seq::<char>::empty(),
        },
        r.cpp_standard == language_level_of(config.cpp_standard),
        r.std_lib == match config.std_lib {
            Some(l) => Some(std_lib_of(l)),
            None => None::<compiler_model::StdLib>,
        },
        r.std_lib_installed_dir is None,
        argument_texts(r.extra_args@) == or_empty(opt_strings_view(config.extra_args)),
{
    CompilerModel {
        cpp_compiler: compiler_model::CppCompiler::from(config.cpp_compiler),
        driver_path: match cli_driver_path {
            Some(d) => d.clone(),
            None => String::new(),
        },
        cpp_standard: compiler_model::LanguageLevel::from(config.cpp_standard),
        std_lib: match config.std_lib {
            Some(l) => Some(compiler_model::StdLib::from(l)),
            None => None,
        },
        std_lib_installed_dir: None,
        extra_args: arguments_or_empty(&config.extra_args),
    }
}

/// The output directory that the configuration declares, relative to the project root:
/// a leading `./` is dropped, and `out` is taken when none is declared.
pub open spec fn declared_output_dir(config: Option<BuildAttribute>) -> Seq<char> {
    let declared = match config {
        Some(b) => opt_string_view(b.output_dir),
        None => None,
    };
    match declared {
        Some(o) => if o.len() >= 2 && o[0] == '.' && o[1] == '/' {
            o.skip(2)
        } else {
            o
        },
        None => "out"@,
    }
}

/// The model of the build settings: the output directory under the project root.
pub fn assemble_build_model(config: &Option<BuildAttribute>, project_root: &str) -> (r: BuildModel)
    ensures
        r.output_dir@ == join(project_root@, declared_output_dir(*config)),
{
    let declared: Option<&String> = match config {
        Some(b) => match &b.output_dir {
            Some(o) => Some(o),
            None => None,
        },
        None => None,
    };
    let output_dir = match declared {
        Some(o) => {
            let s = o.as_str();
            let n = s.unicode_len();
            if n >= 2 && s.get_char(0) == '.' && s.get_char(1) == '/' {
                String::from_str(s.substring_char(2, n))
            } else {
                o.clone()
            }
        },
        None => String::from_str("out"),
    };
    proof {
        reveal_strlit("out");
    }
    BuildModel { output_dir: join_path(project_root, output_dir.as_str()) }
}

/// Whether `p` names a file, as every declared file must: its last component is a name
/// (not empty, `.` or `..`).
pub open spec fn valid_file_path(p: Seq<char>) -> bool {
    names_entry(p)
}

/// The model of the partition that the configuration declares: no name and not internal
/// when it says nothing.
pub open spec fn partition_assembled(r: Option<ModulePartitionModel>, c: Option<ModulePartition>) -> bool {
    match c {
        Some(p) => r is Some && r->0.module@ == p.module@ && r->0.partition_name@ == match opt_string_view(
            p.partition_name,
        ) {
            Some(n) => n,
            None => Seq::empty(),
        } && r->0.is_internal_partition == (p.is_internal_partition == Some(true)),
        None => r is None,
    }
}

/// Whether `r` is the model of the module interface `c` declared under `base_path`: its
/// file is found under the project root, its module is the declared one (or the file
/// stem of its file).
pub open spec fn interface_assembled(
    r: &ModuleInterfaceModel,
    c: &ModuleInterface,
    base_path: Seq<char>,
    project_root: Seq<char>,
) -> bool {
    let fp = join(join(project_root, base_path), c.file@);
    &&& r.path@ == parent(fp)
    &&& r.file_stem@ == stem_of_name(file_name(fp))
    &&& r.extension@ == extension_of_name(file_name(fp))
    &&& r.module_name@ == match opt_string_view(c.module_name) {
        Some(m) => m,
        None => stem_of_name(file_name(c.file@)),
    }
    &&& partition_assembled(r.partition, c.partition)
    &&& strings_view(r.dependencies@) == or_empty(opt_strings_view(c.dependencies))
}

/// What a module interface declaration needs: a file that names an entry (and a stem
/// for its module name when it declares none).
pub open spec fn interface_declarable(c: &ModuleInterface, base_path: Seq<char>, project_root: Seq<char>) -> bool {
    &&& valid_file_path(join(join(project_root, base_path), c.file@))
    &&& c.module_name is None ==> names_entry(c.file@)
}

/// The model of the module interface `config` declared under `base_path`.
pub fn assemble_module_interface_model(config: &ModuleInterface, base_path: &str, project_root: &str) -> (r: ModuleInterfaceModel)
    requires
        interface_declarable(config, base_path@, project_root@),
    ensures
        interface_assembled(&r, config, base_path@, project_root@),
{
    let p = join_path(project_root, base_path);
    let file_path = join_path(p.as_str(), config.file.as_str());
    let module_name = match &config.module_name {
        Some(m) => m.clone(),
        None => {
            let name = crate::paths::get_file_name(config.file.as_str());
            crate::paths::get_stem_of_name(name.as_str())
        },
    };
    let dependencies = strings_or_empty(&config.dependencies);
    let partition = match &config.partition {
        Some(part) => Some(
            ModulePartitionModel {
                module: part.module.clone(),
                partition_name: match &part.partition_name {
                    Some(n) => n.clone(),
                    None => String::new(),
                },
                is_internal_partition: match part.is_internal_partition {
                    Some(b) => b,
                    None => false,
                },
            },
        ),
        None => None,
    };
    let details = get_file_details(file_path.as_str());
    match details {
        Some((path, file_stem, extension)) => ModuleInterfaceModel {
            path,
            file_stem,
            extension,
            module_name,
            partition,
            dependencies,
        },
        None => {
            proof {
                assert(false);
            }
            ModuleInterfaceModel {
                path: String::new(),
                file_stem: String::new(),
                extension: String::new(),
                module_name,
                partition,
                dependencies,
            }
        },
    }
}

/// The interface that a module implementation depends on when it declares none: the one
/// named after its file, without the extension.
pub open spec fn implicit_dependency(file: Seq<char>) -> Seq<char> {
    if last_index_of(file, '.') >= 0 {
        file.take(last_index_of(file, '.'))
    } else {
        file
    }
}

/// Whether `r` is the model of the module implementation `c` declared under `base_path`.
pub open spec fn implementation_assembled(
    r: &ModuleImplementationModel,
    c: &ModuleImplementation,
    base_path: Seq<char>,
    project_root: Seq<char>,
) -> bool {
    let fp = join(join(project_root, base_path), c.file@);
    let declared = or_empty(opt_strings_view(c.dependencies));
    &&& r.path@ == parent(fp)
    &&& r.file_stem@ == stem_of_name(file_name(fp))
    &&& r.extension@ == extension_of_name(file_name(fp))
    &&& strings_view(r.dependencies@) == if declared.len() == 0 {
        seq![implicit_dependency(c.file@)]
    } else {
        declared
    }
}

/// The model of the module implementation `config` declared under `base_path`; it
/// depends on the interfaces that it declares, or on the one named after its file.
pub fn assemble_module_implementation_model(config: &ModuleImplementation, base_path: &str, project_root: &str) -> (r: ModuleImplementationModel)
    requires
        valid_file_path(join(join(project_root@, base_path@), config.file@)),
    ensures
        implementation_assembled(&r, config, base_path@, project_root@),
{
    let mut dependencies = strings_or_empty(&config.dependencies);
    let p = join_path(project_root, base_path);
    let file_path = join_path(p.as_str(), config.file.as_str());
    if dependencies.len() == 0 {
        proof {
            crate::paths::lemma_last_index_of(config.file@, '.');
        }
        let dep = match crate::paths::rfind_char(config.file.as_str(), '.') {
            Some(idx) => String::from_str(config.file.as_str().substring_char(0, idx)),
            None => config.file.clone(),
        };
        dependencies.push(dep);
        proof {
            assert(strings_view(dependencies@) =~= seq![implicit_dependency(config.file@)]);
        }
    }
    match get_file_details(file_path.as_str()) {
        Some((path, file_stem, extension)) => ModuleImplementationModel { path, file_stem, extension, dependencies },
        None => {
            proof {
                assert(false);
            }
            ModuleImplementationModel {
                path: String::new(),
                file_stem: String::new(),
                extension: String::new(),
                dependencies,
            }
        },
    }
}

/// The text of an optional directory, or the empty one.
pub open spec fn dir_or_empty(o: Option<String>) -> Seq<char> {
    match opt_string_view(o) {
        Some(d) => d,
        None => Seq::empty(),
    }
}

/// What a declaration of modules needs: every declared file names an entry.
pub open spec fn modules_declarable(config: Option<ModulesAttribute>, project_root: Seq<char>) -> bool {
    match config {
        Some(m) => {
            &&& match m.interfaces {
                Some(v) => forall|i: int|
                    0 <= i < v@.len() ==> interface_declarable(&#[trigger] v@[i], dir_or_empty(m.base_ifcs_dir), project_root),
                None => true,
            }
            &&& match m.implementations {
                Some(v) => forall|i: int|
                    0 <= i < v@.len() ==> valid_file_path(
                        join(join(project_root, dir_or_empty(m.base_impls_dir)), (#[trigger] v@[i]).file@),
                    ),
                None => true,
            }
        },
        None => true,
    }
}

/// Whether `r` is the model of the modules that `config` declares.
pub open spec fn modules_assembled(r: &ModulesModel, config: Option<ModulesAttribute>, project_root: Seq<char>) -> bool {
    let m = match config {
        Some(m) => m,
        None => ModulesAttribute {
            base_ifcs_dir: None,
            interfaces: None,
            base_impls_dir: None,
            implementations: None,
            sys_modules: None,
        },
    };
    let ifcs: Seq<ModuleInterface> = match m.interfaces {
        Some(v) => v@,
        None => Seq::empty(),
    };
    let impls: Seq<ModuleImplementation> = match m.implementations {
        Some(v) => v@,
        None => Seq::empty(),
    };
    let headers = or_empty(opt_strings_view(m.sys_modules));
    &&& r.base_ifcs_dir@ == dir_or_empty(m.base_ifcs_dir)
    &&& r.base_impls_dir@ == dir_or_empty(m.base_impls_dir)
    &&& r.interfaces@.len() == ifcs.len()
    &&& forall|i: int|
        0 <= i < ifcs.len() ==> interface_assembled(
            &#[trigger] r.interfaces@[i],
            &ifcs[i],
            dir_or_empty(m.base_ifcs_dir),
            project_root,
        )
    &&& r.implementations@.len() == impls.len()
    &&& forall|i: int|
        0 <= i < impls.len() ==> implementation_assembled(
            &#[trigger] r.implementations@[i],
            &impls[i],
            dir_or_empty(m.base_impls_dir),
            project_root,
        )
    &&& r.sys_modules@.len() == headers.len()
    &&& forall|i: int|
        0 <= i < headers.len() ==> (#[trigger] r.sys_modules@[i]).file_stem@ == headers[i]
            && r.sys_modules@[i].path@.len() == 0 && r.sys_modules@[i].extension@.len() == 0
}

fn dir_of(o: &Option<String>) -> (r: String)
    ensures
        r@ == dir_or_empty(*o),
{
    match o {
        Some(d) => d.clone(),
        None => String::new(),
    }
}

/// The model of the modules that the configuration declares (none when it declares
/// none); the system headers are named by their file stem alone.
pub fn assemble_modules_model(config: &Option<ModulesAttribute>, project_root: &str) -> (r: ModulesModel)
    requires
        modules_declarable(*config, project_root@),
    ensures
        modules_assembled(&r, *config, project_root@),
{
    let mut interfaces: Vec<ModuleInterfaceModel> = Vec::new();
    let mut implementations: Vec<ModuleImplementationModel> = Vec::new();
    let mut sys_modules: Vec<SystemModule> = Vec::new();
    let (base_ifcs_dir, base_impls_dir) = match config {
        Some(m) => (dir_of(&m.base_ifcs_dir), dir_of(&m.base_impls_dir)),
        None => (String::new(), String::new()),
    };
    if let Some(m) = config {
        if let Some(ifcs) = &m.interfaces {
            let mut i: usize = 0;
            while i < ifcs.len()
                invariant
                    0 <= i <= ifcs@.len(),
                    interfaces@.len() == i,
                    base_ifcs_dir@ == dir_or_empty(m.base_ifcs_dir),
                    forall|j: int| 0 <= j < ifcs@.len() ==> interface_declarable(&#[trigger] ifcs@[j], base_ifcs_dir@, project_root@),
                    forall|j: int|
                        0 <= j < i ==> interface_assembled(&#[trigger] interfaces@[j], &ifcs@[j], base_ifcs_dir@, project_root@),
                decreases ifcs@.len() - i,
            {
                let ifc = assemble_module_interface_model(&ifcs[i], base_ifcs_dir.as_str(), project_root);
                interfaces.push(ifc);
                i = i + 1;
            }
        }
        if let Some(impls) = &m.implementations {
            let mut i: usize = 0;
            while i < impls.len()
                invariant
                    0 <= i <= impls@.len(),
                    implementations@.len() == i,
                    base_impls_dir@ == dir_or_empty(m.base_impls_dir),
                    forall|j: int|
                        0 <= j < impls@.len() ==> valid_file_path(join(join(project_root@, base_impls_dir@), (#[trigger] impls@[j]).file@)),
                    forall|j: int|
                        0 <= j < i ==> implementation_assembled(
                            &#[trigger] implementations@[j],
                            &impls@[j],
                            base_impls_dir@,
                            project_root@,
                        ),
                decreases impls@.len() - i,
            {
                let imp = assemble_module_implementation_model(&impls[i], base_impls_dir.as_str(), project_root);
                implementations.push(imp);
                i = i + 1;
            }
        }
        if let Some(headers) = &m.sys_modules {
            let mut i: usize = 0;
            while i < headers.len()
                invariant
                    0 <= i <= headers@.len(),
                    sys_modules@.len() == i,
                    forall|j: int|
                        0 <= j < i ==> (#[trigger] sys_modules@[j]).file_stem@ == headers@[j]@ && sys_modules@[j].path@.len() == 0
                            && sys_modules@[j].extension@.len() == 0,
                decreases headers@.len() - i,
            {
                sys_modules.push(SystemModule { path: String::new(), file_stem: headers[i].clone(), extension: String::new() });
                i = i + 1;
            }
        }
    }
    ModulesModel { base_ifcs_dir, interfaces, base_impls_dir, implementations, sys_modules }
}

/// The source file at the path `p`.
pub open spec fn source_file_at(p: Seq<char>) -> SourceFileView {
    SourceFileView { path: parent(p), file_stem: stem_of_name(file_name(p)), extension: extension_of_name(file_name(p)) }
}

/// The source files at the paths `files`.
pub open spec fn source_files_at(files: Seq<Seq<char>>) -> Seq<SourceFileView> {
    files.map_values(|p: Seq<char>| source_file_at(p))
}

/// The source files at the paths `files`, in their order.
pub fn get_sourceset_for(files: &Vec<String>) -> (r: SourceSet)
    requires
        forall|i: int| 0 <= i < files@.len() ==> valid_file_path(#[trigger] files@[i]@),
    ensures
        crate::project_model::source_file_views(r.sources@) == source_files_at(strings_view(files@)),
{
    let mut sources: Vec<SourceFile> = Vec::new();
    let mut i: usize = 0;
    while i < files.len()
        invariant
            0 <= i <= files@.len(),
            forall|k: int| 0 <= k < files@.len() ==> valid_file_path(#[trigger] files@[k]@),
            crate::project_model::source_file_views(sources@) == source_files_at(strings_view(files@.take(i as int))),
        decreases files@.len() - i,
    {
        let f = match get_file_details(files[i].as_str()) {
            Some((path, file_stem, extension)) => SourceFile { path, file_stem, extension },
            None => {
                proof {
                    assert(valid_file_path(files@[i as int]@));
                    assert(false);
                }
                SourceFile { path: String::new(), file_stem: String::new(), extension: String::new() }
            },
        };
        let ghost before = sources@;
        sources.push(f);
        proof {
            assert(sources@ =~= before.push(f));
            assert(crate::project_model::source_file_views(sources@) =~= crate::project_model::source_file_views(before).push(f@));
            assert(source_files_at(strings_view(files@.take(i + 1))) =~= source_files_at(strings_view(files@.take(i as int))).push(
                source_file_at(files@[i as int]@),
            ));
        }
        i = i + 1;
    }
    proof {
        assert(files@.take(files@.len() as int) =~= files@);
    }
    SourceSet { sources }
}

/// Whether a declared source is a pattern (it holds a `*`) and the path it stands for.
pub open spec fn source_view(s: Source) -> (bool, Seq<char>) {
    match s {
        Source::File(p) => (false, p@),
        Source::Glob(GlobPattern(p)) => (true, p@),
    }
}

fn holds_star(s: &str) -> (r: bool)
    ensures
        r == s@.contains('*'),
{
    let n = s.unicode_len();
    let mut i: usize = 0;
    while i < n
        invariant
            0 <= i <= n == s@.len(),
            forall|j: int| 0 <= j < i ==> s@[j] != '*',
        decreases n - i,
    {
        if s.get_char(i) == '*' {
            return true;
        }
        i = i + 1;
    }
    false
}

/// The sources that a target declares, placed under the project root: those holding a
/// `*` are patterns to expand, the others are files.
pub fn sources_to_resolve(srcs: &Vec<String>, project_root: &str) -> (r: Vec<Source>)
    ensures
        r@.len() == srcs@.len(),
        forall|i: int|
            0 <= i < srcs@.len() ==> source_view(#[trigger] r@[i]) == (srcs@[i]@.contains('*'), join(project_root@, srcs@[i]@)),
{
    let mut r: Vec<Source> = Vec::new();
    let mut i: usize = 0;
    while i < srcs.len()
        invariant
            0 <= i <= srcs@.len(),
            r@.len() == i,
            forall|k: int|
                0 <= k < i ==> source_view(#[trigger] r@[k]) == (srcs@[k]@.contains('*'), join(project_root@, srcs@[k]@)),
        decreases srcs@.len() - i,
    {
        let target_src = join_path(project_root, srcs[i].as_str());
        if holds_star(srcs[i].as_str()) {
            r.push(Source::Glob(GlobPattern(target_src)));
        } else {
            r.push(Source::File(target_src));
        }
        i = i + 1;
    }
    r
}

/// The model of the target `name` that the configuration declares as `c`, whose sources
/// were found at the paths `files`: the product is named after the target when the
/// configuration names none, and the target is an executable when it says nothing.
pub open spec fn target_model_of(name: Seq<char>, c: TargetAttributeView, files: Seq<Seq<char>>) -> TargetModelView {
    TargetModelView {
        output_name: match c.output_name {
            Some(o) => o,
            None => name,
        },
        sources: source_files_at(files),
        extra_args: or_empty(c.extra_args),
        kind: match c.kind {
            Some(k) => k,
            None => TargetKind::Executable,
        },
        enabled_for_current_program_iteration: true,
    }
}

/// What the targets need: the paths of the sources of every target, each naming a file.
pub open spec fn targets_resolvable(
    entries: Seq<(Seq<char>, TargetAttributeView)>,
    resolved_sources: Seq<Vec<String>>,
) -> bool {
    &&& resolved_sources.len() == entries.len()
    &&& forall|i: int, j: int|
        0 <= i < resolved_sources.len() && 0 <= j < resolved_sources[i]@.len() ==> valid_file_path(
            #[trigger] resolved_sources[i]@[j]@,
        )
}

/// The declared targets, in the order of the configuration.
pub open spec fn targets_of(
    entries: Seq<(Seq<char>, TargetAttributeView)>,
    resolved_sources: Seq<Vec<String>>,
) -> Seq<(Seq<char>, TargetModelView)> {
    Seq::new(
        entries.len(),
        |i: int| (entries[i].0, target_model_of(entries[i].0, entries[i].1, strings_view(resolved_sources[i]@))),
    )
}

/// The models of the targets that the configuration declares, in its order;
/// `resolved_sources` holds, for each target, the paths of its source files.
pub fn assemble_targets(
    config_targets: &indexmap::IndexMap<String, crate::config_file::TargetAttribute>,
    resolved_sources: &Vec<Vec<String>>,
) -> (r: indexmap::IndexMap<TargetIdentifier, TargetModel>)
    requires
        targets_resolvable(config_target_entries(*config_targets), resolved_sources@),
    ensures
        model_target_entries(r) == targets_of(config_target_entries(*config_targets), resolved_sources@),
{
    let ghost entries = config_target_entries(*config_targets);
    let mut targets = new_model_targets();
    let n = config_targets_len(config_targets);
    let mut i: usize = 0;
    while i < n
        invariant
            0 <= i <= n == entries.len(),
            entries == config_target_entries(*config_targets),
            targets_resolvable(entries, resolved_sources@),
            model_target_entries(targets) == targets_of(entries, resolved_sources@).take(i as int),
        decreases n - i,
    {
        let (name, attr) = config_target_at(config_targets, i);
        let files = &resolved_sources[i];
        proof {
            assert forall|j: int| 0 <= j < files@.len() implies valid_file_path(#[trigger] files@[j]@) by {
                assert(valid_file_path(resolved_sources@[i as int]@[j]@));
            }
        }
        let sources = get_sourceset_for(files);
        let model = TargetModel {
            output_name: match &attr.output_name {
                Some(o) => o.clone(),
                None => name.clone(),
            },
            sources,
            extra_args: arguments_or_empty(&attr.extra_args),
            kind: match attr.kind {
                Some(k) => k,
                None => TargetKind::Executable,
            },
            enabled_for_current_program_iteration: true,
        };
        proof {
            let all = targets_of(entries, resolved_sources@);
            assert(model@ == all[i as int].1);
            assert(!has_name(model_target_entries(targets), name@)) by {
                if has_name(model_target_entries(targets), name@) {
                    let k = choose|k: int| 0 <= k < model_target_entries(targets).len() && #[trigger] model_target_entries(targets)[k].0 == name@;
                    assert(all[k].0 == entries[k].0);
                }
            }
        }
        let _ = insert_model_target(&mut targets, TargetIdentifier(name.clone()), model);
        proof {
            let all = targets_of(entries, resolved_sources@);
            assert(model_target_entries(targets) =~= all.take(i + 1));
        }
        i = i + 1;
    }
    proof {
        assert(targets_of(entries, resolved_sources@).take(n as int) =~= targets_of(entries, resolved_sources@));
    }
    targets
}

/// The name of an executable: the declared one, the project's one when none is declared.
pub open spec fn executable_name_of(declared: Option<Option<String>>, project_name: Seq<char>) -> Seq<char> {
    match declared {
        Some(Some(n)) => n@,
        _ => project_name,
    }
}

/// The declared extra arguments of an executable, or none.
pub open spec fn declared_extra_args(declared: Option<Option<Vec<String>>>) -> Seq<Seq<char>> {
    match declared {
        Some(e) => or_empty(opt_strings_view(e)),
        None => Seq::empty(),
    }
}

/// The model of the executable of the project `project_name`: the name that `config`
/// declares (the project's one when it declares none), the source files at
/// `resolved_sources` (the paths that its declared sources name) and its extra
/// arguments.
pub fn assemble_executable_model(
    project_name: &str,
    config: &Option<ExecutableAttribute>,
    resolved_sources: &Vec<String>,
) -> (r: ExecutableModel)
    requires
        forall|i: int| 0 <= i < resolved_sources@.len() ==> valid_file_path(#[trigger] resolved_sources@[i]@),
    ensures
        r.executable_name@ == executable_name_of(
            match config {
                Some(c) => Some(c.executable_name),
                None => None,
            },
            project_name@,
        ),
        crate::project_model::source_file_views(r.sourceset.sources@) == source_files_at(strings_view(resolved_sources@)),
        argument_texts(r.extra_args@) == declared_extra_args(
            match config {
                Some(c) => Some(c.extra_args),
                None => None,
            },
        ),
{
    let executable_name = match config {
        Some(c) => match &c.executable_name {
            Some(n) => n.clone(),
            None => String::from_str(project_name),
        },
        None => String::from_str(project_name),
    };
    let extra_args = match config {
        Some(c) => arguments_or_empty(&c.extra_args),
        None => Vec::new(),
    };
    proof {
        assert(config is None ==> argument_texts(extra_args@) =~= Seq::<Seq<char>>::empty());
    }
    ExecutableModel { executable_name, sourceset: get_sourceset_for(resolved_sources), extra_args }
}

/// The model of the tests executable of the project `project_name`: the name that
/// `config` declares (the project's one when it declares none), the source files at
/// `resolved_sources` (the paths that its declared sources name) and its extra
/// arguments.
pub fn assemble_tests_model(
    project_name: &str,
    config: &Option<TestsAttribute>,
    resolved_sources: &Vec<String>,
) -> (r: TestsModel)
    requires
        forall|i: int| 0 <= i < resolved_sources@.len() ==> valid_file_path(#[trigger] resolved_sources@[i]@),
    ensures
        r.test_executable_name@ == executable_name_of(
            match config {
                Some(c) => Some(c.test_executable_name),
                None => None,
            },
            project_name@,
        ),
        crate::project_model::source_file_views(r.sourceset.sources@) == source_files_at(strings_view(resolved_sources@)),
        argument_texts(r.extra_args@) == declared_extra_args(
            match config {
                Some(c) => Some(c.extra_args),
                None => None,
            },
        ),
{
    let test_executable_name = match config {
        Some(c) => match &c.test_executable_name {
            Some(n) => n.clone(),
            None => String::from_str(project_name),
        },
        None => String::from_str(project_name),
    };
    let extra_args = match config {
        Some(c) => arguments_or_empty(&c.extra_args),
        None => Vec::new(),
    };
    proof {
        assert(config is None ==> argument_texts(extra_args@) =~= Seq::<Seq<char>>::empty());
    }
    TestsModel { test_executable_name, sourceset: get_sourceset_for(resolved_sources), extra_args }
}

/// Whether `r` is the model of the metadata `c`.
pub open spec fn project_assembled(r: &ProjectModel, c: &ProjectAttribute) -> bool {
    &&& r.name@ == c.name@
    &&& strings_view(r.authors@) == or_empty(opt_strings_view(c.authors))
    &&& r.compilation_db == (c.compilation_db == Some(true))
    &&& opt_string_view(r.code_root) == opt_string_view(c.project_root)
}

/// Whether `r` is the model of the compiler settings `c` with the driver `driver`.
pub open spec fn compiler_assembled(r: &CompilerModel, c: &CompilerAttribute, driver: Option<String>) -> bool {
    &&& r.cpp_compiler == compiler_of(c.cpp_compiler)
    &&& r.driver_path@ == match driver {
        Some(d) => d@,
        None => Seq::<char>::empty(),
    }
    &&& r.cpp_standard == language_level_of(c.cpp_standard)
    &&& r.std_lib == match c.std_lib {
        Some(l) => Some(std_lib_of(l)),
        None => None::<compiler_model::StdLib>,
    }
    &&& r.std_lib_installed_dir is None
    &&& argument_texts(r.extra_args@) == or_empty(opt_strings_view(c.extra_args))
}

/// The model of the project that the configuration file `config` describes, with the
/// project at `absolute_project_root`, the driver that the command line names and, for
/// every declared target, the paths of its source files.
pub fn build_model(
    config: &ZorkConfigFile,
    cli_driver_path: &Option<String>,
    absolute_project_root: &str,
    resolved_sources: &Vec<Vec<String>>,
) -> (r: ZorkModel)
    requires
        modules_declarable(config.modules, absolute_project_root@),
        targets_resolvable(config_target_entries(config.targets), resolved_sources@),
    ensures
        project_assembled(&r.project, &config.project),
        compiler_assembled(&r.compiler, &config.compiler, *cli_driver_path),
        r.build.output_dir@ == join(absolute_project_root@, declared_output_dir(config.build)),
        modules_assembled(&r.modules, config.modules, absolute_project_root@),
        model_target_entries(r.targets) == targets_of(config_target_entries(config.targets), resolved_sources@),
{
    let project = assemble_project_model(&config.project);
    let compiler = assemble_compiler_model(&config.compiler, cli_driver_path);
    let build = assemble_build_model(&config.build, absolute_project_root);
    let modules = assemble_modules_model(&config.modules, absolute_project_root);
    let targets = assemble_targets(&config.targets, resolved_sources);
    ZorkModel { project, compiler, build, modules, targets }
}

} // verus!
