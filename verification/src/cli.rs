//! What the command line decides: the verbosity of the logger, the compiler and the
//! template of a new project, and the files that a new project starts with.

use vstd::prelude::*;

use crate::compiler_model::{self, module_extension};
use crate::paths::{join, join_path};

verus! {

/// The levels of the messages that the logger prints.
#[derive(Debug, Clone, Copy, PartialEq, Eq, Structural)]
pub enum LogLevel {
    Error,
    Warn,
    Info,
    Debug,
}

/// How the logger is set up: the least important messages it prints, the indentation of
/// the lines that follow the first of a message, whether it prints the module path and
/// whether it prints timestamps with milliseconds.
#[derive(Debug, Clone, Copy, PartialEq, Eq, Structural)]
pub struct LoggerConfig {
    pub level: LogLevel,
    pub indent: usize,
    pub show_module_path: bool,
    pub timestamp_millis: bool,
}

/// Why the logger could not be set up.
#[derive(Debug, Clone, Copy, PartialEq, Eq, Structural)]
pub enum LoggerError {
    /// More than one `-v` was given.
    VerbosityTooHigh,
}

/// Sets up the logger for the verbosity `verbose_level` (the number of `-v` given): the
/// informative messages by default, the debug ones with `-v`; more is refused.
pub fn config_logger(verbose_level: u8) -> (r: Result<LoggerConfig, LoggerError>)
    ensures
        verbose_level > 1 <==> r is Err,
        r matches Ok(c) ==> c == (LoggerConfig {
            level: if verbose_level == 1 {
                LogLevel::Debug
            } else {
                LogLevel::Info
            },
            indent: 4,
            show_module_path: false,
            timestamp_millis: true,
        }),
        r matches Err(e) ==> e == LoggerError::VerbosityTooHigh,
{
    let level = if verbose_level == 1 {
        LogLevel::Debug
    } else if verbose_level > 1 {
        return Err(LoggerError::VerbosityTooHigh);
    } else {
        LogLevel::Info
    };
    Ok(LoggerConfig { level, indent: 4, show_module_path: false, timestamp_millis: true })
}

/// The compilers that a new project can be made for.
/// The level of the quiet logger, which reports only errors unless asked for more: one
/// `-v` adds the warnings, `-vv` the information; more is not supported.
pub fn quiet_logger_level(verbose_level: u8) -> (r: LogLevel)
    requires
        verbose_level <= 2,
    ensures
        r == if verbose_level == 0 {
            LogLevel::Error
        } else if verbose_level == 1 {
            LogLevel::Warn
        } else {
            LogLevel::Info
        },
{
    if verbose_level == 1 {
        LogLevel::Warn
    } else if verbose_level == 2 {
        LogLevel::Info
    } else {
        LogLevel::Error
    }
}

#[derive(Debug, Clone, Copy, PartialEq, Eq, Structural)]
pub enum CppCompiler {
    CLANG,
    MSVC,
    GCC,
}

/// The compiler of the model that a compiler of the command line names.
pub open spec fn cli_compiler_of(v: CppCompiler) -> compiler_model::CppCompiler {
    match v {
        CppCompiler::CLANG => compiler_model::CppCompiler::CLANG,
        CppCompiler::MSVC => compiler_model::CppCompiler::MSVC,
        CppCompiler::GCC => compiler_model::CppCompiler::GCC,
    }
}

impl From<CppCompiler> for compiler_model::CppCompiler {
    fn from(value: CppCompiler) -> (r: compiler_model::CppCompiler) {
        match value {
            CppCompiler::CLANG => compiler_model::CppCompiler::CLANG,
            CppCompiler::MSVC => compiler_model::CppCompiler::MSVC,
            CppCompiler::GCC => compiler_model::CppCompiler::GCC,
        }
    }
}

impl vstd::std_specs::convert::FromSpecImpl<CppCompiler> for compiler_model::CppCompiler {
    open spec fn obeys_from_spec() -> bool {
        true
    }

    open spec fn from_spec(v: CppCompiler) -> compiler_model::CppCompiler {
        cli_compiler_of(v)
    }
}

/// The templates that a new project can start from.
#[derive(Debug, Clone, Copy, PartialEq, Eq, Structural)]
pub enum TemplateValues {
    BASIC,
    PARTITIONS,
}

/// The texts that the files of a new project are made of.
#[derive(Debug, Clone, Copy, PartialEq, Eq, Structural)]
pub enum TemplateResource {
    IfcModFile,
    MainBasic,
    IfcPartFile,
    IfcPartPartitionFile,
    PartitionsInternalPartitionFile,
    Main,
    SrcModFile,
    SrcModFile2,
    ConfigFileBasicMsvc,
    ConfigFileMsvc,
    ConfigFileBasic,
    ConfigFile,
    ConfigFileBasicGcc,
    ConfigFileGcc,
}

/// A file of a new project: where it goes, its name and the text that it is made of.
#[derive(Debug, Clone, PartialEq, Eq)]
pub struct PlannedFile {
    pub dir: String,
    pub name: String,
    pub resource: TemplateResource,
}

/// The model of a [`PlannedFile`].
pub struct PlannedFileView {
    pub dir: Seq<char>,
    pub name: Seq<char>,
    pub resource: TemplateResource,
}

impl View for PlannedFile {
    type V = PlannedFileView;

    open spec fn view(&self) -> PlannedFileView {
        PlannedFileView { dir: self.dir@, name: self.name@, resource: self.resource }
    }
}

/// What a new project is made of: its root, its directories (in the order they are
/// made) and its files (in the order they are written); the configuration file is the
/// last of them, and its text is the template with the name of the project in it.
#[derive(Debug, Clone, PartialEq, Eq)]
pub struct TemplatePlan {
    pub project_root: String,
    pub directories: Vec<String>,
    pub files: Vec<PlannedFile>,
}

/// The configuration template of a new project.
pub open spec fn config_template_of(compiler: compiler_model::CppCompiler, template: TemplateValues) -> TemplateResource {
    match compiler {
        compiler_model::CppCompiler::MSVC => match template {
            TemplateValues::BASIC => TemplateResource::ConfigFileBasicMsvc,
            TemplateValues::PARTITIONS => TemplateResource::ConfigFileMsvc,
        },
        compiler_model::CppCompiler::CLANG => match template {
            TemplateValues::BASIC => TemplateResource::ConfigFileBasic,
            TemplateValues::PARTITIONS => TemplateResource::ConfigFile,
        },
        compiler_model::CppCompiler::GCC => match template {
            TemplateValues::BASIC => TemplateResource::ConfigFileBasicGcc,
            TemplateValues::PARTITIONS => TemplateResource::ConfigFileGcc,
        },
    }
}

/// The files of a new project rooted at `root`, in the order they are written.
pub open spec fn template_files(root: Seq<char>, compiler: compiler_model::CppCompiler, template: TemplateValues) -> Seq<PlannedFileView> {
    let ifc = join(root, "ifc"@);
    let src = join(root, "src"@);
    let ext = module_extension(compiler);
    let first = seq![PlannedFileView { dir: ifc, name: "math"@ + "."@ + ext, resource: TemplateResource::IfcModFile }];
    let middle = match template {
        TemplateValues::BASIC => seq![PlannedFileView { dir: root, name: "main.cpp"@, resource: TemplateResource::MainBasic }],
        TemplateValues::PARTITIONS => seq![
            PlannedFileView { dir: ifc, name: "partitions"@ + "."@ + ext, resource: TemplateResource::IfcPartFile },
            PlannedFileView { dir: ifc, name: "interface_partition"@ + "."@ + ext, resource: TemplateResource::IfcPartPartitionFile },
            PlannedFileView {
                dir: ifc,
                name: "internal_partition.cpp"@,
                resource: TemplateResource::PartitionsInternalPartitionFile,
            },
            PlannedFileView { dir: root, name: "main.cpp"@, resource: TemplateResource::Main },
        ],
    };
    let last = seq![
        PlannedFileView { dir: src, name: "math.cpp"@, resource: TemplateResource::SrcModFile },
        PlannedFileView { dir: src, name: "math2.cpp"@, resource: TemplateResource::SrcModFile2 },
        PlannedFileView {
            dir: root,
            name: "zork_"@ + crate::compiler_model::compiler_name(compiler) + ".toml"@,
            resource: config_template_of(compiler, template),
        },
    ];
    first + middle + last
}

fn planned(dir: &String, name: String, resource: TemplateResource) -> (r: PlannedFile)
    ensures
        r@ == (PlannedFileView { dir: dir@, name: name@, resource }),
{
    PlannedFile { dir: dir.clone(), name, resource }
}

fn with_ext(stem: &str, ext: &str) -> (r: String)
    ensures
        r@ == stem@ + "."@ + ext@,
{
    let mut s = String::from_str(stem);
    s.append(".");
    s.append(ext);
    s
}

/// The plan of a new project named `project_name` under `base_path`: its root, the
/// directories `ifc`, `src`, `test` and `dependencies` below it, and its files (see
/// `template_files`).
pub fn template_plan(
    base_path: &str,
    project_name: &str,
    compiler: compiler_model::CppCompiler,
    template: TemplateValues,
) -> (r: TemplatePlan)
    ensures
        ({
            let root = join(base_path@, project_name@);
            &&& r.project_root@ == root
            &&& r.directories@.map_values(|d: String| d@) == seq![
                root,
                join(root, "ifc"@),
                join(root, "src"@),
                join(root, "test"@),
                join(root, "dependencies"@),
            ]
            &&& r.files@.map_values(|f: PlannedFile| f@) == template_files(root, compiler, template)
        }),
{
    let root = join_path(base_path, project_name);
    let ifc = join_path(root.as_str(), "ifc");
    let src = join_path(root.as_str(), "src");
    let test = join_path(root.as_str(), "test");
    let deps = join_path(root.as_str(), "dependencies");
    let ext = compiler.get_default_module_extension();
    let mut files: Vec<PlannedFile> = Vec::new();
    files.push(planned(&ifc, with_ext("math", ext), TemplateResource::IfcModFile));
    match template {
        TemplateValues::BASIC => {
            files.push(planned(&root, String::from_str("main.cpp"), TemplateResource::MainBasic));
        },
        TemplateValues::PARTITIONS => {
            files.push(planned(&ifc, with_ext("partitions", ext), TemplateResource::IfcPartFile));
            files.push(planned(&ifc, with_ext("interface_partition", ext), TemplateResource::IfcPartPartitionFile));
            files.push(
                planned(&ifc, String::from_str("internal_partition.cpp"), TemplateResource::PartitionsInternalPartitionFile),
            );
            files.push(planned(&root, String::from_str("main.cpp"), TemplateResource::Main));
        },
    }
    files.push(planned(&src, String::from_str("math.cpp"), TemplateResource::SrcModFile));
    files.push(planned(&src, String::from_str("math2.cpp"), TemplateResource::SrcModFile2));
    let mut config_name = String::from_str("zork_");
    config_name.append(compiler.as_str());
    config_name.append(".toml");
    let config_template = match compiler {
        compiler_model::CppCompiler::MSVC => match template {
            TemplateValues::BASIC => TemplateResource::ConfigFileBasicMsvc,
            TemplateValues::PARTITIONS => TemplateResource::ConfigFileMsvc,
        },
        compiler_model::CppCompiler::CLANG => match template {
            TemplateValues::BASIC => TemplateResource::ConfigFileBasic,
            TemplateValues::PARTITIONS => TemplateResource::ConfigFile,
        },
        compiler_model::CppCompiler::GCC => match template {
            TemplateValues::BASIC => TemplateResource::ConfigFileBasicGcc,
            TemplateValues::PARTITIONS => TemplateResource::ConfigFileGcc,
        },
    };
    files.push(planned(&root, config_name, config_template));
    proof {
        reveal_strlit("math");
        reveal_strlit("partitions");
        reveal_strlit("interface_partition");
        reveal_strlit(".");
        reveal_strlit("zork_");
        reveal_strlit(".toml");
        assert(files@.map_values(|f: PlannedFile| f@) =~= template_files(root@, compiler, template));
    }
    let mut directories: Vec<String> = Vec::new();
    directories.push(root.clone());
    directories.push(ifc);
    directories.push(src);
    directories.push(test);
    directories.push(deps);
    proof {
        assert(directories@.map_values(|d: String| d@) =~= seq![
            root@,
            join(root@, "ifc"@),
            join(root@, "src"@),
            join(root@, "test"@),
            join(root@, "dependencies"@),
        ]);
    }
    TemplatePlan { project_root: root, directories, files }
}

/// `s` with every occurrence of `pattern` (from the left, not overlapping) replaced by
/// `with`.
pub open spec fn replaced(s: Seq<char>, pattern: Seq<char>, with: Seq<char>) -> Seq<char>
    recommends
        pattern.len() > 0,
    decreases s.len(),
{
    if pattern.len() == 0 || s.len() < pattern.len() {
        s
    } else if s.take(pattern.len() as int) == pattern {
        with + replaced(s.skip(pattern.len() as int), pattern, with)
    } else {
        seq![s[0]] + replaced(s.skip(1), pattern, with)
    }
}

/// `s` with every occurrence of `pattern` replaced by `with`.
pub fn replace_all(s: &str, pattern: &str, with: &str) -> (r: String)
    requires
        pattern@.len() > 0,
    ensures
        r@ == replaced(s@, pattern@, with@),
{
    let n = s.unicode_len();
    let m = pattern.unicode_len();
    let mut out = String::new();
    let mut i: usize = 0;
    proof {
        assert(s@.skip(0) =~= s@);
        assert(out@ + replaced(s@, pattern@, with@) =~= replaced(s@, pattern@, with@));
    }
    while i < n
        invariant
            0 <= i <= n == s@.len(),
            m == pattern@.len() > 0,
            out@ + replaced(s@.skip(i as int), pattern@, with@) == replaced(s@, pattern@, with@),
        decreases n - i,
    {
        let ghost rest = s@.skip(i as int);
        let ghost o = out@;
        let matches = m <= n - i && crate::paths::str_equal(s.substring_char(i, i + m), pattern);
        if matches {
            proof {
                assert(rest.take(m as int) =~= s@.subrange(i as int, i + m));
                assert(rest.skip(m as int) =~= s@.skip(i + m));
                assert(replaced(rest, pattern@, with@) == with@ + replaced(s@.skip(i + m), pattern@, with@));
                assert(o + with@ + replaced(s@.skip(i + m), pattern@, with@) =~= o + (with@ + replaced(s@.skip(i + m), pattern@, with@)));
            }
            out.append(with);
            i = i + m;
        } else {
            let c = s.substring_char(i, i + 1);
            proof {
                assert(c@ =~= seq![rest[0]]);
                assert(rest.skip(1) =~= s@.skip(i + 1));
                if m <= n - i {
                    assert(rest.take(m as int) =~= s@.subrange(i as int, i + m));
                    assert(replaced(rest, pattern@, with@) == seq![rest[0]] + replaced(rest.skip(1), pattern@, with@));
                } else {
                    assert(replaced(rest, pattern@, with@) == rest);
                    assert(replaced(rest.skip(1), pattern@, with@) == rest.skip(1));
                    assert(rest =~= seq![rest[0]] + rest.skip(1));
                }
                assert(o + c@ + replaced(s@.skip(i + 1), pattern@, with@) =~= o + (seq![rest[0]] + replaced(rest.skip(1), pattern@, with@)));
            }
            out.append(c);
            i = i + 1;
        }
    }
    proof {
        assert(s@.skip(n as int) =~= Seq::<char>::empty());
        assert(out@ + Seq::<char>::empty() =~= out@);
    }
    out
}

/// The text of the configuration file of a new project named `project_name`: the
/// template with the project name in place of `<project_name>`.
pub fn config_file_text(template: &str, project_name: &str) -> (r: String)
    ensures
        r@ == replaced(template@, "<project_name>"@, project_name@),
{
    proof {
        reveal_strlit("<project_name>");
    }
    replace_all(template, "<project_name>", project_name)
}

/// Whether a configuration template is one of the partitions template (which declares
/// the partition files of the project).
pub open spec fn declares_partitions(r: TemplateResource) -> bool {
    r == TemplateResource::ConfigFile || r == TemplateResource::ConfigFileMsvc || r == TemplateResource::ConfigFileGcc
}

/// Whether a configuration template is written for the compiler `compiler`.
pub open spec fn written_for(r: TemplateResource, compiler: compiler_model::CppCompiler) -> bool {
    match compiler {
        compiler_model::CppCompiler::CLANG => r == TemplateResource::ConfigFile || r == TemplateResource::ConfigFileBasic,
        compiler_model::CppCompiler::MSVC => r == TemplateResource::ConfigFileMsvc || r
            == TemplateResource::ConfigFileBasicMsvc,
        compiler_model::CppCompiler::GCC => r == TemplateResource::ConfigFileGcc || r == TemplateResource::ConfigFileBasicGcc,
    }
}

/// The configuration file of a new project comes from the template written for its
/// compiler, and declares the partition files exactly when the project is made from the
/// partitions template; so different choices of compiler and template never give the
/// same configuration. It is the last file of the plan, named after the compiler.
pub proof fn lemma_config_template_fits_the_choice(
    root: Seq<char>,
    compiler: compiler_model::CppCompiler,
    template: TemplateValues,
    compiler2: compiler_model::CppCompiler,
    template2: TemplateValues,
)
    ensures
        written_for(config_template_of(compiler, template), compiler),
        declares_partitions(config_template_of(compiler, template)) <==> template == TemplateValues::PARTITIONS,
        config_template_of(compiler, template) == config_template_of(compiler2, template2) ==> compiler == compiler2
            && template == template2,
        template_files(root, compiler, template).last().resource == config_template_of(compiler, template),
        template_files(root, compiler, template).last().name == "zork_"@ + crate::compiler_model::compiler_name(compiler)
            + ".toml"@,
{
}

} // verus!
