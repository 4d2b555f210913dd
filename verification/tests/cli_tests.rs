use zork::cli::{config_file_text, replace_all, template_plan, TemplateResource, TemplateValues};
use zork::compiler_model::{self, CppCompiler};

#[test]
fn replacing_every_occurrence() {
    assert_eq!(replace_all("aXbXXc", "X", "yy"), "ayybyyyyc");
    assert_eq!(replace_all("aaa", "aa", "b"), "ba");
    assert_eq!(replace_all("abc", "zz", "q"), "abc");
    assert_eq!(
        config_file_text("name = '<project_name>'\nout = '<project_name>_out'", "calc"),
        "name = 'calc'\nout = 'calc_out'"
    );
}

#[test]
fn new_project_layout() {
    let plan = template_plan("/home", "calc", CppCompiler::CLANG, TemplateValues::BASIC);
    assert_eq!(plan.project_root, "/home/calc");
    assert_eq!(plan.directories, vec!["/home/calc", "/home/calc/ifc", "/home/calc/src", "/home/calc/test", "/home/calc/dependencies"]);
    let names: Vec<(&str, &str)> = plan.files.iter().map(|f| (f.dir.as_str(), f.name.as_str())).collect();
    assert_eq!(
        names,
        vec![
            ("/home/calc/ifc", "math.cppm"),
            ("/home/calc", "main.cpp"),
            ("/home/calc/src", "math.cpp"),
            ("/home/calc/src", "math2.cpp"),
            ("/home/calc", "zork_clang.toml"),
        ]
    );
    assert_eq!(plan.files[4].resource, TemplateResource::ConfigFileBasic);

    let plan = template_plan("/home", "calc", CppCompiler::MSVC, TemplateValues::PARTITIONS);
    let names: Vec<&str> = plan.files.iter().map(|f| f.name.as_str()).collect();
    assert_eq!(
        names,
        vec!["math.ixx", "partitions.ixx", "interface_partition.ixx", "internal_partition.cpp", "main.cpp", "math.cpp", "math2.cpp", "zork_msvc.toml"]
    );
    assert_eq!(plan.files[7].resource, TemplateResource::ConfigFileMsvc);
    let gcc = template_plan("/home", "calc", CppCompiler::GCC, TemplateValues::BASIC);
    assert_eq!(gcc.files[0].name, "math.cc");
    assert_eq!(gcc.files[4].resource, TemplateResource::ConfigFileBasicGcc);
}

#[test]
fn command_line_compilers_map_to_the_model() {
    assert_eq!(compiler_model::CppCompiler::from(zork::cli::CppCompiler::MSVC), CppCompiler::MSVC);
    assert_eq!(compiler_model::CppCompiler::from(zork::cli::CppCompiler::GCC), CppCompiler::GCC);
}
