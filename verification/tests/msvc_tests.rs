use zork::compiler_model::CppCompiler;
use zork::env_vars::EnvVars;
use zork::msvc::{
    env_pair_of_line, escape_dev_commands_prompt, load_env_vars_from_cmd_output, load_metadata_from_env,
    set_modular_stdlib_paths, split_lines, trim_text, MsvcMetadataError,
};
use zork::worker::empty_msvc_metadata;

#[test]
fn env_vars_from_the_set_command() {
    let output = "Path=C:\\Windows;C:\\bin\r\nVisualStudioVersion=17.0\r\n  VCToolsInstallDir = C:\\VC\\Tools\\ \r\nCommonProgramFiles(x86)=C:\\x\r\nweird line\r\n=nothing\r\nEMPTY=\r\n";
    let env = load_env_vars_from_cmd_output(output);
    assert_eq!(env.get("Path"), Some(&String::from("C:\\Windows;C:\\bin")));
    assert_eq!(env.get("VisualStudioVersion"), Some(&String::from("17.0")));
    assert_eq!(env.get("VCToolsInstallDir"), Some(&String::from("C:\\VC\\Tools\\")));
    assert_eq!(env.get("CommonProgramFiles(x86)"), None);
    assert_eq!(env.get("weird line"), None);
    assert_eq!(env.get(""), None);
    assert_eq!(env.get("EMPTY"), Some(&String::new()));
    assert_eq!(env.entries().len(), 4);
}

#[test]
fn lines_pairs_and_trimming() {
    assert_eq!(split_lines("a\nb\n\nc"), vec!["a", "b", "", "c"]);
    assert_eq!(split_lines("a\n"), vec!["a"]);
    assert!(split_lines("").is_empty());
    assert_eq!(env_pair_of_line(" K = v=w "), (String::from("K"), String::from("v=w")));
    assert_eq!(env_pair_of_line("novalue"), (String::from("novalue"), String::new()));
    assert_eq!(trim_text("\u{3000}\t x y \r\n"), "x y");
    assert_eq!(trim_text("   "), "");
}

#[test]
fn msvc_metadata_from_the_environment() {
    let mut msvc = empty_msvc_metadata();
    let mut env = EnvVars::new();
    env.insert(String::from("VisualStudioVersion"), String::from("17.0"));
    assert_eq!(load_metadata_from_env(&mut msvc, env), Err(MsvcMetadataError::MissingVcToolsDir));
    assert_eq!(msvc.compiler_version, Some(String::from("17.0")));

    let mut env = EnvVars::new();
    env.insert(String::from("VCToolsInstallDir"), String::from("C:/VC/Tools"));
    assert_eq!(load_metadata_from_env(&mut msvc, env), Ok(String::from("C:/VC/Tools/modules")));
    assert_eq!(msvc.compiler_version, None);

    set_modular_stdlib_paths(&mut msvc, "C:/VC/Tools/modules", "/p/out", CppCompiler::MSVC);
    assert_eq!(msvc.vs_stdlib_path.file_stem, "std");
    assert_eq!(msvc.vs_stdlib_path.extension, "ixx");
    assert_eq!(msvc.vs_ccompat_stdlib_path.file_stem, "std.compat");
    assert_eq!(msvc.stdlib_bmi_path, "/p/out/msvc/modules/std/std.ifc");
    assert_eq!(msvc.stdlib_obj_path, "/p/out/msvc/modules/std/std.obj");
    assert_eq!(msvc.ccompat_stdlib_bmi_path, "/p/out/msvc/modules/std/std.compat.ifc");
    assert_eq!(msvc.ccompat_stdlib_obj_path, "/p/out/msvc/modules/std/std.compat.obj");
}

#[test]
fn developer_prompt_path_is_escaped() {
    assert_eq!(
        escape_dev_commands_prompt("C:\\Program Files\\Microsoft Visual Studio\\2022\\vcvars64.bat"),
        "C:\\\"Program Files\"\\\"Microsoft Visual Studio\"\\2022\\vcvars64.bat"
    );
    assert_eq!(escape_dev_commands_prompt("D:\\vs\\vcvars64.bat"), "D:\\vs\\vcvars64.bat");
}
