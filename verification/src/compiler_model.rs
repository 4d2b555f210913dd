//! The compiler part of the project model: which compiler drives the build, at which
//! language level, against which standard library, and with which extra arguments.

use vstd::prelude::*;

use crate::arguments::Argument;

verus! {

/// The C++ compilers that the build system drives.
#[derive(Debug, Clone, Copy, PartialEq, Eq, Structural)]
pub enum CppCompiler {
    CLANG,
    MSVC,
    GCC,
}

/// The name of a compiler, as used in paths and messages.
pub open spec fn compiler_name(c: CppCompiler) -> Seq<char> {
    match c {
        CppCompiler::CLANG => "clang"@,
        CppCompiler::MSVC => "msvc"@,
        CppCompiler::GCC => "gcc"@,
    }
}

/// The driver that is invoked for a compiler when the user does not give one.
pub open spec fn default_driver(c: CppCompiler) -> Seq<char> {
    match c {
        CppCompiler::CLANG => "clang++"@,
        CppCompiler::MSVC => "cl"@,
        CppCompiler::GCC => "g++"@,
    }
}

/// The extension of the module interface files that a compiler expects by default.
pub open spec fn module_extension(c: CppCompiler) -> Seq<char> {
    match c {
        CppCompiler::CLANG => "cppm"@,
        CppCompiler::MSVC => "ixx"@,
        CppCompiler::GCC => "cc"@,
    }
}

/// The extension of the binary module interfaces that a compiler produces.
pub open spec fn bmi_extension(c: CppCompiler) -> Seq<char> {
    match c {
        CppCompiler::CLANG => "pcm"@,
        CppCompiler::MSVC => "ifc"@,
        CppCompiler::GCC => "o"@,
    }
}

/// The extension of the object files that a compiler produces.
pub open spec fn obj_extension(c: CppCompiler) -> Seq<char> {
    match c {
        CppCompiler::CLANG | CppCompiler::GCC => "o"@,
        CppCompiler::MSVC => "obj"@,
    }
}

impl CppCompiler {
    /// The name of the compiler.
    pub fn as_str(&self) -> (r: &'static str)
        ensures
            r@ == compiler_name(*self),
    {
        match *self {
            CppCompiler::CLANG => "clang",
            CppCompiler::MSVC => "msvc",
            CppCompiler::GCC => "gcc",
        }
    }

    /// The driver invoked on the command line: the one that the compiler model names,
    /// or the usual one of the compiler when it names none.
    pub fn get_driver(&self, compiler_model: &CompilerModel) -> (r: String)
        ensures
            r@ == if compiler_model.driver_path@.len() > 0 {
                compiler_model.driver_path@
            } else {
                default_driver(*self)
            },
    {
        if compiler_model.driver_path.as_str().unicode_len() > 0 {
            compiler_model.driver_path.clone()
        } else {
            String::from_str(
                match *self {
                    CppCompiler::CLANG => "clang++",
                    CppCompiler::MSVC => "cl",
                    CppCompiler::GCC => "g++",
                },
            )
        }
    }

    /// The extension of module interface files that the compiler expects by default.
    pub fn default_module_extension(&self) -> (r: String)
        ensures
            r@ == module_extension(*self),
    {
        String::from_str(self.get_default_module_extension())
    }

    /// The extension of module interface files that the compiler expects by default.
    pub fn get_default_module_extension(&self) -> (r: &'static str)
        ensures
            r@ == module_extension(*self),
    {
        match *self {
            CppCompiler::CLANG => "cppm",
            CppCompiler::MSVC => "ixx",
            CppCompiler::GCC => "cc",
        }
    }

    /// The extension of the binary module interfaces that the compiler produces.
    pub fn typical_bmi_extension(&self) -> (r: String)
        ensures
            r@ == bmi_extension(*self),
    {
        String::from_str(self.get_typical_bmi_extension())
    }

    /// The extension of the binary module interfaces that the compiler produces.
    pub fn get_typical_bmi_extension(&self) -> (r: &'static str)
        ensures
            r@ == bmi_extension(*self),
    {
        match *self {
            CppCompiler::CLANG => "pcm",
            CppCompiler::MSVC => "ifc",
            CppCompiler::GCC => "o",
        }
    }

    /// The extension of the object files that the compiler produces.
    pub fn obj_file_extension(&self) -> (r: String)
        ensures
            r@ == obj_extension(*self),
    {
        String::from_str(self.get_obj_file_extension())
    }

    /// The extension of the object files that the compiler produces.
    pub fn get_obj_file_extension(&self) -> (r: &'static str)
        ensures
            r@ == obj_extension(*self),
    {
        match *self {
            CppCompiler::CLANG | CppCompiler::GCC => "o",
            CppCompiler::MSVC => "obj",
        }
    }
}

/// The ISO C++ standard levels of the language.
#[derive(Debug, Clone, Copy, PartialEq, Eq, Structural)]
pub enum LanguageLevel {
    CPP20,
    CPP23,
    CPP2A,
    CPP2B,
    LATEST,
}

/// How a language level is written on the command line.
pub open spec fn language_level_name(l: LanguageLevel) -> Seq<char> {
    match l {
        LanguageLevel::CPP20 => "20"@,
        LanguageLevel::CPP23 => "23"@,
        LanguageLevel::CPP2A => "2a"@,
        LanguageLevel::CPP2B => "2b"@,
        LanguageLevel::LATEST => "latest"@,
    }
}

impl LanguageLevel {
    /// How the level is written on the command line.
    pub fn as_str(&self) -> (r: &'static str)
        ensures
            r@ == language_level_name(*self),
    {
        match *self {
            LanguageLevel::CPP20 => "20",
            LanguageLevel::CPP23 => "23",
            LanguageLevel::CPP2A => "2a",
            LanguageLevel::CPP2B => "2b",
            LanguageLevel::LATEST => "latest",
        }
    }
}

/// The vendor standard libraries to link against.
#[derive(Debug, Clone, Copy, PartialEq, Eq, Structural)]
pub enum StdLib {
    STDLIBCPP,
    LIBCPP,
}

impl Default for StdLib {
    /// libc++.
    fn default() -> (r: StdLib)
        ensures
            r == StdLib::LIBCPP,
    {
        StdLib::LIBCPP
    }
}

/// The name of a standard library.
pub open spec fn std_lib_name(l: StdLib) -> Seq<char> {
    match l {
        StdLib::STDLIBCPP => "libstdc++"@,
        StdLib::LIBCPP => "libc++"@,
    }
}

impl StdLib {
    /// The name of the library.
    pub fn as_str(&self) -> (r: &'static str)
        ensures
            r@ == std_lib_name(*self),
    {
        match *self {
            StdLib::STDLIBCPP => "libstdc++",
            StdLib::LIBCPP => "libc++",
        }
    }

    /// The argument that selects the library.
    pub fn as_arg(&self) -> (r: Argument)
        ensures
            r@ == "-stdlib="@ + std_lib_name(*self),
    {
        let mut s = String::from_str("-stdlib=");
        s.append(self.as_str());
        Argument::new(s)
    }
}

/// The two modular standard libraries that compiler vendors ship.
#[derive(Debug, Clone, Copy, PartialEq, Eq, Structural)]
pub enum StdLibMode {
    /// The C++ standard library.
    Cpp,
    /// The C++ standard library together with the C standard library.
    CCompat,
}

/// The description of a modular standard library.
pub open spec fn std_lib_mode_info(m: StdLibMode) -> Seq<char> {
    match m {
        StdLibMode::Cpp => "C++ standard library implementation"@,
        StdLibMode::CCompat => "C++ C compat standard library implementation"@,
    }
}

impl StdLibMode {
    /// A description of the library for messages.
    pub fn printable_info(&self) -> (r: &'static str)
        ensures
            r@ == std_lib_mode_info(*self),
    {
        match self {
            StdLibMode::Cpp => "C++ standard library implementation",
            StdLibMode::CCompat => "C++ C compat standard library implementation",
        }
    }
}

/// The compiler settings of a project.
#[derive(Debug, Clone, PartialEq, Eq)]
pub struct CompilerModel {
    pub cpp_compiler: CppCompiler,
    pub driver_path: String,
    pub cpp_standard: LanguageLevel,
    pub std_lib: Option<StdLib>,
    pub std_lib_installed_dir: Option<String>,
    pub extra_args: Vec<Argument>,
}

/// The argument that sets the language level for a compiler.
pub open spec fn language_level_text(c: CppCompiler, l: LanguageLevel) -> Seq<char> {
    match c {
        CppCompiler::CLANG | CppCompiler::GCC => "-std=c++"@ + language_level_name(l),
        CppCompiler::MSVC => "/std:c++"@ + language_level_name(l),
    }
}

impl CompilerModel {
    /// The argument that sets the language level, in the syntax of the compiler.
    pub fn language_level(&self) -> (r: String)
        ensures
            r@ == language_level_text(self.cpp_compiler, self.cpp_standard),
    {
        let mut s = match self.cpp_compiler {
            CppCompiler::CLANG | CppCompiler::GCC => String::from_str("-std=c++"),
            CppCompiler::MSVC => String::from_str("/std:c++"),
        };
        s.append(self.cpp_standard.as_str());
        s
    }

    /// The language level as an argument.
    pub fn language_level_arg(&self) -> (r: Argument)
        ensures
            r@ == language_level_text(self.cpp_compiler, self.cpp_standard),
    {
        Argument::new(self.language_level())
    }

    /// The argument that selects the standard library, when the model names one.
    pub fn stdlib_arg(&self) -> (r: Option<Argument>)
        ensures
            match self.std_lib {
                Some(lib) => r matches Some(a) && a@ == "-stdlib="@ + std_lib_name(lib),
                None => r is None,
            },
    {
        match self.std_lib {
            Some(lib) => Some(lib.as_arg()),
            None => None,
        }
    }

    /// The extra arguments that the user gives to every command line.
    pub fn extra_args(&self) -> (r: &Vec<Argument>)
        ensures
            r == &self.extra_args,
    {
        &self.extra_args
    }
}

} // verus!
