//! A verified core for a build system of modern C++ projects: the data model of
//! the configuration, the generation of the compiler command lines for every
//! translation unit and target, and the bookkeeping of the cache between runs.

pub mod paths;
pub mod arguments;
pub mod cache;
pub mod compiler_model;
pub mod project_model;
pub mod target;
pub mod command_lines;
pub mod env_vars;
pub mod flyweight_data;
pub mod generator;
pub mod std_modules;
pub mod target_commands;
pub mod generation;
pub mod targets_mapping;
pub mod cache_cleanup;
pub mod execution;
pub mod target_run;
pub mod data_factory;
pub mod config_file;
pub mod reader;
pub mod worker;
pub mod cli;
pub mod msvc;
