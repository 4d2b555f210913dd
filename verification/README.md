# zork

A build system for C++20 modules projects (`zork++`), with its core verified by Verus.

## Layout

- `src/` — the verified library:
  - `paths`, `arguments`, `env_vars`: paths as `/`-separated strings, command line
    arguments, environment variables (one value per name).
  - `config_file`, `reader`: the configuration file and the model of the project built
    from it (`project_model`, `compiler_model`, `target`).
  - `generator`, `std_modules`, `target_commands`, `generation`: the command lines of
    every translation unit and target, generated once and refreshed run after run from
    what changed on disk; `flyweight_data` and `data_factory` hold the shared arguments.
  - `cache`, `command_lines`, `cache_cleanup`, `targets_mapping`: what the cache keeps
    between runs and how it follows the configuration.
  - `execution`, `target_run`: which command lines run, with which arguments, what each
    outcome means and whether the run goes on; the compilation database.
  - `worker`, `cli`, `msvc`: the decisions of a run (configuration files, cache
    location and loading, final tasks), the command line, new projects, and the
    environment of MSVC.
- `app/` — the program: command line parsing, reading and writing files, running the
  compilers, and the JSON and TOML formats.
- `tests/` — tests of the library on concrete values.
