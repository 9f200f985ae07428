use cm::cli::{Activate, Build, Cli, Command, Configure, Deactivate, Lit, Quirks};
use cm::cm::{
    build_cmd, command_exit, detect_quirks, effective_quirks, lit_json_path, plan, plan_activate,
    plan_build, plan_configure, plan_deactivate, plan_lit, render_command, resolve_paths,
    CommandFailedError, CommandSpec, Paths, Probes,
};
use cm::resultdb::{ResultDB, TestRecord};

fn strings(v: &[&str]) -> Vec<String> {
    v.iter().map(|s| s.to_string()).collect()
}

fn base_cli(command: Command) -> Cli {
    Cli {
        source: None,
        binary: None,
        config: "Release".to_string(),
        debug: false,
        dry_run: false,
        quirks: None,
        command,
    }
}

fn base_configure() -> Configure {
    Configure {
        prefix_path: vec![],
        generator: "Ninja".to_string(),
        makefiles: false,
        flag: vec![],
        san: false,
        expensive_checks: false,
        enable_projects: None,
        targets_to_build: None,
        targets_to_build_alt: None,
        args: vec![],
    }
}

fn base_lit() -> Lit {
    Lit {
        print_only: false,
        xfail_export: false,
        update_resultdb: true,
        group: None,
        first: false,
        verbose: false,
        tests: vec![],
        args: vec![],
    }
}

fn no_probes() -> Probes {
    Probes {
        sphinx_build: false,
        lld: false,
        gold: false,
        ccache: false,
        cc_fuse_ld_lld: false,
        cc_fuse_ld_gold: false,
        cc_color_diagnostics: false,
    }
}

fn paths(source: &str, binary: &str) -> Paths {
    Paths { source: source.to_string(), binary: binary.to_string() }
}

#[test]
fn configure_defaults_reproduce_the_documented_strings() {
    let c = base_configure();
    let cli = base_cli(Command::Configure(base_configure()));
    let v = plan_configure(&c, &cli, Quirks::Generic, &paths(".", "build"), &no_probes(), &None, &None);
    assert_eq!(v.len(), 2);
    assert_eq!(v[0].program, "rm");
    assert_eq!(v[0].args, strings(&["-rf", "build/CMakeCache.txt", "build/CMakeFiles"]));
    assert_eq!(v[1].program, "cmake");
    assert_eq!(
        v[1].args,
        strings(&[
            "-S",
            ".",
            "-B",
            "build",
            "-G",
            "Ninja",
            "-DCMAKE_BUILD_TYPE=Release",
            "-DCMAKE_PREFIX_PATH=",
            "-DCMAKE_INSTALL_PREFIX=dist",
            "-DCMAKE_EXPORT_COMPILE_COMMANDS=On",
            "-DLLVM_ENABLE_PROJECTS=llvm;clang;lld",
            "-DLLVM_TARGETS_TO_BUILD=all",
            "-DCMAKE_C_FLAGS=",
            "-DCMAKE_CXX_FLAGS=",
        ])
    );
    assert!(v[1].envs.is_empty());
}

#[test]
fn explicit_target_implies_the_host_native_target() {
    let mut c = base_configure();
    c.targets_to_build = Some(strings(&["AMDGPU"]));
    let cli = base_cli(Command::Configure(base_configure()));
    let v = plan_configure(&c, &cli, Quirks::Generic, &paths(".", "build"), &no_probes(), &None, &None);
    assert!(v[1].args.contains(&"-DLLVM_TARGETS_TO_BUILD=AMDGPU;Native".to_string()));
}

#[test]
fn alternate_target_list_suppresses_the_native_target() {
    let mut c = base_configure();
    c.targets_to_build_alt = Some(strings(&["X86", "ARM"]));
    let cli = base_cli(Command::Configure(base_configure()));
    let v = plan_configure(&c, &cli, Quirks::Generic, &paths(".", "build"), &no_probes(), &None, &None);
    assert!(v[1].args.contains(&"-DLLVM_TARGETS_TO_BUILD=X86;ARM".to_string()));
}

#[test]
fn explicit_projects_replace_the_default_set() {
    let mut c = base_configure();
    c.enable_projects = Some(strings(&["llvm", "mlir"]));
    let cli = base_cli(Command::Configure(base_configure()));
    let v = plan_configure(&c, &cli, Quirks::Generic, &paths(".", "build"), &no_probes(), &None, &None);
    assert!(v[1].args.contains(&"-DLLVM_ENABLE_PROJECTS=llvm;mlir".to_string()));
}

#[test]
fn inherited_flags_join_with_a_space_only_after_content() {
    let c = base_configure();
    let cli = base_cli(Command::Configure(base_configure()));
    let mut probes = no_probes();
    probes.cc_color_diagnostics = true;
    let v = plan_configure(
        &c,
        &cli,
        Quirks::Generic,
        &paths(".", "build"),
        &probes,
        &Some("--user-c-flag".to_string()),
        &Some("--user-cxx-flag".to_string()),
    );
    assert!(v[1]
        .args
        .contains(&"-DCMAKE_C_FLAGS=-fcolor-diagnostics --user-c-flag".to_string()));
    assert!(v[1]
        .args
        .contains(&"-DCMAKE_CXX_FLAGS=-fcolor-diagnostics --user-cxx-flag".to_string()));

    let bare = plan_configure(
        &c,
        &cli,
        Quirks::Generic,
        &paths(".", "build"),
        &no_probes(),
        &Some("--user-c-flag".to_string()),
        &None,
    );
    assert!(bare[1].args.contains(&"-DCMAKE_C_FLAGS=--user-c-flag".to_string()));
    assert!(bare[1].args.contains(&"-DCMAKE_CXX_FLAGS=".to_string()));
}

#[test]
fn llvm_mode_selects_project_specific_cache_variables() {
    let mut c = base_configure();
    c.san = true;
    let cli = base_cli(Command::Configure(base_configure()));
    let mut probes = no_probes();
    probes.ccache = true;
    probes.lld = true;
    probes.cc_fuse_ld_lld = true;
    probes.sphinx_build = true;
    let v = plan_configure(&c, &cli, Quirks::Llvm, &paths("llvm", "build"), &probes, &None, &None);
    let args = &v[1].args;
    assert!(args.contains(&"-DLLVM_ENABLE_ASSERTIONS=On".to_string()));
    assert!(args.contains(&"-DLLVM_OPTIMIZED_TABLEGEN=On".to_string()));
    assert!(args.contains(&"-DLLVM_ENABLE_SPHINX=On".to_string()));
    assert!(args.contains(&"-DLLVM_USE_LINKER=lld".to_string()));
    assert!(args.contains(&"-DLLVM_CCACHE_BUILD=On".to_string()));
    assert!(args.contains(&"-DLLVM_USE_SANITIZER=Address;Undefined".to_string()));
    assert!(args.contains(&"-DLLVM_USE_SANITIZE_COVERAGE=Yes".to_string()));
    assert!(!args.iter().any(|a| a.starts_with("-DCMAKE_C_COMPILER_LAUNCHER")));
    assert!(args.contains(&"-DCMAKE_C_FLAGS=".to_string()));
}

#[test]
fn generic_mode_routes_sanitizers_through_compiler_flags() {
    let mut c = base_configure();
    c.san = true;
    c.flag = strings(&["-g"]);
    let cli = base_cli(Command::Configure(base_configure()));
    let mut probes = no_probes();
    probes.ccache = true;
    let v = plan_configure(&c, &cli, Quirks::Generic, &paths(".", "build"), &probes, &None, &None);
    let args = &v[1].args;
    assert!(args.contains(&"-DCMAKE_C_COMPILER_LAUNCHER=ccache".to_string()));
    assert!(args.contains(&"-DCMAKE_CXX_COMPILER_LAUNCHER=ccache".to_string()));
    assert!(args.contains(&"-DCMAKE_C_FLAGS=-fsanitize=address,undefined -g".to_string()));
    assert!(!args.iter().any(|a| a.starts_with("-DLLVM_USE_SANITIZER")));
}

#[test]
fn gold_linker_is_the_fallback_choice() {
    let c = base_configure();
    let cli = base_cli(Command::Configure(base_configure()));
    let mut probes = no_probes();
    probes.gold = true;
    probes.cc_fuse_ld_gold = true;
    let v = plan_configure(&c, &cli, Quirks::Llvm, &paths("llvm", "build"), &probes, &None, &None);
    assert!(v[1].args.contains(&"-DLLVM_USE_LINKER=gold".to_string()));
    assert!(!v[1].args.contains(&"-DLLVM_USE_LINKER=lld".to_string()));
}

#[test]
fn makefiles_shorthand_overrides_the_generator() {
    let mut c = base_configure();
    c.makefiles = true;
    let cli = base_cli(Command::Configure(base_configure()));
    let v = plan_configure(&c, &cli, Quirks::Generic, &paths(".", "build"), &no_probes(), &None, &None);
    assert_eq!(v[1].args[5], "Unix Makefiles");
}

#[test]
fn expensive_checks_disable_warnings_as_errors() {
    let mut c = base_configure();
    c.expensive_checks = true;
    let cli = base_cli(Command::Configure(base_configure()));
    let v = plan_configure(&c, &cli, Quirks::Generic, &paths(".", "build"), &no_probes(), &None, &None);
    assert!(v[1].args.contains(&"-DLLVM_ENABLE_EXPENSIVE_CHECKS=On".to_string()));
    assert!(v[1].args.contains(&"-DLLVM_ENABLE_WERROR=Off".to_string()));
}

#[test]
fn build_plan_forwards_trailing_arguments_after_the_separator() {
    let b = Build { args: strings(&["check-llvm", "-j4"]) };
    let cli = base_cli(Command::Build(Build { args: vec![] }));
    let v = plan_build(&b, &cli, Quirks::Generic, &paths(".", "bin"));
    assert_eq!(v.len(), 1);
    assert_eq!(v[0].program, "cmake");
    assert_eq!(
        v[0].args,
        strings(&["--build", "bin", "--config", "Release", "--", "check-llvm", "-j4"])
    );
}

#[test]
fn debug_shorthand_wins_over_the_configured_value() {
    let mut cli = base_cli(Command::Build(Build { args: vec![] }));
    cli.debug = true;
    let cmd = build_cmd(&cli, &paths(".", "build"));
    assert_eq!(cmd.args[3], "Debug");
    assert_eq!(cli.final_config(), "Debug");
}

#[test]
fn lit_selection_runs_the_failing_tests() {
    let lit = base_lit();
    let cli = base_cli(Command::Lit(base_lit()));
    let db = Some(ResultDB {
        tests: vec![
            TestRecord { expected: false, test_id: "LLVM :: a.c".to_string() },
            TestRecord { expected: true, test_id: "LLVM :: b.c".to_string() },
        ],
    });
    let v = plan_lit(&lit, &cli, Quirks::Generic, &paths("src", "build"), &db).unwrap();
    assert_eq!(v.len(), 1);
    assert_eq!(v[0].program, "build/bin/llvm-lit");
    assert_eq!(v[0].args, strings(&["src/test/a.c"]));
    assert_eq!(v[0].envs.len(), 1);
    assert_eq!(v[0].envs[0].0, "LIT_OPTS");
    assert_eq!(v[0].envs[0].1, "--resultdb-output build/lit.json");
}

#[test]
fn lit_with_no_failing_tests_plans_nothing() {
    let lit = base_lit();
    let cli = base_cli(Command::Lit(base_lit()));
    let db = Some(ResultDB {
        tests: vec![TestRecord { expected: true, test_id: "LLVM :: b.c".to_string() }],
    });
    let v = plan_lit(&lit, &cli, Quirks::Generic, &paths("src", "build"), &db).unwrap();
    assert!(v.is_empty());
}

#[test]
fn lit_print_only_prints_instead_of_running() {
    let mut lit = base_lit();
    lit.print_only = true;
    lit.tests = strings(&["t/x.c", "t/y.c"]);
    lit.update_resultdb = false;
    let cli = base_cli(Command::Lit(base_lit()));
    let v = plan_lit(&lit, &cli, Quirks::Generic, &paths("src", "build"), &None).unwrap();
    assert_eq!(v.len(), 1);
    assert_eq!(v[0].program, "printf");
    assert_eq!(v[0].args, strings(&["%s\\n", "t/x.c", "t/y.c"]));
    assert!(v[0].envs.is_empty());
}

#[test]
fn lit_verbose_asks_for_full_output() {
    let mut lit = base_lit();
    lit.verbose = true;
    lit.tests = strings(&["t/x.c"]);
    lit.update_resultdb = false;
    let cli = base_cli(Command::Lit(base_lit()));
    let v = plan_lit(&lit, &cli, Quirks::Generic, &paths("src", "build"), &None).unwrap();
    assert_eq!(v[0].args, strings(&["-a", "t/x.c"]));
    assert_eq!(v[0].envs, vec![("FILECHECK_OPTS".to_string(), "--dump-input always".to_string())]);
}

#[test]
fn lit_group_goes_through_the_build_tool() {
    let mut lit = base_lit();
    lit.group = Some("check-llvm".to_string());
    let cli = base_cli(Command::Lit(base_lit()));
    let v = plan_lit(&lit, &cli, Quirks::Generic, &paths("src", "build"), &None).unwrap();
    assert_eq!(v.len(), 1);
    assert_eq!(v[0].program, "cmake");
    assert_eq!(
        v[0].args,
        strings(&["--build", "build", "--config", "Release", "--", "check-llvm"])
    );
    assert_eq!(v[0].envs.len(), 1);

    let mut quiet = lit;
    quiet.update_resultdb = false;
    let v2 = plan_lit(&quiet, &cli, Quirks::Generic, &paths("src", "build"), &None).unwrap();
    assert!(v2[0].envs.is_empty());
}

#[test]
fn xfail_export_prints_the_failing_identifiers() {
    let mut lit = base_lit();
    lit.xfail_export = true;
    let cli = base_cli(Command::Lit(base_lit()));
    let db = Some(ResultDB {
        tests: vec![
            TestRecord { expected: false, test_id: "LLVM :: a.c".to_string() },
            TestRecord { expected: false, test_id: "Clang :: b.c".to_string() },
        ],
    });
    let v = plan_lit(&lit, &cli, Quirks::Generic, &paths("src", "build"), &db).unwrap();
    assert_eq!(v[0].program, "printf");
    assert_eq!(
        v[0].args,
        strings(&["%s\\n", "export LIT_XFAIL=\"LLVM :: a.c;Clang :: b.c\""])
    );
}

#[test]
fn xfail_export_needs_the_snapshot() {
    let mut lit = base_lit();
    lit.xfail_export = true;
    let cli = base_cli(Command::Lit(base_lit()));
    assert!(plan_lit(&lit, &cli, Quirks::Generic, &paths("src", "build"), &None).is_err());
}

#[test]
fn activation_prints_shell_quoted_values() {
    let cli = base_cli(Command::Activate(Activate {}));
    let v = plan_activate(&Activate {}, &cli, Quirks::Generic, &paths("my src", "build"));
    assert_eq!(v.len(), 1);
    assert_eq!(v[0].program, "printf");
    assert_eq!(v[0].args.len(), 4);
    assert!(v[0].args[0].starts_with("CM_SRC=%s CM_BIN=%s CM_CFG=%s;"));
    assert!(v[0].args[0].contains("PATH=\"$CM_BIN/bin:$PATH\";"));
    assert_eq!(v[0].args[1], "$'my src'");
    assert_eq!(v[0].args[2], "build");
    assert_eq!(v[0].args[3], "Release");
}

#[test]
fn deactivation_prints_the_inverse_script() {
    let cli = base_cli(Command::Deactivate(Deactivate {}));
    let v = plan_deactivate(&Deactivate {}, &cli, Quirks::Generic, &paths(".", "build"));
    assert_eq!(v.len(), 1);
    assert_eq!(v[0].program, "printf");
    assert_eq!(
        v[0].args,
        strings(&[
            "unalias cm;\\n[ -z \"$CM_BIN\" ] || PATH=\"${PATH/$CM_BIN\\/bin:/}\";\\nunset -v CM_SRC CM_BIN CM_CFG;\\n"
        ])
    );
}

#[test]
fn plan_dispatches_on_the_subcommand() {
    let cli = base_cli(Command::Build(Build { args: strings(&["x"]) }));
    let v = plan(&cli, Quirks::Generic, &paths(".", "build"), &None, &None, &None, &None).unwrap();
    assert_eq!(v[0].program, "cmake");

    let lit_cli = base_cli(Command::Lit(base_lit()));
    let v = plan(&lit_cli, Quirks::Generic, &paths(".", "build"), &None, &None, &None, &None)
        .unwrap();
    assert!(v.is_empty());

    let conf_cli = base_cli(Command::Configure(base_configure()));
    let v = plan(
        &conf_cli,
        Quirks::Generic,
        &paths(".", "build"),
        &Some(no_probes()),
        &None,
        &None,
        &None,
    )
    .unwrap();
    assert_eq!(v.len(), 2);
}

#[test]
fn dry_run_lines_quote_what_the_shell_would_misread() {
    let mut cmd = CommandSpec::new("printf");
    cmd.arg("a b".to_string());
    cmd.arg("plain".to_string());
    assert_eq!(render_command(&cmd), "printf $'a b' plain");

    let mut with_env = CommandSpec::new("runner");
    with_env.env("LIT_OPTS", "x y".to_string());
    assert_eq!(render_command(&with_env), "LIT_OPTS=$'x y' runner");

    let mut empty_arg = CommandSpec::new("tool");
    empty_arg.arg(String::new());
    assert_eq!(render_command(&empty_arg), "tool ''");
}

#[test]
fn dry_run_lines_of_inert_words_split_back_into_the_words() {
    let mut cmd = CommandSpec::new("cmake");
    cmd.arg("--build".to_string());
    cmd.arg("build".to_string());
    cmd.env("CM_CFG", "Release".to_string());
    let line = render_command(&cmd);
    assert_eq!(line, "CM_CFG=Release cmake --build build");
    let words: Vec<&str> = line.split(' ').collect();
    assert_eq!(words, vec!["CM_CFG=Release", "cmake", "--build", "build"]);
}

#[test]
fn quirks_detection_needs_both_signals() {
    assert_eq!(detect_quirks(false, true), Quirks::Llvm);
    assert_eq!(detect_quirks(true, true), Quirks::Generic);
    assert_eq!(detect_quirks(false, false), Quirks::Generic);
    assert_eq!(detect_quirks(true, false), Quirks::Generic);
    assert_eq!(effective_quirks(&Some(Quirks::Generic), Quirks::Llvm), Quirks::Generic);
    assert_eq!(effective_quirks(&None, Quirks::Llvm), Quirks::Llvm);
}

#[test]
fn path_defaults_follow_the_quirks_mode() {
    let p = resolve_paths(&None, &None, Quirks::Llvm);
    assert_eq!(p.source, "llvm");
    assert_eq!(p.binary, "build");
    let p = resolve_paths(&None, &None, Quirks::Generic);
    assert_eq!(p.source, ".");
    let p = resolve_paths(&Some("s".to_string()), &Some("b".to_string()), Quirks::Llvm);
    assert_eq!(p.source, "s");
    assert_eq!(p.binary, "b");
}

#[test]
fn result_database_location_is_fixed_under_the_binary_path() {
    assert_eq!(lit_json_path("build"), "build/lit.json");
    assert_eq!(lit_json_path("a/b/"), "a/b/lit.json");
    assert_eq!(lit_json_path(""), "lit.json");
}

#[test]
fn failed_commands_report_their_exit_code() {
    assert_eq!(CommandFailedError(Some(3)).message(), "command failed with code 3");
    assert_eq!(CommandFailedError(Some(-7)).message(), "command failed with code -7");
    assert_eq!(CommandFailedError(Some(1234)).message(), "command failed with code 1234");
    assert_eq!(CommandFailedError(None).message(), "command failed with unknown code");
    assert!(command_exit(true, Some(0)).is_ok());
    let e = command_exit(false, Some(9)).unwrap_err();
    assert_eq!(e.0, Some(9));
}
