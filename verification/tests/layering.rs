use cm::args::{assemble_args, Config, Globals};
use cm::cli::Quirks;
use cm::fuzzy::Bool;

fn strings(v: &[&str]) -> Vec<String> {
    v.iter().map(|s| s.to_string()).collect()
}

fn config_of(lines: &[&str]) -> Config {
    Config { lines: Some(strings(lines)) }
}

#[test]
fn slurp_yields_global_then_scoped_args_in_file_order() {
    let config = config_of(&[
        "# a comment",
        "-global1",
        "",
        "build",
        "-bflag",
        "lit",
        "-lflag",
    ]);
    let mut build_args: Vec<String> = Vec::new();
    config.slurp_into("build", &mut build_args);
    assert_eq!(build_args, strings(&["-global1", "-bflag"]));

    let mut lit_args: Vec<String> = Vec::new();
    config.slurp_into("lit", &mut lit_args);
    assert_eq!(lit_args, strings(&["-global1", "-lflag"]));
}

#[test]
fn slurp_for_an_unrelated_subcommand_yields_only_global_args() {
    let config = config_of(&["-global1", "build", "-bflag"]);
    let mut build_args: Vec<String> = Vec::new();
    config.slurp_into("build", &mut build_args);
    assert_eq!(build_args, strings(&["-global1", "-bflag"]));

    let mut lit_args: Vec<String> = Vec::new();
    config.slurp_into("lit", &mut lit_args);
    assert_eq!(lit_args, strings(&["-global1"]));
}

#[test]
fn slurp_matches_sections_by_typed_prefix() {
    let config = config_of(&["configure", "-cfgflag", "build", "-bflag"]);
    let mut out: Vec<String> = Vec::new();
    config.slurp_into("c", &mut out);
    assert_eq!(out, strings(&["-cfgflag"]));
}

#[test]
fn slurp_skips_comments_after_leading_whitespace() {
    let config = config_of(&["   # indented comment", "\t", "-kept"]);
    let mut out: Vec<String> = Vec::new();
    config.slurp_into("build", &mut out);
    assert_eq!(out, strings(&["-kept"]));
}

#[test]
fn absent_config_yields_no_arguments() {
    let config = Config { lines: None };
    let mut out = strings(&["pre"]);
    config.slurp_into("build", &mut out);
    assert_eq!(out, strings(&["pre"]));
}

#[test]
fn globals_reexpress_as_explicit_flag_tokens() {
    let g = Globals {
        source: Some("src".to_string()),
        binary: None,
        config: Some("Debug".to_string()),
        debug: Some(Bool(false)),
        dry_run: None,
        quirks: Some(Quirks::Llvm),
    };
    assert_eq!(
        g.args_to_vec(),
        strings(&["--source=src", "--config=Debug", "--debug=false", "--quirks=llvm"])
    );
}

#[test]
fn empty_globals_reexpress_as_nothing() {
    let g = Globals {
        source: None,
        binary: None,
        config: None,
        debug: None,
        dry_run: None,
        quirks: None,
    };
    assert_eq!(g.args_to_vec(), Vec::<String>::new());
}

#[test]
fn assembled_vector_orders_layers_weakest_first() {
    let config = config_of(&["-cfg1", "build", "-cfg2"]);
    let g = Globals {
        source: Some("src".to_string()),
        binary: None,
        config: None,
        debug: None,
        dry_run: None,
        quirks: None,
    };
    let v = assemble_args(
        &Some("cm".to_string()),
        "build",
        &config,
        &g,
        true,
        false,
        &strings(&["--config=Release", "tail"]),
    );
    assert_eq!(
        v,
        strings(&[
            "cm",
            "build",
            "-cfg1",
            "-cfg2",
            "--source=src",
            "-h",
            "--config=Release",
            "tail",
        ])
    );
}

#[test]
fn assembled_vector_without_program_or_help() {
    let config = Config { lines: None };
    let g = Globals {
        source: None,
        binary: None,
        config: None,
        debug: None,
        dry_run: None,
        quirks: None,
    };
    let v = assemble_args(&None, "lit", &config, &g, false, false, &strings(&[]));
    assert_eq!(v, strings(&["lit"]));
}

#[test]
fn later_layers_win_for_scalar_and_overriding_list_options() {
    // The assembled order is [config file, re-expressed defaults, literal
    // command line]; under last-occurrence-wins the literal value must win,
    // whether the payload is a scalar or a whole comma-separated list.
    let config = config_of(&["--config=FromFile", "--targets-to-build=X86"]);
    let g = Globals {
        source: None,
        binary: None,
        config: Some("FromEnv".to_string()),
        debug: None,
        dry_run: None,
        quirks: None,
    };
    let v = assemble_args(
        &None,
        "configure",
        &config,
        &g,
        false,
        false,
        &strings(&["--config=FromCli", "--targets-to-build=AMDGPU,NVPTX"]),
    );
    let last_value = |flag: &str| -> Option<String> {
        let prefix = format!("{}=", flag);
        v.iter()
            .rev()
            .find_map(|a| a.strip_prefix(&prefix).map(|s| s.to_string()))
    };
    assert_eq!(last_value("--config").unwrap(), "FromCli");
    assert_eq!(last_value("--targets-to-build").unwrap(), "AMDGPU,NVPTX");
}

#[test]
fn explicit_globals_win_over_environment_defaults() {
    let cli = Globals {
        source: Some("typed".to_string()),
        binary: None,
        config: None,
        debug: None,
        dry_run: None,
        quirks: None,
    };
    let env = Globals {
        source: Some("from-env".to_string()),
        binary: Some("bin".to_string()),
        config: Some("Debug".to_string()),
        debug: None,
        dry_run: None,
        quirks: Some(Quirks::Llvm),
    };
    let merged = cli.or(env);
    assert_eq!(merged.source.as_deref(), Some("typed"));
    assert_eq!(merged.binary.as_deref(), Some("bin"));
    assert_eq!(merged.config.as_deref(), Some("Debug"));
    assert_eq!(
        merged.args_to_vec(),
        vec![
            "--source=typed".to_string(),
            "--binary=bin".to_string(),
            "--config=Debug".to_string(),
            "--quirks=llvm".to_string(),
        ]
    );
}
