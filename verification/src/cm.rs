//! The command planner: a pure mapping from the resolved configuration to an
//! ordered list of external command specifications. Nothing here performs the
//! build or test work; execution and the feature probes are the caller's.

use vstd::prelude::*;

verus! {

use crate::cli::{Cli, Quirks, spec_final_config};
use crate::strutil::{
    dec_rep,
    u64_to_string,
    path_join,
    path_join_spec,
    concat2,
    concat3,
    join_with,
    join_strings,
    append_all,
};
use crate::quoting::{bash_quote, bash_quoted};
use vstd::string::StringExecFns;

/// One external command to run: program, arguments in order, and environment
/// overrides in insertion order.
#[derive(Debug)]
pub struct CommandSpec {
    pub program: String,
    pub args: Vec<String>,
    pub envs: Vec<(String, String)>,
}

/// The environment overrides as pairs of views.
pub open spec fn envs_view(envs: Seq<(String, String)>) -> Seq<(Seq<char>, Seq<char>)> {
    envs.map_values(|kv: (String, String)| (kv.0@, kv.1@))
}

impl CommandSpec {
    pub fn new(program: &str) -> (r: Self)
        ensures
            r.program@ == program@,
            r.args.deep_view() == Seq::<Seq<char>>::empty(),
            r.envs@.len() == 0,
    {
        let r = CommandSpec { program: String::from_str(program), args: Vec::new(), envs: Vec::new() };
        proof {
            assert(r.args.deep_view() =~= Seq::<Seq<char>>::empty());
        }
        r
    }

    pub fn arg(&mut self, a: String)
        ensures
            final(self).program == old(self).program,
            final(self).args.deep_view() == old(self).args.deep_view().push(a@),
            final(self).envs == old(self).envs,
    {
        let ghost before = self.args.deep_view();
        self.args.push(a);
        proof {
            assert(self.args.deep_view() =~= before.push(self.args@.last()@));
        }
    }

    pub fn arg_str(&mut self, a: &str)
        ensures
            final(self).program == old(self).program,
            final(self).args.deep_view() == old(self).args.deep_view().push(a@),
            final(self).envs == old(self).envs,
    {
        self.arg(String::from_str(a));
    }

    pub fn env(&mut self, key: &str, value: String)
        ensures
            final(self).program == old(self).program,
            final(self).args == old(self).args,
            envs_view(final(self).envs@) == envs_view(old(self).envs@).push((key@, value@)),
    {
        let ghost before = envs_view(self.envs@);
        self.envs.push((String::from_str(key), value));
        proof {
            assert(envs_view(self.envs@) =~= before.push(
                (self.envs@.last().0@, self.envs@.last().1@),
            ));
        }
    }
}

/// The paths every plan works under.
pub struct Paths {
    pub source: String,
    pub binary: String,
}

/// The outcomes of the tool and compiler-flag probes that configure
/// planning depends on. Probing is the caller's: it runs processes.
pub struct Probes {
    /// The documentation generator is available.
    pub sphinx_build: bool,
    /// The lld linker is available.
    pub lld: bool,
    /// The gold linker is available.
    pub gold: bool,
    /// The compiler cache is available.
    pub ccache: bool,
    /// The compiler accepts selecting the lld linker.
    pub cc_fuse_ld_lld: bool,
    /// The compiler accepts selecting the gold linker.
    pub cc_fuse_ld_gold: bool,
    /// The compiler accepts the color-diagnostics flag.
    pub cc_color_diagnostics: bool,
}

/// How an attempted probe subprocess ended.
pub enum ProbeOutcome {
    /// The tool ran and exited successfully.
    CompletedSuccess,
    /// The tool ran and exited with a failure.
    CompletedFailure,
    /// The tool was not found.
    NotFound,
    /// The invocation failed for another reason.
    OtherError,
}

/// A probe invocation failed for a reason other than the tool being absent;
/// fatal during configure planning.
#[derive(Debug)]
pub struct FeatureProbeError {}

/// A tool-availability probe: any completed run means the tool exists, and a
/// missing tool is a negative result, not an error.
pub fn classify_command_probe(outcome: &ProbeOutcome) -> (r: Result<bool, FeatureProbeError>)
    ensures
        match outcome {
            ProbeOutcome::CompletedSuccess => r == Result::<bool, FeatureProbeError>::Ok(true),
            ProbeOutcome::CompletedFailure => r == Result::<bool, FeatureProbeError>::Ok(true),
            ProbeOutcome::NotFound => r == Result::<bool, FeatureProbeError>::Ok(false),
            ProbeOutcome::OtherError => r is Err,
        },
{
    match outcome {
        ProbeOutcome::CompletedSuccess => Ok(true),
        ProbeOutcome::CompletedFailure => Ok(true),
        ProbeOutcome::NotFound => Ok(false),
        ProbeOutcome::OtherError => Err(FeatureProbeError {}),
    }
}

/// A flag-acceptance probe: the flag is accepted only when the compiler ran
/// and succeeded; a missing compiler is a negative result, not an error.
pub fn classify_cc_flag_probe(outcome: &ProbeOutcome) -> (r: Result<bool, FeatureProbeError>)
    ensures
        match outcome {
            ProbeOutcome::CompletedSuccess => r == Result::<bool, FeatureProbeError>::Ok(true),
            ProbeOutcome::CompletedFailure => r == Result::<bool, FeatureProbeError>::Ok(false),
            ProbeOutcome::NotFound => r == Result::<bool, FeatureProbeError>::Ok(false),
            ProbeOutcome::OtherError => r is Err,
        },
{
    match outcome {
        ProbeOutcome::CompletedSuccess => Ok(true),
        ProbeOutcome::CompletedFailure => Ok(false),
        ProbeOutcome::NotFound => Ok(false),
        ProbeOutcome::OtherError => Err(FeatureProbeError {}),
    }
}

/// The quirks mode inferred from the project shape: a missing root marker
/// file beside a present specifically-named subdirectory means the
/// LLVM-style layout; anything else is generic.
pub fn detect_quirks(root_marker_present: bool, llvm_subdir_present: bool) -> (q: Quirks)
    ensures
        q == if !root_marker_present && llvm_subdir_present {
            Quirks::Llvm
        } else {
            Quirks::Generic
        },
{
    if !root_marker_present && llvm_subdir_present {
        Quirks::Llvm
    } else {
        Quirks::Generic
    }
}

/// Explicit user input always overrides the detected mode.
pub fn effective_quirks(explicit: &Option<Quirks>, detected: Quirks) -> (q: Quirks)
    ensures
        q == match explicit {
            Some(e) => *e,
            None => detected,
        },
{
    match explicit {
        Some(e) => *e,
        None => detected,
    }
}

/// The default source directory under each quirks mode.
pub open spec fn default_source(quirks: Quirks) -> Seq<char> {
    match quirks {
        Quirks::Generic => seq!['.'],
        Quirks::Llvm => seq!['l', 'l', 'v', 'm'],
    }
}

/// The resolved working paths: explicit values win; the source default
/// depends on the quirks mode and the binary default is `build`.
pub fn resolve_paths(source: &Option<String>, binary: &Option<String>, quirks: Quirks) -> (r: Paths)
    ensures
        r.source@ == match source {
            Some(s) => s@,
            None => default_source(quirks),
        },
        r.binary@ == match binary {
            Some(b) => b@,
            None => seq!['b', 'u', 'i', 'l', 'd'],
        },
{
    let src = match source {
        Some(s) => s.clone(),
        None => {
            proof {
                reveal_strlit(".");
                reveal_strlit("llvm");
                assert("."@ =~= default_source(Quirks::Generic));
                assert("llvm"@ =~= default_source(Quirks::Llvm));
            }
            match quirks {
                Quirks::Generic => String::from_str("."),
                Quirks::Llvm => String::from_str("llvm"),
            }
        },
    };
    let bin = match binary {
        Some(b) => b.clone(),
        None => {
            proof {
                reveal_strlit("build");
                assert("build"@ =~= seq!['b', 'u', 'i', 'l', 'd']);
            }
            String::from_str("build")
        },
    };
    Paths { source: src, binary: bin }
}

/// Where the result database lives: a fixed filename under the binary path.
pub fn lit_json_path(binary: &str) -> (r: String)
    ensures
        r@ == path_join_spec(binary@, "lit.json"@),
{
    path_join(binary, "lit.json")
}

/// An external command exited with a failure; carries the exit code so the
/// caller can mirror it, where one is available.
#[derive(Debug)]
pub struct CommandFailedError(pub Option<i32>);

/// The magnitude of an exit code.
pub open spec fn abs_val(i: int) -> nat {
    if i < 0 {
        (-i) as nat
    } else {
        i as nat
    }
}

/// The report for a failed command: its exit code in decimal, where one is
/// available.
pub open spec fn spec_failure_message(code: Option<i32>) -> Seq<char> {
    match code {
        Some(i) => "command failed with code "@ + (if i < 0 {
            seq!['-']
        } else {
            Seq::empty()
        }) + dec_rep(abs_val(i as int)),
        None => "command failed with unknown code"@,
    }
}

impl CommandFailedError {
    pub fn message(&self) -> (r: String)
        ensures
            r@ == spec_failure_message(self.0),
    {
        match self.0 {
            Some(i) => {
                let wide: i64 = i as i64;
                let mag: u64 = if wide < 0 {
                    (-wide) as u64
                } else {
                    wide as u64
                };
                proof {
                    assert(mag as nat == abs_val(i as int));
                }
                let digits = u64_to_string(mag);
                let sign = if i < 0 {
                    "-"
                } else {
                    ""
                };
                proof {
                    reveal_strlit("-");
                    reveal_strlit("");
                    assert("-"@ =~= seq!['-']);
                    assert(""@ =~= Seq::<char>::empty());
                }
                concat3("command failed with code ", sign, digits.as_str())
            },
            None => String::from_str("command failed with unknown code"),
        }
    }
}

/// The arguments every build-tool invocation starts from: the binary path
/// and the build config, then the separator for forwarded arguments.
pub open spec fn build_base_args(cli: &Cli, paths: &Paths) -> Seq<Seq<char>> {
    seq!["--build"@, paths.binary@, "--config"@, spec_final_config(cli), "--"@]
}

/// The build-tool invocation stem shared by the build and test subcommands.
pub fn build_cmd(cli: &Cli, paths: &Paths) -> (r: CommandSpec)
    ensures
        r.program@ == "cmake"@,
        r.args.deep_view() == build_base_args(cli, paths),
        r.envs@.len() == 0,
{
    let mut cmd = CommandSpec::new("cmake");
    cmd.arg_str("--build");
    cmd.arg(paths.binary.clone());
    cmd.arg_str("--config");
    cmd.arg(cli.final_config());
    cmd.arg_str("--");
    proof {
        assert(cmd.args.deep_view() =~= build_base_args(cli, paths));
    }
    cmd
}

/// A build plan: one build-tool invocation with the trailing arguments
/// forwarded after the separator.
pub open spec fn is_build_plan(
    v: Seq<CommandSpec>,
    build: &crate::cli::Build,
    cli: &Cli,
    paths: &Paths,
) -> bool {
    &&& v.len() == 1
    &&& v[0].program@ == "cmake"@
    &&& v[0].args.deep_view() == build_base_args(cli, paths) + build.args.deep_view()
    &&& v[0].envs@.len() == 0
}

pub fn plan_build(build: &crate::cli::Build, cli: &Cli, _quirks: Quirks, paths: &Paths) -> (r: Vec<
    CommandSpec,
>)
    ensures
        is_build_plan(r@, build, cli, paths),
{
    let mut cmd = build_cmd(cli, paths);
    append_all(&mut cmd.args, &build.args);
    let mut v: Vec<CommandSpec> = Vec::new();
    v.push(cmd);
    proof {
        assert(is_build_plan(v@, build, cli, paths));
    }
    v
}

pub open spec fn opt_view(o: &Option<String>) -> Option<Seq<char>> {
    match o {
        Some(s) => Some(s@),
        None => None,
    }
}

/// The generator handed to the configure step; the makefiles shorthand wins.
pub open spec fn generator_value(c: &crate::cli::Configure) -> Seq<char> {
    if c.makefiles {
        "Unix Makefiles"@
    } else {
        c.generator@
    }
}

/// The LLVM-specific cache variables, including the probe-dependent
/// documentation and linker choices: lld wins over gold, and either needs
/// both the tool and the compiler accepting its selection flag.
pub open spec fn llvm_probe_args(probes: &Probes) -> Seq<Seq<char>> {
    seq!["-DLLVM_ENABLE_ASSERTIONS=On"@, "-DLLVM_OPTIMIZED_TABLEGEN=On"@] + (if probes.sphinx_build {
        seq!["-DLLVM_ENABLE_SPHINX=On"@]
    } else {
        Seq::empty()
    }) + (if probes.lld && probes.cc_fuse_ld_lld {
        seq!["-DLLVM_USE_LINKER=lld"@]
    } else if probes.gold && probes.cc_fuse_ld_gold {
        seq!["-DLLVM_USE_LINKER=gold"@]
    } else {
        Seq::empty()
    })
}

/// The compiler-launcher selection: the generic launcher variables, or the
/// project-specific cache variable under the LLVM quirks mode.
pub open spec fn launcher_args(quirks: Quirks, probes: &Probes) -> Seq<Seq<char>> {
    if probes.ccache {
        match quirks {
            Quirks::Generic => seq![
                "-DCMAKE_C_COMPILER_LAUNCHER=ccache"@,
                "-DCMAKE_CXX_COMPILER_LAUNCHER=ccache"@,
            ],
            Quirks::Llvm => seq!["-DLLVM_CCACHE_BUILD=On"@],
        }
    } else {
        Seq::empty()
    }
}

/// The sanitizer selection routed through cache variables under the LLVM
/// quirks mode; in generic mode it goes through raw compiler flags instead.
pub open spec fn sanitizer_cache_args(c: &crate::cli::Configure, quirks: Quirks) -> Seq<Seq<char>> {
    if c.san && quirks == Quirks::Llvm {
        seq!["-DLLVM_USE_SANITIZER=Address;Undefined"@, "-DLLVM_USE_SANITIZE_COVERAGE=Yes"@]
    } else {
        Seq::empty()
    }
}

pub open spec fn expensive_args(c: &crate::cli::Configure) -> Seq<Seq<char>> {
    if c.expensive_checks {
        seq!["-DLLVM_ENABLE_EXPENSIVE_CHECKS=On"@, "-DLLVM_ENABLE_WERROR=Off"@]
    } else {
        Seq::empty()
    }
}

/// The enabled projects, joined by the list separator; the documented
/// default set applies when none are given.
pub open spec fn projects_value(c: &crate::cli::Configure) -> Seq<char> {
    match c.enable_projects {
        Some(v) => join_with(v.deep_view(), ";"@),
        None => "llvm;clang;lld"@,
    }
}

/// The targets to build: explicit targets imply the host-native target
/// unless the verbatim alternative was used, and the documented default
/// applies when none are given.
pub open spec fn targets_value(c: &crate::cli::Configure) -> Seq<char> {
    match c.targets_to_build {
        Some(v) => join_with(v.deep_view().push("Native"@), ";"@),
        None => match c.targets_to_build_alt {
            Some(v) => join_with(v.deep_view(), ";"@),
            None => "all"@,
        },
    }
}

/// The compiler flags assembled for both language flag variables: the
/// detected color flag, the generic-mode sanitizer flags, then the
/// user-supplied extras.
pub open spec fn compiler_flags_list(
    c: &crate::cli::Configure,
    quirks: Quirks,
    probes: &Probes,
) -> Seq<Seq<char>> {
    (if probes.cc_color_diagnostics {
        seq!["-fcolor-diagnostics"@]
    } else {
        Seq::empty()
    }) + (if c.san && quirks == Quirks::Generic {
        seq!["-fsanitize=address,undefined"@]
    } else {
        Seq::empty()
    }) + c.flag.deep_view()
}

/// Inherited environment flags appended after the assembled flags, with a
/// separating space only when prior content exists.
pub open spec fn flags_with_env(flags: Seq<char>, env: Option<Seq<char>>) -> Seq<char> {
    match env {
        Some(e) => if flags.len() > 0 {
            flags + seq![' '] + e
        } else {
            flags + e
        },
        None => flags,
    }
}

fn flags_env_append(flags: &String, env: &Option<String>) -> (r: String)
    ensures
        r@ == flags_with_env(flags@, opt_view(env)),
{
    proof {
        reveal_strlit(" ");
        assert(" "@ =~= seq![' ']);
    }
    match env {
        Some(e) => {
            if flags.as_str().unicode_len() > 0 {
                concat3(flags.as_str(), " ", e.as_str())
            } else {
                concat2(flags.as_str(), e.as_str())
            }
        },
        None => flags.clone(),
    }
}

/// The leading configure arguments: paths, generator, and the fixed cache
/// variables.
pub open spec fn configure_head_args(
    c: &crate::cli::Configure,
    cli: &Cli,
    paths: &Paths,
) -> Seq<Seq<char>> {
    seq!["-S"@, paths.source@, "-B"@, paths.binary@, "-G"@, generator_value(c)] + seq![
        "-DCMAKE_BUILD_TYPE="@ + spec_final_config(cli),
        "-DCMAKE_PREFIX_PATH="@ + join_with(c.prefix_path.deep_view(), ";"@),
        "-DCMAKE_INSTALL_PREFIX=dist"@,
        "-DCMAKE_EXPORT_COMPILE_COMMANDS=On"@,
    ]
}

/// The mode-dependent cache variables: the LLVM block, the launcher, the
/// sanitizer routing, and the expensive checks.
pub open spec fn configure_mode_args(
    c: &crate::cli::Configure,
    quirks: Quirks,
    probes: &Probes,
) -> Seq<Seq<char>> {
    (if quirks == Quirks::Llvm {
        llvm_probe_args(probes)
    } else {
        Seq::empty()
    }) + launcher_args(quirks, probes) + sanitizer_cache_args(c, quirks) + expensive_args(c)
}

/// The list-valued selections and the assembled compiler flags.
pub open spec fn configure_value_args(
    c: &crate::cli::Configure,
    quirks: Quirks,
    probes: &Probes,
    env_cflags: Option<Seq<char>>,
    env_cxxflags: Option<Seq<char>>,
) -> Seq<Seq<char>> {
    seq![
        "-DLLVM_ENABLE_PROJECTS="@ + projects_value(c),
        "-DLLVM_TARGETS_TO_BUILD="@ + targets_value(c),
        "-DCMAKE_C_FLAGS="@ + flags_with_env(
            join_with(compiler_flags_list(c, quirks, probes), " "@),
            env_cflags,
        ),
        "-DCMAKE_CXX_FLAGS="@ + flags_with_env(
            join_with(compiler_flags_list(c, quirks, probes), " "@),
            env_cxxflags,
        ),
    ]
}

/// The full configure invocation, in argument order: the head, the
/// mode-dependent block, the value block, then the trailing arguments
/// forwarded verbatim.
pub open spec fn configure_args(
    c: &crate::cli::Configure,
    cli: &Cli,
    quirks: Quirks,
    paths: &Paths,
    probes: &Probes,
    env_cflags: Option<Seq<char>>,
    env_cxxflags: Option<Seq<char>>,
) -> Seq<Seq<char>> {
    configure_head_args(c, cli, paths) + configure_mode_args(c, quirks, probes)
        + configure_value_args(c, quirks, probes, env_cflags, env_cxxflags) + c.args.deep_view()
}

/// The cache-clearing removal that precedes every configure invocation.
pub open spec fn rm_cache_args(paths: &Paths) -> Seq<Seq<char>> {
    seq![
        "-rf"@,
        path_join_spec(paths.binary@, "CMakeCache.txt"@),
        path_join_spec(paths.binary@, "CMakeFiles"@),
    ]
}

/// A configure plan: the cache-clearing removal, then the configure
/// invocation itself.
pub open spec fn is_configure_plan(
    v: Seq<CommandSpec>,
    c: &crate::cli::Configure,
    cli: &Cli,
    quirks: Quirks,
    paths: &Paths,
    probes: &Probes,
    env_cflags: Option<Seq<char>>,
    env_cxxflags: Option<Seq<char>>,
) -> bool {
    &&& v.len() == 2
    &&& v[0].program@ == "rm"@
    &&& v[0].args.deep_view() == rm_cache_args(paths)
    &&& v[0].envs@.len() == 0
    &&& v[1].program@ == "cmake"@
    &&& v[1].args.deep_view() == configure_args(
        c,
        cli,
        quirks,
        paths,
        probes,
        env_cflags,
        env_cxxflags,
    )
    &&& v[1].envs@.len() == 0
}

fn configure_cmd_head(c: &crate::cli::Configure, cli: &Cli, paths: &Paths) -> (cmd: CommandSpec)
    ensures
        cmd.program@ == "cmake"@,
        cmd.envs@.len() == 0,
        cmd.args.deep_view() == configure_head_args(c, cli, paths),
{
    let mut cmd = CommandSpec::new("cmake");
    cmd.arg_str("-S");
    cmd.arg(paths.source.clone());
    cmd.arg_str("-B");
    cmd.arg(paths.binary.clone());
    cmd.arg_str("-G");
    if c.makefiles {
        cmd.arg_str("Unix Makefiles");
    } else {
        cmd.arg(c.generator.clone());
    }
    let cfg = cli.final_config();
    cmd.arg(concat2("-DCMAKE_BUILD_TYPE=", cfg.as_str()));
    let pp = join_strings(&c.prefix_path, ";");
    cmd.arg(concat2("-DCMAKE_PREFIX_PATH=", pp.as_str()));
    cmd.arg_str("-DCMAKE_INSTALL_PREFIX=dist");
    cmd.arg_str("-DCMAKE_EXPORT_COMPILE_COMMANDS=On");
    proof {
        assert(cmd.args.deep_view() =~= configure_head_args(c, cli, paths));
    }
    cmd
}

fn add_llvm_args(cmd: &mut CommandSpec, probes: &Probes)
    ensures
        final(cmd).program == old(cmd).program,
        final(cmd).envs == old(cmd).envs,
        final(cmd).args.deep_view() == old(cmd).args.deep_view() + llvm_probe_args(probes),
{
    let ghost base = cmd.args.deep_view();
    cmd.arg_str("-DLLVM_ENABLE_ASSERTIONS=On");
    cmd.arg_str("-DLLVM_OPTIMIZED_TABLEGEN=On");
    let ghost s1 = base + seq!["-DLLVM_ENABLE_ASSERTIONS=On"@, "-DLLVM_OPTIMIZED_TABLEGEN=On"@];
    proof {
        assert(cmd.args.deep_view() =~= s1);
    }
    if probes.sphinx_build {
        cmd.arg_str("-DLLVM_ENABLE_SPHINX=On");
    }
    let ghost s2 = s1 + (if probes.sphinx_build {
        seq!["-DLLVM_ENABLE_SPHINX=On"@]
    } else {
        Seq::<Seq<char>>::empty()
    });
    proof {
        assert(cmd.args.deep_view() =~= s2);
    }
    if probes.lld && probes.cc_fuse_ld_lld {
        cmd.arg_str("-DLLVM_USE_LINKER=lld");
    } else if probes.gold && probes.cc_fuse_ld_gold {
        cmd.arg_str("-DLLVM_USE_LINKER=gold");
    }
    proof {
        assert(cmd.args.deep_view() =~= s2 + (if probes.lld && probes.cc_fuse_ld_lld {
            seq!["-DLLVM_USE_LINKER=lld"@]
        } else if probes.gold && probes.cc_fuse_ld_gold {
            seq!["-DLLVM_USE_LINKER=gold"@]
        } else {
            Seq::<Seq<char>>::empty()
        }));
        assert(cmd.args.deep_view() =~= old(cmd).args.deep_view() + llvm_probe_args(probes));
    }
}

#[verifier::rlimit(100)]
fn add_mode_args(cmd: &mut CommandSpec, c: &crate::cli::Configure, quirks: Quirks, probes: &Probes)
    ensures
        final(cmd).program == old(cmd).program,
        final(cmd).envs == old(cmd).envs,
        final(cmd).args.deep_view() == old(cmd).args.deep_view() + configure_mode_args(
            c,
            quirks,
            probes,
        ),
{
    let ghost base = cmd.args.deep_view();
    match quirks {
        Quirks::Llvm => {
            add_llvm_args(cmd, probes);
        },
        Quirks::Generic => {},
    }
    let ghost seg1 = base + (if quirks == Quirks::Llvm {
        llvm_probe_args(probes)
    } else {
        Seq::<Seq<char>>::empty()
    });
    proof {
        assert(cmd.args.deep_view() =~= seg1);
    }
    if probes.ccache {
        match quirks {
            Quirks::Generic => {
                cmd.arg_str("-DCMAKE_C_COMPILER_LAUNCHER=ccache");
                cmd.arg_str("-DCMAKE_CXX_COMPILER_LAUNCHER=ccache");
            },
            Quirks::Llvm => {
                cmd.arg_str("-DLLVM_CCACHE_BUILD=On");
            },
        }
    }
    let ghost seg2 = seg1 + launcher_args(quirks, probes);
    proof {
        assert(cmd.args.deep_view() =~= seg2);
    }
    if c.san {
        match quirks {
            Quirks::Generic => {},
            Quirks::Llvm => {
                cmd.arg_str("-DLLVM_USE_SANITIZER=Address;Undefined");
                cmd.arg_str("-DLLVM_USE_SANITIZE_COVERAGE=Yes");
            },
        }
    }
    let ghost seg3 = seg2 + sanitizer_cache_args(c, quirks);
    proof {
        assert(cmd.args.deep_view() =~= seg3);
    }
    if c.expensive_checks {
        cmd.arg_str("-DLLVM_ENABLE_EXPENSIVE_CHECKS=On");
        cmd.arg_str("-DLLVM_ENABLE_WERROR=Off");
    }
    proof {
        assert(cmd.args.deep_view() =~= seg3 + expensive_args(c));
        assert(seg3 + expensive_args(c) =~= old(cmd).args.deep_view() + configure_mode_args(
            c,
            quirks,
            probes,
        ));
    }
}

fn add_value_args(
    cmd: &mut CommandSpec,
    c: &crate::cli::Configure,
    quirks: Quirks,
    probes: &Probes,
    env_cflags: &Option<String>,
    env_cxxflags: &Option<String>,
)
    ensures
        final(cmd).program == old(cmd).program,
        final(cmd).envs == old(cmd).envs,
        final(cmd).args.deep_view() == old(cmd).args.deep_view() + configure_value_args(
            c,
            quirks,
            probes,
            opt_view(env_cflags),
            opt_view(env_cxxflags),
        ),
{
    let ghost base = cmd.args.deep_view();
    let projects = match &c.enable_projects {
        Some(v) => join_strings(v, ";"),
        None => String::from_str("llvm;clang;lld"),
    };
    proof {
        assert(projects@ == projects_value(c));
    }
    cmd.arg(concat2("-DLLVM_ENABLE_PROJECTS=", projects.as_str()));
    let targets = match &c.targets_to_build {
        Some(v) => {
            let mut with_native: Vec<String> = Vec::new();
            append_all(&mut with_native, v);
            with_native.push(String::from_str("Native"));
            proof {
                assert(with_native.deep_view() =~= v.deep_view().push("Native"@));
            }
            join_strings(&with_native, ";")
        },
        None => match &c.targets_to_build_alt {
            Some(v) => join_strings(v, ";"),
            None => String::from_str("all"),
        },
    };
    proof {
        assert(targets@ == targets_value(c));
    }
    cmd.arg(concat2("-DLLVM_TARGETS_TO_BUILD=", targets.as_str()));
    let mut flags_vec: Vec<String> = Vec::new();
    if probes.cc_color_diagnostics {
        flags_vec.push(String::from_str("-fcolor-diagnostics"));
    }
    if c.san {
        match quirks {
            Quirks::Generic => {
                flags_vec.push(String::from_str("-fsanitize=address,undefined"));
            },
            Quirks::Llvm => {},
        }
    }
    append_all(&mut flags_vec, &c.flag);
    proof {
        assert(flags_vec.deep_view() =~= compiler_flags_list(c, quirks, probes));
    }
    let fl = join_strings(&flags_vec, " ");
    proof {
        reveal_strlit(" ");
        assert(" "@ =~= seq![' ']);
        assert(fl@ == join_with(compiler_flags_list(c, quirks, probes), " "@));
    }
    let cval = flags_env_append(&fl, env_cflags);
    cmd.arg(concat2("-DCMAKE_C_FLAGS=", cval.as_str()));
    let xval = flags_env_append(&fl, env_cxxflags);
    cmd.arg(concat2("-DCMAKE_CXX_FLAGS=", xval.as_str()));
    proof {
        assert(cmd.args.deep_view() =~= base + configure_value_args(
            c,
            quirks,
            probes,
            opt_view(env_cflags),
            opt_view(env_cxxflags),
        ));
    }
}

pub fn plan_configure(
    c: &crate::cli::Configure,
    cli: &Cli,
    quirks: Quirks,
    paths: &Paths,
    probes: &Probes,
    env_cflags: &Option<String>,
    env_cxxflags: &Option<String>,
) -> (r: Vec<CommandSpec>)
    ensures
        is_configure_plan(
            r@,
            c,
            cli,
            quirks,
            paths,
            probes,
            opt_view(env_cflags),
            opt_view(env_cxxflags),
        ),
{
    let mut cmd = configure_cmd_head(c, cli, paths);
    add_mode_args(&mut cmd, c, quirks, probes);
    add_value_args(&mut cmd, c, quirks, probes, env_cflags, env_cxxflags);
    append_all(&mut cmd.args, &c.args);
    proof {
        assert(cmd.args.deep_view() =~= configure_args(
            c,
            cli,
            quirks,
            paths,
            probes,
            opt_view(env_cflags),
            opt_view(env_cxxflags),
        ));
    }
    let mut rm_cmd = CommandSpec::new("rm");
    rm_cmd.arg_str("-rf");
    rm_cmd.arg(path_join(paths.binary.as_str(), "CMakeCache.txt"));
    rm_cmd.arg(path_join(paths.binary.as_str(), "CMakeFiles"));
    proof {
        assert(rm_cmd.args.deep_view() =~= rm_cache_args(paths));
    }
    let mut v: Vec<CommandSpec> = Vec::new();
    v.push(rm_cmd);
    v.push(cmd);
    proof {
        assert(is_configure_plan(
            v@,
            c,
            cli,
            quirks,
            paths,
            probes,
            opt_view(env_cflags),
            opt_view(env_cxxflags),
        ));
    }
    v
}

/// The shell statements an activation prints, with the three values
/// interpolated: export the tracked variables, prepend the binary path's
/// `bin` subdirectory to the search path, and define the alias.
pub open spec fn activate_script() -> Seq<char> {
    "CM_SRC=%s CM_BIN=%s CM_CFG=%s;\\nexport CM_SRC CM_BIN CM_CFG;\\nPATH=\"$CM_BIN/bin:$PATH\";\\nalias cm='cm -s \"$CM_SRC\" -b \"$CM_BIN\" -c \"$CM_CFG\"';\\n"@
}

/// The shell statements a deactivation prints: drop the alias, strip the
/// prepended search-path segment, and unset the tracked variables.
pub open spec fn deactivate_script() -> Seq<char> {
    "unalias cm;\\n[ -z \"$CM_BIN\" ] || PATH=\"${PATH/$CM_BIN\\/bin:/}\";\\nunset -v CM_SRC CM_BIN CM_CFG;\\n"@
}

/// An activation plan: one print command whose arguments are the script and
/// the three shell-quoted values it interpolates.
pub open spec fn is_activate_plan(v: Seq<CommandSpec>, cli: &Cli, paths: &Paths) -> bool {
    &&& v.len() == 1
    &&& v[0].program@ == "printf"@
    &&& v[0].args.deep_view() == seq![
        activate_script(),
        bash_quoted(paths.source@),
        bash_quoted(paths.binary@),
        bash_quoted(spec_final_config(cli)),
    ]
    &&& v[0].envs@.len() == 0
}

pub fn plan_activate(
    _activate: &crate::cli::Activate,
    cli: &Cli,
    _quirks: Quirks,
    paths: &Paths,
) -> (r: Vec<CommandSpec>)
    ensures
        is_activate_plan(r@, cli, paths),
{
    let mut cmd = CommandSpec::new("printf");
    cmd.arg_str(
        "CM_SRC=%s CM_BIN=%s CM_CFG=%s;\\nexport CM_SRC CM_BIN CM_CFG;\\nPATH=\"$CM_BIN/bin:$PATH\";\\nalias cm='cm -s \"$CM_SRC\" -b \"$CM_BIN\" -c \"$CM_CFG\"';\\n",
    );
    cmd.arg(bash_quote(paths.source.as_str()));
    cmd.arg(bash_quote(paths.binary.as_str()));
    let cfg = cli.final_config();
    cmd.arg(bash_quote(cfg.as_str()));
    let mut v: Vec<CommandSpec> = Vec::new();
    v.push(cmd);
    proof {
        assert(v@[0].args.deep_view() =~= seq![
            activate_script(),
            bash_quoted(paths.source@),
            bash_quoted(paths.binary@),
            bash_quoted(spec_final_config(cli)),
        ]);
    }
    v
}

/// A deactivation plan: one print command carrying the inverse script.
pub open spec fn is_deactivate_plan(v: Seq<CommandSpec>) -> bool {
    &&& v.len() == 1
    &&& v[0].program@ == "printf"@
    &&& v[0].args.deep_view() == seq![deactivate_script()]
    &&& v[0].envs@.len() == 0
}

pub fn plan_deactivate(
    _deactivate: &crate::cli::Deactivate,
    _cli: &Cli,
    _quirks: Quirks,
    _paths: &Paths,
) -> (r: Vec<CommandSpec>)
    ensures
        is_deactivate_plan(r@),
{
    let mut cmd = CommandSpec::new("printf");
    cmd.arg_str(
        "unalias cm;\\n[ -z \"$CM_BIN\" ] || PATH=\"${PATH/$CM_BIN\\/bin:/}\";\\nunset -v CM_SRC CM_BIN CM_CFG;\\n",
    );
    let mut v: Vec<CommandSpec> = Vec::new();
    v.push(cmd);
    proof {
        assert(v@[0].args.deep_view() =~= seq![deactivate_script()]);
    }
    v
}

/// A planning failure: the result database was required and unavailable.
#[derive(Debug)]
pub enum PlanError {
    ResultDBUnavailable,
}

/// The shell line the expected-failure export prints: the failing
/// identifiers joined by the list separator, quoted for the variable.
pub open spec fn xfail_line(tests: Seq<crate::resultdb::TestRecord>) -> Seq<char> {
    "export LIT_XFAIL=\""@ + join_with(crate::resultdb::failing_ids(tests), ";"@) + seq!['"']
}

/// The result-tracking environment override: the test runner is told to
/// write the result database back to its fixed location, shell-quoted.
pub open spec fn lit_opts_env(paths: &Paths) -> (Seq<char>, Seq<char>) {
    ("LIT_OPTS"@, "--resultdb-output "@ + bash_quoted(path_join_spec(paths.binary@, "lit.json"@)))
}

fn add_lit_opts_env(cmd: &mut CommandSpec, paths: &Paths)
    ensures
        final(cmd).program == old(cmd).program,
        final(cmd).args == old(cmd).args,
        envs_view(final(cmd).envs@) == envs_view(old(cmd).envs@).push(lit_opts_env(paths)),
{
    let p = lit_json_path(paths.binary.as_str());
    let q = bash_quote(p.as_str());
    cmd.env("LIT_OPTS", concat2("--resultdb-output ", q.as_str()));
}

/// The test targets a selection run works on: the explicit tests when given,
/// else the snapshot selection (empty when the snapshot is unavailable),
/// with the trailing arguments appended either way.
pub open spec fn lit_targets(
    lit: &crate::cli::Lit,
    paths: &Paths,
    db: &Option<crate::resultdb::ResultDB>,
) -> Seq<Seq<char>> {
    (if lit.tests.len() > 0 {
        lit.tests.deep_view()
    } else {
        match db {
            Some(d) => crate::resultdb::spec_selected(
                d.tests@,
                lit.first,
                paths.source@,
                crate::resultdb::spec_translation_rules(),
            ),
            None => Seq::empty(),
        }
    }) + lit.args.deep_view()
}

/// The test-selection plan fails only when the expected-failure export was
/// asked for and the snapshot cannot be read.
pub open spec fn lit_plan_err(lit: &crate::cli::Lit, db: &Option<crate::resultdb::ResultDB>) -> bool {
    lit.xfail_export && db is None
}

/// A test-selection plan. The expected-failure export prints one line; a
/// named group goes through the build tool; otherwise the selected targets
/// are printed or handed to the test runner, with the verbosity and
/// result-tracking environment as asked, and an empty selection plans
/// nothing at all.
pub open spec fn is_lit_plan(
    v: Seq<CommandSpec>,
    lit: &crate::cli::Lit,
    cli: &Cli,
    paths: &Paths,
    db: &Option<crate::resultdb::ResultDB>,
) -> bool {
    if lit.xfail_export {
        &&& db matches Some(d)
        &&& v.len() == 1
        &&& v[0].program@ == "printf"@
        &&& v[0].args.deep_view() == seq!["%s\\n"@, xfail_line(d.tests@)]
        &&& v[0].envs@.len() == 0
    } else if lit.group is Some {
        &&& v.len() == 1
        &&& v[0].program@ == "cmake"@
        &&& v[0].args.deep_view() == build_base_args(cli, paths).push(lit.group->0@)
        &&& envs_view(v[0].envs@) == (if lit.update_resultdb {
            seq![lit_opts_env(paths)]
        } else {
            Seq::empty()
        })
    } else {
        let targets = lit_targets(lit, paths, db);
        if targets.len() == 0 {
            v.len() == 0
        } else if lit.print_only {
            &&& v.len() == 1
            &&& v[0].program@ == "printf"@
            &&& v[0].args.deep_view() == seq!["%s\\n"@] + targets
            &&& v[0].envs@.len() == 0
        } else {
            &&& v.len() == 1
            &&& v[0].program@ == path_join_spec(paths.binary@, "bin/llvm-lit"@)
            &&& v[0].args.deep_view() == (if lit.verbose {
                seq!["-a"@]
            } else {
                Seq::empty()
            }) + targets
            &&& envs_view(v[0].envs@) == (if lit.verbose {
                seq![("FILECHECK_OPTS"@, "--dump-input always"@)]
            } else {
                Seq::empty()
            }) + (if lit.update_resultdb {
                seq![lit_opts_env(paths)]
            } else {
                Seq::empty()
            })
        }
    }
}

pub fn plan_lit(
    lit: &crate::cli::Lit,
    cli: &Cli,
    _quirks: Quirks,
    paths: &Paths,
    db: &Option<crate::resultdb::ResultDB>,
) -> (r: Result<Vec<CommandSpec>, PlanError>)
    ensures
        lit_plan_err(lit, db) ==> r is Err,
        !lit_plan_err(lit, db) ==> (r matches Ok(v) && is_lit_plan(v@, lit, cli, paths, db)),
{
    if lit.xfail_export {
        let d = match db {
            Some(d) => d,
            None => {
                return Err(PlanError::ResultDBUnavailable);
            },
        };
        let ids = crate::resultdb::failing_ids_vec(d);
        let joined = join_strings(&ids, ";");
        let line = concat3("export LIT_XFAIL=\"", joined.as_str(), "\"");
        proof {
            reveal_strlit("\"");
            assert("\""@ =~= seq!['"']);
            assert(line@ == xfail_line(d.tests@));
        }
        let mut cmd = CommandSpec::new("printf");
        cmd.arg_str("%s\\n");
        cmd.arg(line);
        let mut v: Vec<CommandSpec> = Vec::new();
        v.push(cmd);
        proof {
            assert(v@[0].args.deep_view() =~= seq!["%s\\n"@, xfail_line(d.tests@)]);
        }
        return Ok(v);
    }
    match &lit.group {
        Some(g) => {
            let mut cmd = build_cmd(cli, paths);
            cmd.arg(g.clone());
            if lit.update_resultdb {
                add_lit_opts_env(&mut cmd, paths);
                proof {
                    assert(envs_view(cmd.envs@) =~= seq![lit_opts_env(paths)]);
                }
            } else {
                proof {
                    assert(envs_view(cmd.envs@) =~= Seq::<(Seq<char>, Seq<char>)>::empty());
                }
            }
            let mut v: Vec<CommandSpec> = Vec::new();
            v.push(cmd);
            proof {
                assert(v@[0].args.deep_view() =~= build_base_args(cli, paths).push(
                    lit.group->0@,
                ));
            }
            return Ok(v);
        },
        None => {},
    }
    let rules = crate::resultdb::translation_rules();
    let mut targets = crate::resultdb::select(
        &lit.tests,
        lit.first,
        db,
        paths.source.as_str(),
        &rules,
    );
    append_all(&mut targets, &lit.args);
    proof {
        assert(targets.deep_view() =~= lit_targets(lit, paths, db));
    }
    if targets.len() == 0 {
        let v: Vec<CommandSpec> = Vec::new();
        return Ok(v);
    }
    if lit.print_only {
        let mut cmd = CommandSpec::new("printf");
        cmd.arg_str("%s\\n");
        append_all(&mut cmd.args, &targets);
        let mut v: Vec<CommandSpec> = Vec::new();
        v.push(cmd);
        proof {
            assert(v@[0].args.deep_view() =~= seq!["%s\\n"@] + lit_targets(lit, paths, db));
        }
        return Ok(v);
    }
    let lit_path = path_join(paths.binary.as_str(), "bin/llvm-lit");
    let mut cmd = CommandSpec::new(lit_path.as_str());
    if lit.verbose {
        cmd.env("FILECHECK_OPTS", String::from_str("--dump-input always"));
        cmd.arg_str("-a");
    }
    append_all(&mut cmd.args, &targets);
    if lit.update_resultdb {
        add_lit_opts_env(&mut cmd, paths);
    }
    proof {
        assert(cmd.args.deep_view() =~= (if lit.verbose {
            seq!["-a"@]
        } else {
            Seq::<Seq<char>>::empty()
        }) + lit_targets(lit, paths, db));
        assert(envs_view(cmd.envs@) =~= (if lit.verbose {
            seq![("FILECHECK_OPTS"@, "--dump-input always"@)]
        } else {
            Seq::<(Seq<char>, Seq<char>)>::empty()
        }) + (if lit.update_resultdb {
            seq![lit_opts_env(paths)]
        } else {
            Seq::<(Seq<char>, Seq<char>)>::empty()
        }));
    }
    let mut v: Vec<CommandSpec> = Vec::new();
    v.push(cmd);
    Ok(v)
}

/// One plan per subcommand; only test selection can fail, and only when the
/// expected-failure export needs the unavailable snapshot. Probes are
/// consulted by configure planning alone.
pub fn plan(
    cli: &Cli,
    quirks: Quirks,
    paths: &Paths,
    probes: &Option<Probes>,
    env_cflags: &Option<String>,
    env_cxxflags: &Option<String>,
    db: &Option<crate::resultdb::ResultDB>,
) -> (r: Result<Vec<CommandSpec>, PlanError>)
    requires
        cli.command is Configure ==> probes is Some,
    ensures
        match cli.command {
            crate::cli::Command::Configure(c) => r matches Ok(v) && is_configure_plan(
                v@,
                &c,
                cli,
                quirks,
                paths,
                &probes->0,
                opt_view(env_cflags),
                opt_view(env_cxxflags),
            ),
            crate::cli::Command::Build(b) => r matches Ok(v) && is_build_plan(v@, &b, cli, paths),
            crate::cli::Command::Lit(l) => {
                &&& lit_plan_err(&l, db) ==> r is Err
                &&& !lit_plan_err(&l, db) ==> (r matches Ok(v) && is_lit_plan(
                    v@,
                    &l,
                    cli,
                    paths,
                    db,
                ))
            },
            crate::cli::Command::Activate(_) => r matches Ok(v) && is_activate_plan(v@, cli, paths),
            crate::cli::Command::Deactivate(_) => r matches Ok(v) && is_deactivate_plan(v@),
        },
{
    match &cli.command {
        crate::cli::Command::Configure(c) => {
            let p = match probes {
                Some(p) => p,
                None => {
                    return vstd::pervasive::unreached();
                },
            };
            Ok(plan_configure(c, cli, quirks, paths, p, env_cflags, env_cxxflags))
        },
        crate::cli::Command::Build(b) => Ok(plan_build(b, cli, quirks, paths)),
        crate::cli::Command::Lit(l) => plan_lit(l, cli, quirks, paths, db),
        crate::cli::Command::Activate(a) => Ok(plan_activate(a, cli, quirks, paths)),
        crate::cli::Command::Deactivate(d) => Ok(plan_deactivate(d, cli, quirks, paths)),
    }
}

/// The words of a dry-run line: each environment override as key=value, the
/// program, then every argument, each shell-quoted.
pub open spec fn rendered_parts(cmd: &CommandSpec) -> Seq<Seq<char>> {
    envs_view(cmd.envs@).map_values(
        |kv: (Seq<char>, Seq<char>)| bash_quoted(kv.0) + seq!['='] + bash_quoted(kv.1),
    ) + seq![bash_quoted(cmd.program@)] + cmd.args.deep_view().map_values(
        |a: Seq<char>| bash_quoted(a),
    )
}

/// The dry-run line for one planned command.
pub open spec fn rendered_command(cmd: &CommandSpec) -> Seq<char> {
    join_with(rendered_parts(cmd), seq![' '])
}

/// The same words unquoted.
pub open spec fn plain_parts(cmd: &CommandSpec) -> Seq<Seq<char>> {
    envs_view(cmd.envs@).map_values(|kv: (Seq<char>, Seq<char>)| kv.0 + seq!['='] + kv.1) + seq![
        cmd.program@,
    ] + cmd.args.deep_view()
}

/// Every word of the command is non-empty and made of characters the shell
/// quoter leaves alone.
pub open spec fn command_inert(cmd: &CommandSpec) -> bool {
    &&& cmd.program@.len() > 0 && crate::quoting::all_shell_inert(cmd.program@)
    &&& forall|i: int|
        0 <= i < cmd.args.deep_view().len() ==> (#[trigger] cmd.args.deep_view()[i]).len() > 0
            && crate::quoting::all_shell_inert(cmd.args.deep_view()[i])
    &&& forall|i: int|
        0 <= i < cmd.envs@.len() ==> ((#[trigger] cmd.envs@[i]).0@.len() > 0
            && crate::quoting::all_shell_inert(cmd.envs@[i].0@) && cmd.envs@[i].1@.len() > 0
            && crate::quoting::all_shell_inert(cmd.envs@[i].1@))
}

/// The dry-run line: the shell-quoted words joined by single spaces. For a
/// command whose words are inert, quoting changes nothing and the line is
/// the plain words joined by spaces.
pub fn render_command(cmd: &CommandSpec) -> (r: String)
    ensures
        r@ == rendered_command(cmd),
        command_inert(cmd) ==> r@ == join_with(plain_parts(cmd), seq![' ']),
{
    let ghost full = rendered_parts(cmd);
    let ghost plain = plain_parts(cmd);
    let mut parts: Vec<String> = Vec::new();
    let elen = cmd.envs.len();
    let alen = cmd.args.len();
    proof {
        assert(full.len() == elen + 1 + alen);
        assert(plain.len() == full.len());
        assert(parts.deep_view() =~= full.take(0));
        assert(parts.deep_view() =~= plain.take(0));
    }
    let mut i: usize = 0;
    while i < elen
        invariant
            full == rendered_parts(cmd),
            plain == plain_parts(cmd),
            elen == cmd.envs.len(),
            alen == cmd.args.len(),
            full.len() == elen + 1 + alen,
            plain.len() == full.len(),
            0 <= i <= elen,
            parts.deep_view() == full.take(i as int),
            command_inert(cmd) ==> parts.deep_view() == plain.take(i as int),
        decreases elen - i,
    {
        let qk = bash_quote(cmd.envs[i].0.as_str());
        let qv = bash_quote(cmd.envs[i].1.as_str());
        let part = concat3(qk.as_str(), "=", qv.as_str());
        let ghost gpart = part@;
        let ghost before = parts.deep_view();
        parts.push(part);
        proof {
            reveal_strlit("=");
            assert("="@ =~= seq!['=']);
            assert(parts.deep_view() =~= before.push(gpart));
            assert(envs_view(cmd.envs@)[i as int] == (
                cmd.envs@[i as int].0@,
                cmd.envs@[i as int].1@,
            ));
            assert(full[i as int] == bash_quoted(cmd.envs@[i as int].0@) + seq!['='] + bash_quoted(
                cmd.envs@[i as int].1@,
            ));
            assert(parts.deep_view() =~= full.take(i as int + 1));
            if command_inert(cmd) {
                assert(plain[i as int] == cmd.envs@[i as int].0@ + seq!['=']
                    + cmd.envs@[i as int].1@);
                assert(parts.deep_view() =~= plain.take(i as int + 1));
            }
        }
        i += 1;
    }
    let qp = bash_quote(cmd.program.as_str());
    parts.push(qp);
    proof {
        assert(full[elen as int] == bash_quoted(cmd.program@));
        assert(parts.deep_view() =~= full.take(elen as int + 1));
        if command_inert(cmd) {
            assert(plain[elen as int] == cmd.program@);
            assert(parts.deep_view() =~= plain.take(elen as int + 1));
        }
    }
    let mut k: usize = 0;
    while k < alen
        invariant
            full == rendered_parts(cmd),
            plain == plain_parts(cmd),
            elen == cmd.envs.len(),
            alen == cmd.args.len(),
            full.len() == elen + 1 + alen,
            plain.len() == full.len(),
            0 <= k <= alen,
            parts.deep_view() == full.take(elen + 1 + k as int),
            command_inert(cmd) ==> parts.deep_view() == plain.take(elen + 1 + k as int),
        decreases alen - k,
    {
        let qa = bash_quote(cmd.args[k].as_str());
        let ghost gpart = qa@;
        let ghost before = parts.deep_view();
        parts.push(qa);
        proof {
            assert(parts.deep_view() =~= before.push(gpart));
            assert(full[elen + 1 + k as int] == bash_quoted(cmd.args.deep_view()[k as int]));
            assert(parts.deep_view() =~= full.take(elen + 1 + k as int + 1));
            if command_inert(cmd) {
                assert(plain[elen + 1 + k as int] == cmd.args.deep_view()[k as int]);
                assert(parts.deep_view() =~= plain.take(elen + 1 + k as int + 1));
            }
        }
        k += 1;
    }
    proof {
        assert(full.take(full.len() as int) =~= full);
        assert(plain.take(plain.len() as int) =~= plain);
    }
    let r = join_strings(&parts, " ");
    proof {
        reveal_strlit(" ");
        assert(" "@ =~= seq![' ']);
    }
    r
}

/// A dry-run line for an inert command parses back into exactly the words
/// it was rendered from: quoting alters no value, and splitting the line on
/// spaces recovers every environment override, the program, and every
/// argument.
pub proof fn lemma_dry_run_roundtrip(cmd: &CommandSpec)
    requires
        command_inert(cmd),
    ensures
        crate::quoting::split_spaces(join_with(plain_parts(cmd), seq![' '])) == plain_parts(cmd),
{
    let parts = plain_parts(cmd);
    assert(parts.len() >= 1);
    assert forall|i: int| 0 <= i < parts.len() implies crate::quoting::no_space(
        #[trigger] parts[i],
    ) by {
        let elen = cmd.envs@.len() as int;
        if i < elen {
            assert(parts[i] == cmd.envs@[i].0@ + seq!['='] + cmd.envs@[i].1@);
        } else if i == elen {
            assert(parts[i] == cmd.program@);
        } else {
            assert(parts[i] == cmd.args.deep_view()[i - elen - 1]);
        }
    }
    crate::quoting::lemma_split_join(parts);
}

/// Map an external command's exit to the planner's failure policy: success
/// goes on, any failure aborts with the exit code preserved.
pub fn command_exit(success: bool, code: Option<i32>) -> (r: Result<(), CommandFailedError>)
    ensures
        success ==> r is Ok,
        !success ==> (r matches Err(e) && e.0 == code),
{
    if success {
        Ok(())
    } else {
        Err(CommandFailedError(code))
    }
}

} // verus!
